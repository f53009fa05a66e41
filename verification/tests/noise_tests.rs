use sol_rings::UNIT;
use sol_rings::noise::{hash_noise, uhash, unorm_micro};

#[test]
fn uhash_zero_keys() {
    // Both diffusion products are 0, so the accumulator stays 0 through
    // every avalanche round.
    assert_eq!(uhash(0, 0), 0);
}

#[test]
fn uhash_exact_values() {
    assert_eq!(uhash(1, 2), 1_140_624_445);
    assert_eq!(uhash(123, 456), 3_468_509_370);
}

#[test]
fn uhash_deterministic() {
    for a in [0u32, 1, 77, 4_000_000_000] {
        for b in [0u32, 3, 123_456] {
            assert_eq!(uhash(a, b), uhash(a, b));
        }
    }
}

#[test]
fn unorm_micro_range_ends() {
    assert_eq!(unorm_micro(0), 0);
    assert_eq!(unorm_micro(u32::MAX), UNIT);
    assert_eq!(unorm_micro(u32::MAX / 2), 499_999);
}

#[test]
fn hash_noise_deterministic_and_bounded() {
    for x in 0u32..20 {
        for y in 0u32..3 {
            let n = hash_noise(x, y, 0);
            assert_eq!(n, hash_noise(x, y, 0));
            assert!(n <= UNIT);
        }
    }
}

#[test]
fn hash_noise_exact_values() {
    // hash_noise(11, 0, 0) = uhash(11, 0) scaled into micro-units.
    assert_eq!(hash_noise(11, 0, 0), 971_974);
    assert_eq!(hash_noise(11, 1, 0), 193_990);
}
