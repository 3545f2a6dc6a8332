use termind::pty::natural::{at_most_u64, divided, from_u64, times};

fn number(limbs: &[u32]) -> u128 {
    limbs.iter().rev().fold(0u128, |sum, limb| (sum << 32) | u128::from(*limb))
}

#[test]
fn limbs_of_a_number() {
    assert_eq!(number(&from_u64(0)), 0);
    assert_eq!(number(&from_u64(7)), 7);
    assert_eq!(number(&from_u64(u64::MAX)), u128::from(u64::MAX));
    assert_eq!(from_u64(0x0000_0002_0000_0001)[..2], [1, 2]);
}

#[test]
fn product_by_a_small_factor() {
    let product = times(&from_u64(u64::MAX), u32::MAX);
    assert_eq!(number(&product), u128::from(u64::MAX) * u128::from(u32::MAX));
    assert_eq!(number(&times(&from_u64(12345), 0)), 0);
    assert_eq!(number(&times(&Vec::new(), 9)), 0);
    let cube = times(&times(&times(&from_u64(100), 1500), 1500), 1500);
    assert_eq!(number(&cube), 337_500_000_000);
}

#[test]
fn quotient_by_a_small_divisor() {
    let big = times(&from_u64(u64::MAX), 1000);
    assert_eq!(number(&divided(&big, 7)), u128::from(u64::MAX) * 1000 / 7);
    assert_eq!(number(&divided(&from_u64(506_250), 1000)), 506);
    assert_eq!(number(&divided(&from_u64(5), 6)), 0);
    assert_eq!(number(&divided(&from_u64(u64::MAX), 1)), u128::from(u64::MAX));
    assert_eq!(number(&divided(&Vec::new(), 3)), 0);
}

#[test]
fn numbers_are_capped() {
    assert_eq!(at_most_u64(&from_u64(5), 9), 5);
    assert_eq!(at_most_u64(&from_u64(9), 9), 9);
    assert_eq!(at_most_u64(&from_u64(10), 9), 9);
    let big = times(&from_u64(u64::MAX), 2);
    assert_eq!(at_most_u64(&big, u64::MAX), u64::MAX);
    assert_eq!(at_most_u64(&big, 0), 0);
    assert_eq!(at_most_u64(&Vec::new(), 4), 0);
    assert_eq!(at_most_u64(&vec![3, 0, 0, 0], 4), 3);
    assert_eq!(at_most_u64(&vec![0, 0, 1], u64::MAX), u64::MAX);
}
