use coin::Coin;
use std::cmp::Ordering;
use std::collections::hash_map::DefaultHasher;
use std::collections::HashSet;
use std::hash::{Hash, Hasher};

fn hash_of(c: &Coin) -> u64 {
    let mut h = DefaultHasher::new();
    c.hash(&mut h);
    h.finish()
}

#[test]
fn one_bit_flip() {
    let mut coin = Coin::from(true);
    coin.0 = 0b1111_1011;
    assert!(coin.to_bool());
}

#[test]
fn two_bits_flipped() {
    let mut coin = Coin::from(true);
    coin.0 = 0b1101_0011;
    assert!(coin.to_bool());
}

#[test]
fn three_bits_flipped() {
    let mut coin = Coin::from(true);
    coin.0 = 0b1101_0011;
    assert!(coin.to_bool());
}

#[test]
fn four_bits_flipped() {
    let mut coin = Coin::from(true);
    coin.0 = 0b1100_0011;
    assert!(coin.to_bool());
}

#[test]
fn five_bits_flipped() {
    let mut coin = Coin::from(true);
    coin.0 = 0b1000_0011;
    assert!(!coin.to_bool());
}

#[test]
fn round_trip_both_values() {
    assert!(Coin::from(true).to_bool());
    assert!(!Coin::from(false).to_bool());
    assert!(bool::from(Coin::from(true)));
    assert!(!bool::from(&Coin::from(false)));
}

#[test]
fn canonical_bytes() {
    assert_eq!(Coin::from(true).0, 0xFF);
    assert_eq!(Coin::from(false).0, 0x00);
    assert_eq!(Coin::truthy().0, 0xFF);
    assert_eq!(Coin::falsey().0, 0x00);
}

#[test]
fn every_byte_reads_by_majority() {
    for x in 0..=255u8 {
        assert_eq!(Coin(x).to_bool(), x.count_ones() >= 4);
        assert_eq!(Coin(x).to_bool(), x.count_ones() >= x.count_zeros());
    }
}

#[test]
fn single_low_bit_reads_false() {
    assert!(!Coin(0b0000_0001).to_bool());
    assert!(!Coin(0b0000_0111).to_bool());
    assert!(Coin(0b0000_1111).to_bool());
}

#[test]
fn flips_from_true_tolerated_up_to_three() {
    for mask in 0..=255u8 {
        let flipped = Coin(0xFF ^ mask).to_bool();
        match mask.count_ones() {
            0..=4 => assert!(flipped),
            _ => assert!(!flipped),
        }
    }
}

#[test]
fn flips_from_false_tolerated_up_to_three() {
    for mask in 0..=255u8 {
        let flipped = Coin(0x00 ^ mask).to_bool();
        assert_eq!(flipped, mask.count_ones() >= 4);
    }
}

#[test]
fn corrupted_coins_still_equal() {
    let fresh = Coin::from(true);
    let worn = Coin(0b1101_0011);
    assert_ne!(fresh.0, worn.0);
    assert!(fresh == worn);
    assert!(Coin::from(false) == Coin(0b0010_0100));
    assert!(Coin::from(true) != Coin(0b1000_0011));
    assert!(Coin::from(true) != Coin::from(false));
}

#[test]
fn equal_coins_hash_alike() {
    let fresh = Coin::from(true);
    let worn = Coin(0b1111_1011);
    assert!(fresh == worn);
    assert_eq!(hash_of(&fresh), hash_of(&worn));
    assert_eq!(hash_of(&Coin::from(false)), hash_of(&Coin(0b0100_0001)));
    let mut set = HashSet::new();
    set.insert(fresh);
    set.insert(worn);
    set.insert(Coin(0b0000_0001));
    assert_eq!(set.len(), 2);
}

#[test]
fn order_false_before_true() {
    assert!(Coin::from(false) < Coin::from(true));
    assert!(Coin::from(true) > Coin::from(false));
    assert_eq!(Coin::from(false).partial_cmp(&Coin::from(true)), Some(Ordering::Less));
    assert_eq!(Coin(0b1111_0000).partial_cmp(&Coin::from(true)), Some(Ordering::Equal));
    assert_eq!(Coin(0b0001_0000).partial_cmp(&Coin(0b1110_1111)), Some(Ordering::Less));
    assert!(Coin(0b1110_1111) >= Coin::from(true));
    assert!(Coin(0b0111_0000) <= Coin::from(false));
}

#[test]
fn degauss_heals_to_canonical() {
    let mut worn = Coin(0b1101_0011);
    worn.degauss();
    assert_eq!(worn.0, 0xFF);
    worn.degauss();
    assert_eq!(worn.0, 0xFF);

    let mut worn = Coin(0b0001_0010);
    worn.degauss();
    assert_eq!(worn.0, 0x00);
    worn.degauss();
    assert_eq!(worn.0, 0x00);
}

#[test]
fn degauss_keeps_value_past_threshold() {
    let mut lost = Coin(0b1000_0011);
    lost.degauss();
    assert_eq!(lost.0, 0x00);
    assert!(!lost.to_bool());
}

#[test]
fn reading_does_not_heal() {
    let worn = Coin(0b1111_1011);
    assert!(worn.to_bool());
    assert!(worn == Coin::from(true));
    let _ = hash_of(&worn);
    assert_eq!(worn.0, 0b1111_1011);
}
