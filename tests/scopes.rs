use tiger::scopes::{Scopes, ALL, ALL_BUT_NONE, CHARACTER, CULTURE, FAITH, NONE, PROVINCE};

#[test]
fn from_bits_truncate_drops_unknown_bits() {
    let s = Scopes::from_bits_truncate(0xffff_ffff_ffff_ffff);
    assert_eq!(s.bits(), ALL_BUT_NONE);
    let t = Scopes::from_bits_truncate(CHARACTER | (1 << 50));
    assert_eq!(t.bits(), CHARACTER);
}

#[test]
fn union_intersection_contains() {
    let a = Scopes::from_bits_truncate(CHARACTER | PROVINCE);
    let b = Scopes::from_bits_truncate(PROVINCE | FAITH);
    assert_eq!(a.union(&b).bits(), CHARACTER | PROVINCE | FAITH);
    assert_eq!(a.intersection(&b).bits(), PROVINCE);
    assert!(a.contains(&Scopes::from_bits_truncate(CHARACTER)));
    assert!(!a.contains(&b));
    assert!(a.contains(&Scopes::from_bits_truncate(NONE)));
}

#[test]
fn sentinels_compatibility() {
    let none = Scopes::from_bits_truncate(NONE);
    let all = Scopes::from_bits_truncate(ALL_BUT_NONE);
    let character = Scopes::from_bits_truncate(CHARACTER);
    assert!(none.is_empty());
    assert!(!none.compatible(&character));
    assert!(!none.compatible(&all));
    assert!(all.compatible(&character));
    assert!(character.compatible(&all));
    assert!(!character.compatible(&Scopes::from_bits_truncate(CULTURE)));
    assert_eq!(ALL, ALL_BUT_NONE);
}

#[test]
fn compatible_iff_shared_bit_on_random_pairs() {
    let mut x: u64 = 0x2545_f491_4f6c_dd1d;
    for _ in 0..2000 {
        x ^= x << 13;
        x ^= x >> 7;
        x ^= x << 17;
        let a = x & (x >> 3);
        x ^= x << 13;
        x ^= x >> 7;
        x ^= x << 17;
        let b = x & (x >> 5) & (x >> 11);
        let sa = Scopes::from_bits_truncate(a);
        let sb = Scopes::from_bits_truncate(b);
        assert_eq!(sa.compatible(&sb), a & b & ALL_BUT_NONE != 0);
        assert_eq!(sa.intersection(&sb).is_empty(), a & b & ALL_BUT_NONE == 0);
    }
}
