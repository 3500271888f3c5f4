use lucid_optimizer::item::OptionKind;
use lucid_optimizer::stats::BaseStats;

#[test]
fn all_option_kinds_roundtrip() {
    for kind in OptionKind::ALL {
        let name = kind.display_name();
        assert_eq!(
            OptionKind::from_korean(name),
            Some(kind),
            "roundtrip failed for {name}"
        );
    }
}

#[test]
fn unknown_korean_returns_none() {
    assert_eq!(OptionKind::from_korean("없는옵션"), None);
}

#[test]
fn get_set_roundtrip() {
    let mut s = BaseStats::default();
    for i in 0..5 {
        s.set(i, (i as i32 + 1) * 10);
    }
    for i in 0..5 {
        assert_eq!(s.get(i), (i as i32 + 1) * 10);
    }
}

#[test]
fn effective_magic_excludes_crystal() {
    let s = BaseStats { magic_base: 1000, magic_equip: 500, magic_crystal: 100, ..Default::default() };
    assert_eq!(s.effective_magic(), 1400);
}
