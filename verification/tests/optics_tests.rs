use xraydb::error::XrayDbError;
use xraydb::optics::hkl_class;
use xraydb::optics::resolve_crystal;
use xraydb::optics::CrystalKind;
use xraydb::optics::ReflectionClass;

#[test]
fn all_odd_reflection() {
    assert_eq!(hkl_class(1, 1, 1).unwrap(), ReflectionClass::AllOdd);
    assert_eq!(hkl_class(3, 1, 1).unwrap(), ReflectionClass::AllOdd);
    assert_eq!(hkl_class(-1, -1, -1).unwrap(), ReflectionClass::AllOdd);
}

#[test]
fn all_even_reflection_needs_sum_divisible_by_four() {
    assert_eq!(hkl_class(2, 2, 0).unwrap(), ReflectionClass::AllEven);
    assert_eq!(hkl_class(4, 0, 0).unwrap(), ReflectionClass::AllEven);
    assert_eq!(hkl_class(-2, -2, 0).unwrap(), ReflectionClass::AllEven);
    // All even but the sum is not divisible by four.
    assert!(hkl_class(2, 0, 0).is_err());
}

#[test]
fn mixed_parity_is_rejected() {
    assert!(matches!(hkl_class(1, 1, 2), Err(XrayDbError::DataError(_))));
    assert!(hkl_class(0, 1, 1).is_err());
    assert!(hkl_class(1, 0, 0).is_err());
}

#[test]
fn crystal_names_resolve_case_insensitively() {
    assert_eq!(resolve_crystal("Si").unwrap(), CrystalKind::Silicon);
    assert_eq!(resolve_crystal("si").unwrap(), CrystalKind::Silicon);
    assert_eq!(resolve_crystal("GE").unwrap(), CrystalKind::Germanium);
    assert_eq!(resolve_crystal("C").unwrap(), CrystalKind::Diamond);
    assert_eq!(resolve_crystal("diamond").unwrap(), CrystalKind::Diamond);
    assert!(resolve_crystal("NaCl").is_none());
}
