use xraydb::formula::chemparse;
use xraydb::formula::validate_formula;
use xraydb::formula::Composition;
use xraydb::formula::Decimal;

fn dec_f64(d: Decimal) -> f64 {
    if d.exp10 >= 0 {
        d.mantissa as f64 * 10f64.powi(d.exp10)
    } else {
        d.mantissa as f64 / 10f64.powi(-d.exp10)
    }
}

fn count(c: &Composition, sym: &str) -> f64 {
    dec_f64(c.count_of(sym).unwrap())
}

#[test]
fn test_water() {
    let result = chemparse("H2O").unwrap();
    assert_eq!(count(&result, "H"), 2.0);
    assert_eq!(count(&result, "O"), 1.0);
}

#[test]
fn test_nested_parens() {
    let result = chemparse("Mn(SO4)2(H2O)7").unwrap();
    assert_eq!(count(&result, "Mn"), 1.0);
    assert_eq!(count(&result, "S"), 2.0);
    assert_eq!(count(&result, "O"), 15.0);
    assert_eq!(count(&result, "H"), 14.0);
}

#[test]
fn test_scientific_notation() {
    let result = chemparse("Zn1.e-5Fe3O4").unwrap();
    assert!((count(&result, "Zn") - 1e-5).abs() < 1e-10);
    assert_eq!(count(&result, "Fe"), 3.0);
    assert_eq!(count(&result, "O"), 4.0);
}

#[test]
fn test_co_vs_co() {
    let co = chemparse("CO").unwrap();
    assert_eq!(count(&co, "C"), 1.0);
    assert_eq!(count(&co, "O"), 1.0);

    let cobalt = chemparse("Co").unwrap();
    assert_eq!(count(&cobalt, "Co"), 1.0);
}

#[test]
fn test_decimal_stoichiometry() {
    let result = chemparse("Fe0.7Mg0.3O").unwrap();
    assert!((count(&result, "Fe") - 0.7).abs() < 1e-10);
    assert!((count(&result, "Mg") - 0.3).abs() < 1e-10);
    assert_eq!(count(&result, "O"), 1.0);
}

#[test]
fn test_decimal_starting_with_dot() {
    let result = chemparse("Fe.7Mg.3O").unwrap();
    assert!((count(&result, "Fe") - 0.7).abs() < 1e-10);
    assert!((count(&result, "Mg") - 0.3).abs() < 1e-10);
}

#[test]
fn test_invalid_formula() {
    assert!(chemparse("co").is_err());
    assert!(chemparse("Xx").is_err());
}

#[test]
fn test_validate() {
    assert!(validate_formula("H2O"));
    assert!(validate_formula("Mn(SO4)2(H2O)7"));
    assert!(!validate_formula("co"));
    assert!(!validate_formula("Xx"));
}

#[test]
fn test_deuterium() {
    let result = chemparse("D2O").unwrap();
    assert_eq!(count(&result, "H"), 2.0);
    assert_eq!(count(&result, "O"), 1.0);
}

#[test]
fn empty_formula_is_empty_composition() {
    let result = chemparse("").unwrap();
    assert_eq!(result.len(), 0);
}

#[test]
fn unmatched_parenthesis_fails() {
    assert!(matches!(
        chemparse("Mn(SO4"),
        Err(xraydb::error::XrayDbError::InvalidFormula(_))
    ));
    assert!(chemparse("H2O)").is_err());
}

#[test]
fn unrecognized_character_fails() {
    assert!(chemparse("H2O$").is_err());
    assert!(chemparse("H-O").is_err());
}

#[test]
fn malformed_count_fails() {
    assert!(chemparse("H1e").is_err());
    assert!(chemparse("H1e+").is_err());
}

#[test]
fn spaces_are_stripped_before_lexing() {
    let a = chemparse("H 2 O").unwrap();
    assert_eq!(count(&a, "H"), 2.0);
    // Digits separated only by spaces join into one count.
    let b = chemparse("H1 2O").unwrap();
    assert_eq!(count(&b, "H"), 12.0);
}

#[test]
fn repeated_symbols_accumulate() {
    let result = chemparse("CH3COOH").unwrap();
    assert_eq!(count(&result, "C"), 2.0);
    assert_eq!(count(&result, "H"), 4.0);
    assert_eq!(count(&result, "O"), 2.0);
}

#[test]
fn air_formula_parses() {
    let result = chemparse(
        "(N2)0.7808(O2)0.2095Ar9.34e-3(CO2)4.1e-4Ne1.82e-5He5.24e-6(CH4)1.8e-6Kr1.0e-6(H2)0.5e-6Xe9.e-8",
    )
    .unwrap();
    assert!((count(&result, "N") - 2.0 * 0.7808).abs() < 1e-12);
    assert!((count(&result, "Xe") - 9e-8).abs() < 1e-20);
}

#[test]
fn group_multiplier_distributes() {
    let result = chemparse("((H2O)2)3").unwrap();
    assert_eq!(count(&result, "H"), 12.0);
    assert_eq!(count(&result, "O"), 6.0);
}

#[test]
fn leading_dot_counts_parse_like_zero_prefixed_ones() {
    let bare = chemparse("Fe.7Mg.3O").unwrap();
    let zeroed = chemparse("Fe0.7Mg0.3O").unwrap();
    assert_eq!(bare.parts, zeroed.parts);
}

#[test]
fn composition_keeps_first_occurrence_order() {
    let c = chemparse("OH2C").unwrap();
    let symbols: Vec<&str> = c.parts.iter().map(|p| p.0.as_str()).collect();
    assert_eq!(symbols, vec!["O", "H", "C"]);
}

#[test]
fn oversized_counts_round_toward_zero() {
    // 26 nines: the first 19 are kept, the rest bump the exponent.
    let c = chemparse("H99999999999999999999999999").unwrap();
    let d = c.count_of("H").unwrap();
    assert_eq!(d.mantissa, 9_999_999_999_999_999_999);
    assert_eq!(d.exp10, 7);
    assert!((count(&c, "H") - 1e26).abs() < 1e10);
}

#[test]
fn oversized_exponents_saturate() {
    let huge = chemparse("H1e999999999999").unwrap();
    assert_eq!(huge.count_of("H").unwrap().exp10, 2_000_000_000);
    assert!(count(&huge, "H").is_infinite());
    let tiny = chemparse("H1e-999999999999").unwrap();
    assert_eq!(tiny.count_of("H").unwrap().exp10, -2_000_000_000);
    let small = chemparse("H1e8").unwrap();
    assert_eq!(count(&small, "H"), 1e8);
}

#[test]
fn decimal_rounded_ops_are_exact_in_range() {
    let a = Decimal { mantissa: 15, exp10: -1 };
    let b = Decimal { mantissa: 25, exp10: -2 };
    let s = a.add_rounded(b);
    assert_eq!(s.mantissa, 175);
    assert_eq!(s.exp10, -2);
    let p = a.mul_rounded(b);
    assert_eq!(p.mantissa, 375);
    assert_eq!(p.exp10, -3);
}

#[test]
fn decimal_rounded_ops_drop_low_digits() {
    let big = Decimal { mantissa: u64::MAX, exp10: 0 };
    let s = big.add_rounded(Decimal { mantissa: 1, exp10: 0 });
    assert_eq!(s.mantissa, ((u64::MAX as u128 + 1) / 10) as u64);
    assert_eq!(s.exp10, 1);
    let p = big.mul_rounded(Decimal { mantissa: 2, exp10: 0 });
    assert_eq!(p.mantissa, ((u64::MAX as u128) * 2 / 10) as u64);
    assert_eq!(p.exp10, 1);
    // Addends far below the kept precision vanish.
    let tiny_sum = big.add_rounded(Decimal { mantissa: 1, exp10: -40 });
    assert_eq!(tiny_sum.mantissa, u64::MAX);
    assert_eq!(tiny_sum.exp10, 0);
}
