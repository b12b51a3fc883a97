use xraydb::formula::Decimal;
use xraydb::materials::find_material;
use xraydb::materials::gas_alias;
use xraydb::materials::materials_table;

fn dec_f64(d: Decimal) -> f64 {
    if d.exp10 >= 0 {
        d.mantissa as f64 * 10f64.powi(d.exp10)
    } else {
        d.mantissa as f64 / 10f64.powi(-d.exp10)
    }
}

#[test]
fn test_find_material() {
    let (formula, density) = find_material("water").unwrap();
    assert_eq!(formula, "H2O");
    assert!((dec_f64(density) - 1.0).abs() < 1e-6);

    let (formula, density) = find_material("silicon").unwrap();
    assert_eq!(formula, "Si");
    assert!((dec_f64(density) - 2.329).abs() < 0.01);

    let (formula, density) = find_material("kapton").unwrap();
    assert_eq!(formula, "C22H10N2O5");
    assert!((dec_f64(density) - 1.42).abs() < 0.01);

    assert!(find_material("Water").is_some());
    assert!(find_material("SILICON").is_some());

    assert!(find_material("unobtainium").is_none());
}

#[test]
fn find_material_by_name() {
    let (formula, density) = find_material("water").unwrap();
    assert_eq!(formula, "H2O");
    assert_eq!(dec_f64(density), 1.0);
    let (formula, density) = find_material("kapton").unwrap();
    assert_eq!(formula, "C22H10N2O5");
    assert_eq!(dec_f64(density), 1.42);
}

#[test]
fn find_material_name_is_case_insensitive() {
    let (formula, _) = find_material("Water").unwrap();
    assert_eq!(formula, "H2O");
}

#[test]
fn find_material_by_formula_takes_first_row() {
    // Three registry rows share the formula SiO2; silica comes first.
    let (formula, density) = find_material("sio2").unwrap();
    assert_eq!(formula, "SiO2");
    assert_eq!(dec_f64(density), 2.2);
}

#[test]
fn find_material_unknown_is_none() {
    assert!(find_material("unobtainium").is_none());
}

#[test]
fn registry_has_the_common_gases() {
    let table = materials_table();
    assert!(table.len() > 80);
    for gas in ["nitrogen", "argon", "helium", "air"] {
        assert!(find_material(gas).is_some());
    }
    let (n_formula, n_density) = find_material("nitrogen").unwrap();
    assert_eq!(n_formula, "N");
    assert!((dec_f64(n_density) - 0.00125).abs() < 1e-12);
}

#[test]
fn every_registry_formula_parses() {
    for (_, _, formula) in materials_table() {
        assert!(
            xraydb::formula::validate_formula(formula.as_str()),
            "formula should parse: {}",
            formula
        );
    }
}

#[test]
fn gas_alias_maps_molecular_names() {
    assert_eq!(gas_alias("N2"), "nitrogen");
    assert_eq!(gas_alias("O2"), "oxygen");
    assert_eq!(gas_alias("argon"), "argon");
}
