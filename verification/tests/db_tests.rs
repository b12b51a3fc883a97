use xraydb::error::XrayDbError;
use xraydb::records::ChantlerRecord;
use xraydb::records::ComptonEnergiesRecord;
use xraydb::records::CoreWidthRecord;
use xraydb::records::CosterKronigRecord;
use xraydb::records::ElementRecord;
use xraydb::records::IonizationPotentialRecord;
use xraydb::records::PhotoabsorptionRecord;
use xraydb::records::ScatteringRecord;
use xraydb::records::WaasmaierRecord;
use xraydb::records::XrayDatabase;
use xraydb::records::XrayLevelRecord;
use xraydb::records::XrayTransitionRecord;
use xraydb::registry::XrayDb;

fn b(x: f64) -> u64 {
    x.to_bits()
}

fn bits(xs: &[f64]) -> Vec<u64> {
    xs.iter().map(|x| x.to_bits()).collect()
}

fn element(z: u16, sym: &str, name: &str, mass: f64, dens: f64) -> ElementRecord {
    ElementRecord {
        atomic_number: z,
        symbol: sym.to_string(),
        name: name.to_string(),
        molar_mass: b(mass),
        density: b(dens),
    }
}

fn level(el: &str, edge: &str, energy: f64, fy: f64, jump: f64) -> XrayLevelRecord {
    XrayLevelRecord {
        element: el.to_string(),
        iupac_symbol: edge.to_string(),
        absorption_edge: b(energy),
        fluorescence_yield: b(fy),
        jump_ratio: b(jump),
    }
}

fn transition(
    el: &str,
    iupac: &str,
    sieg: &str,
    ini: &str,
    fin: &str,
    energy: f64,
    inten: f64,
) -> XrayTransitionRecord {
    XrayTransitionRecord {
        element: el.to_string(),
        iupac_symbol: iupac.to_string(),
        siegbahn_symbol: sieg.to_string(),
        initial_level: ini.to_string(),
        final_level: fin.to_string(),
        emission_energy: b(energy),
        intensity: b(inten),
    }
}

fn empty_db() -> XrayDatabase {
    XrayDatabase {
        version: vec![],
        elements: vec![],
        xray_levels: vec![],
        xray_transitions: vec![],
        coster_kronig: vec![],
        photoabsorption: vec![],
        scattering: vec![],
        chantler: vec![],
        waasmaier: vec![],
        compton_energies: ComptonEnergiesRecord {
            incident: vec![],
            xray_90deg: vec![],
            xray_mean: vec![],
            electron_mean: vec![],
        },
        keski_rahkonen_krause: vec![],
        krause_oliver: vec![],
        corelevel_widths: vec![],
        ionization_potentials: vec![],
    }
}

fn sample_db() -> XrayDatabase {
    let mut db = empty_db();
    db.elements = vec![
        element(1, "H", "hydrogen", 1.008, 0.0000899),
        element(8, "O", "oxygen", 15.999, 0.001429),
        element(14, "Si", "silicon", 28.085, 2.329),
        element(26, "Fe", "iron", 55.845, 7.86),
        element(29, "Cu", "copper", 63.546, 8.96),
        element(79, "Au", "gold", 196.967, 19.3),
        element(92, "U", "uranium", 238.029, 19.1),
    ];
    db.xray_levels = vec![
        level("Fe", "K", 7112.0, 0.34, 7.8),
        level("Fe", "L1", 844.6, 0.001, 1.1),
        level("Fe", "L2", 719.9, 0.003, 1.4),
        level("Fe", "L3", 706.8, 0.001, 3.1),
        level("Cu", "K", 8979.0, 0.44, 7.9),
    ];
    db.xray_transitions = vec![
        transition("Fe", "K-L3", "Ka1", "K", "L3", 6404.0, 1.0),
        transition("Fe", "K-L2", "Ka2", "K", "L2", 6391.0, 0.51),
        transition("Fe", "K-M3", "Kb1", "K", "M3", 7058.0, 0.17),
        transition("Fe", "L3-M5", "La1", "L3", "M5", 705.0, 1.0),
    ];
    db.coster_kronig = vec![CosterKronigRecord {
        element: "Cu".to_string(),
        initial_level: "L1".to_string(),
        final_level: "L2".to_string(),
        transition_probability: b(0.3),
        total_transition_probability: b(0.4),
    }];
    db.corelevel_widths = vec![
        CoreWidthRecord {
            atomic_number: 26,
            element: "Fe".to_string(),
            edge: "K".to_string(),
            width: b(1.25),
        },
        CoreWidthRecord {
            atomic_number: 26,
            element: "Fe".to_string(),
            edge: "L1".to_string(),
            width: b(3.0),
        },
        CoreWidthRecord {
            atomic_number: 29,
            element: "Cu".to_string(),
            edge: "K".to_string(),
            width: b(1.55),
        },
    ];
    db.ionization_potentials = vec![
        IonizationPotentialRecord { gas: "nitrogen".to_string(), potential: b(36.0) },
        IonizationPotentialRecord { gas: "argon".to_string(), potential: b(26.4) },
    ];
    db.waasmaier = vec![
        WaasmaierRecord {
            atomic_number: 26,
            element: "Fe".to_string(),
            ion: "Fe".to_string(),
            offset: b(1.0369),
            scale: bits(&[11.7695, 7.3573, 3.5222, 2.3045, 1.0369]),
            exponents: bits(&[4.7611, 0.3072, 15.3535, 76.8805, 1.0]),
        },
        WaasmaierRecord {
            atomic_number: 26,
            element: "Fe".to_string(),
            ion: "Fe2+".to_string(),
            offset: b(1.0),
            scale: bits(&[11.0, 7.0, 3.0, 2.0, 1.0]),
            exponents: bits(&[4.0, 0.3, 15.0, 76.0, 1.0]),
        },
    ];
    db.chantler = vec![ChantlerRecord {
        element: "Fe".to_string(),
        sigma_mu: b(0.0),
        mue_f2: b(0.0),
        density: b(7.874),
        corr_henke: b(0.0),
        corr_cl35: b(0.0),
        corr_nucl: b(0.0),
        energy: bits(&[100.0, 1000.0, 10000.0, 100000.0]),
        f1: bits(&[-1.0, -2.0, -0.5, 0.1]),
        f2: bits(&[4.0, 2.0, 0.5, 0.05]),
        mu_photo: bits(&[9000.0, 900.0, 90.0, 0.9]),
        mu_incoh: bits(&[0.01, 0.05, 0.1, 0.12]),
        mu_total: bits(&[9000.01, 900.05, 90.1, 1.02]),
    }];
    db.photoabsorption = vec![PhotoabsorptionRecord {
        element: "Fe".to_string(),
        log_energy: bits(&[4.6, 6.9, 9.2, 11.5]),
        log_photoabsorption: bits(&[9.1, 6.8, 4.5, 0.0]),
        log_photoabsorption_spline: bits(&[0.0, 0.1, 0.1, 0.0]),
    }];
    db.scattering = vec![ScatteringRecord {
        element: "Fe".to_string(),
        log_energy: bits(&[4.6, 6.9, 9.2, 11.5]),
        log_coherent_scatter: bits(&[1.0, 0.5, 0.2, 0.1]),
        log_coherent_scatter_spline: bits(&[0.0, 0.0, 0.0, 0.0]),
        log_incoherent_scatter: bits(&[0.2, 0.3, 0.2, 0.1]),
        log_incoherent_scatter_spline: bits(&[0.0, 0.0, 0.0, 0.0]),
    }];
    db.compton_energies = ComptonEnergiesRecord {
        incident: bits(&[1000.0, 10000.0, 100000.0]),
        xray_90deg: bits(&[998.0, 9800.0, 83000.0]),
        xray_mean: bits(&[999.0, 9900.0, 90000.0]),
        electron_mean: bits(&[2.0, 190.0, 14000.0]),
    };
    db
}

fn sample() -> XrayDb {
    XrayDb::new(sample_db()).unwrap()
}

#[test]
fn new_accepts_well_formed_database() {
    assert!(XrayDb::new(sample_db()).is_ok());
}

#[test]
fn new_rejects_duplicate_atomic_number() {
    let mut db = sample_db();
    db.elements.push(element(26, "Xq", "ironagain", 1.0, 1.0));
    assert!(matches!(XrayDb::new(db), Err(XrayDbError::DataError(_))));
}

#[test]
fn new_rejects_disordered_energies() {
    let mut db = sample_db();
    db.chantler[0].energy = bits(&[100.0, 90.0, 10000.0, 100000.0]);
    assert!(XrayDb::new(db).is_err());
}

#[test]
fn new_rejects_probability_above_one() {
    let mut db = sample_db();
    db.coster_kronig[0].total_transition_probability = b(1.5);
    assert!(XrayDb::new(db).is_err());
}

#[test]
fn atomic_number_by_symbol_name_and_string() {
    let db = sample();
    assert_eq!(db.atomic_number("Fe").unwrap(), 26);
    assert_eq!(db.atomic_number("iron").unwrap(), 26);
    assert_eq!(db.atomic_number("26").unwrap(), 26);
    assert_eq!(db.atomic_number("fe").unwrap(), 26);
    assert_eq!(db.atomic_number("IRON").unwrap(), 26);
    assert_eq!(db.atomic_number("Au").unwrap(), 79);
    assert_eq!(db.atomic_number("H").unwrap(), 1);
}

#[test]
fn atomic_number_rejects_out_of_table_values() {
    let db = sample();
    assert!(matches!(
        db.atomic_number("0"),
        Err(XrayDbError::UnknownElement(_))
    ));
    assert!(matches!(
        db.atomic_number("999"),
        Err(XrayDbError::UnknownElement(_))
    ));
    assert!(matches!(
        db.atomic_number("Xx"),
        Err(XrayDbError::UnknownElement(_))
    ));
}

#[test]
fn symbol_and_name_round_trip() {
    let db = sample();
    assert_eq!(db.symbol("26").unwrap(), "Fe");
    assert_eq!(db.symbol("iron").unwrap(), "Fe");
    assert_eq!(db.symbol("Fe").unwrap(), "Fe");
    assert_eq!(db.atomic_name("Fe").unwrap(), "iron");
    for e in &db.raw().elements {
        let z = db.atomic_number(e.symbol.as_str()).unwrap();
        assert_eq!(z, e.atomic_number);
    }
}

#[test]
fn molar_mass_and_density_return_stored_bits() {
    let db = sample();
    assert_eq!(db.molar_mass("Fe").unwrap(), b(55.845));
    assert_eq!(db.density("Au").unwrap(), b(19.3));
    assert!(matches!(
        db.molar_mass("Xx"),
        Err(XrayDbError::UnknownElement(_))
    ));
}

#[test]
fn xray_edge_returns_the_row() {
    let db = sample();
    let k = db.xray_edge("Fe", "K").unwrap();
    assert_eq!(k.energy, b(7112.0));
    assert_eq!(k.fluorescence_yield, b(0.34));
    assert_eq!(k.jump_ratio, b(7.8));
    assert!(matches!(
        db.xray_edge("Fe", "M5"),
        Err(XrayDbError::UnknownEdge { .. })
    ));
}

#[test]
fn xray_edges_collects_all_rows_of_the_element() {
    let db = sample();
    let edges = db.xray_edges("Fe").unwrap();
    assert_eq!(edges.len(), 4);
    assert_eq!(edges[0].0, "K");
    assert_eq!(edges[3].0, "L3");
    assert_eq!(edges[3].1.energy, b(706.8));
}

#[test]
fn xray_lines_filters_by_level_and_excitation() {
    let db = sample();
    let all = db.xray_lines("Fe", None, None).unwrap();
    assert_eq!(all.len(), 4);
    assert_eq!(all[0].0, "Ka1");
    assert_eq!(all[0].1.energy, b(6404.0));

    let k_only = db.xray_lines("Fe", Some("K"), None).unwrap();
    assert_eq!(k_only.len(), 3);

    // At 7000 eV the K edge (7112 eV) is out of reach; only the L3 line stays.
    let low = db.xray_lines("Fe", None, Some(b(7000.0))).unwrap();
    assert_eq!(low.len(), 1);
    assert_eq!(low[0].0, "La1");
}

#[test]
fn guess_edge_candidates_and_pick() {
    let db = sample();
    let labels: Vec<String> = ["K", "L3", "L2", "L1", "M5"]
        .iter()
        .map(|s| s.to_string())
        .collect();
    let cands = db.edge_candidates(&labels);
    assert_eq!(cands.len(), 5);
    let keys: Vec<u64> = cands
        .iter()
        .map(|c| (f64::from_bits(c.2) - 7112.0).abs().to_bits())
        .collect();
    let best = xraydb::tables::pick_first_min(&cands, &keys).unwrap();
    assert_eq!(best.0, "Fe");
    assert_eq!(best.1, "K");
}

#[test]
fn ck_probability_direct_and_total() {
    let db = sample();
    let direct = db.ck_probability("Cu", "L1", "L2", false).unwrap();
    let total = db.ck_probability("Cu", "L1", "L2", true).unwrap();
    assert_eq!(direct, b(0.3));
    assert_eq!(total, b(0.4));
    let p = f64::from_bits(direct);
    assert!((0.0..=1.0).contains(&p));
    assert!(matches!(
        db.ck_probability("Cu", "L1", "L3", false),
        Err(XrayDbError::UnknownEdge { .. })
    ));
}

#[test]
fn core_width_single_edge_and_all_edges() {
    let db = sample();
    let k = db.core_width("Fe", Some("K")).unwrap();
    assert_eq!(k.len(), 1);
    assert_eq!(k[0].0, "K");
    assert_eq!(k[0].1, b(1.25));
    let w = f64::from_bits(k[0].1);
    assert!(w > 0.0 && w < 10.0);

    let all = db.core_width("Fe", None).unwrap();
    assert!(all.len() > 1);

    assert!(matches!(
        db.core_width("Fe", Some("M5")),
        Err(XrayDbError::UnknownEdge { .. })
    ));
    assert!(matches!(
        db.core_width("Au", None),
        Err(XrayDbError::UnknownElement(_))
    ));
}

#[test]
fn ionization_potential_is_case_insensitive() {
    let db = sample();
    assert_eq!(db.ionization_potential("Nitrogen").unwrap(), b(36.0));
    assert_eq!(db.ionization_potential("ARGON").unwrap(), b(26.4));
    assert!(matches!(
        db.ionization_potential("helium"),
        Err(XrayDbError::UnknownGas(_))
    ));
}

#[test]
fn f0_ions_and_record_lookup() {
    let db = sample();
    let all = db.f0_ions(None).unwrap();
    assert_eq!(all, vec!["Fe".to_string(), "Fe2+".to_string()]);
    let fe = db.f0_ions(Some("iron")).unwrap();
    assert_eq!(fe.len(), 2);
    let rec = db.f0_record("Fe2+").unwrap();
    assert_eq!(rec.atomic_number, 26);
    assert!(matches!(
        db.f0_record("Zz9"),
        Err(XrayDbError::UnknownIon(_))
    ));
}

#[test]
fn chantler_rows_and_energy_filter() {
    let db = sample();
    let row = db.chantler_record("Fe").unwrap();
    assert_eq!(row.energy.len(), 4);
    assert!(matches!(
        db.chantler_record("Au"),
        Err(XrayDbError::UnknownElement(_))
    ));

    let all = db.chantler_energies("Fe", None, None).unwrap();
    assert_eq!(all.len(), 4);
    let mid = db
        .chantler_energies("Fe", Some(b(500.0)), Some(b(50000.0)))
        .unwrap();
    assert_eq!(mid, bits(&[1000.0, 10000.0]));
}

#[test]
fn photo_and_scatter_rows() {
    let db = sample();
    assert_eq!(db.photo_record("Fe").unwrap().log_energy.len(), 4);
    assert_eq!(db.scatter_record("26").unwrap().log_energy.len(), 4);
    assert!(db.photo_record("Au").is_err());
}

fn has(pairs: &[(String, xraydb::tables::XrayEdge)], key_name: &str) -> bool {
    pairs.iter().any(|p| p.0 == key_name)
}

fn has_line(pairs: &[(String, xraydb::tables::XrayLine)], key_name: &str) -> bool {
    pairs.iter().any(|p| p.0 == key_name)
}

fn line_of<'a>(
    pairs: &'a [(String, xraydb::tables::XrayLine)],
    key_name: &str,
) -> &'a xraydb::tables::XrayLine {
    &pairs.iter().find(|p| p.0 == key_name).unwrap().1
}

#[test]
fn test_atomic_number_by_symbol() {
    let db = sample();
    assert_eq!(db.atomic_number("H").unwrap(), 1);
    assert_eq!(db.atomic_number("Fe").unwrap(), 26);
    assert_eq!(db.atomic_number("Au").unwrap(), 79);
    assert_eq!(db.atomic_number("U").unwrap(), 92);
}

#[test]
fn test_atomic_number_by_name() {
    let db = sample();
    assert_eq!(db.atomic_number("iron").unwrap(), 26);
    assert_eq!(db.atomic_number("gold").unwrap(), 79);
    assert_eq!(db.atomic_number("hydrogen").unwrap(), 1);
}

#[test]
fn test_atomic_number_by_z_string() {
    let db = sample();
    assert_eq!(db.atomic_number("26").unwrap(), 26);
    assert_eq!(db.atomic_number("1").unwrap(), 1);
}

#[test]
fn test_atomic_number_by_invalid_z_string() {
    let db = sample();
    assert!(matches!(
        db.atomic_number("0"),
        Err(XrayDbError::UnknownElement(_))
    ));
    assert!(matches!(
        db.atomic_number("999"),
        Err(XrayDbError::UnknownElement(_))
    ));
}

#[test]
fn test_unknown_element() {
    let db = sample();
    assert!(db.atomic_number("Xx").is_err());
}

#[test]
fn test_symbol() {
    let db = sample();
    assert_eq!(db.symbol("26").unwrap(), "Fe");
    assert_eq!(db.symbol("iron").unwrap(), "Fe");
    assert_eq!(db.symbol("Fe").unwrap(), "Fe");
}

#[test]
fn test_molar_mass() {
    let db = sample();
    assert!((f64::from_bits(db.molar_mass("Fe").unwrap()) - 55.845).abs() < 0.01);
    assert!((f64::from_bits(db.molar_mass("H").unwrap()) - 1.0078).abs() < 0.001);
    assert!((f64::from_bits(db.molar_mass("Au").unwrap()) - 196.967).abs() < 0.01);
}

#[test]
fn test_density() {
    let db = sample();
    assert!((f64::from_bits(db.density("Fe").unwrap()) - 7.86).abs() < 0.01);
    assert!((f64::from_bits(db.density("Au").unwrap()) - 19.3).abs() < 0.1);
}

#[test]
fn test_unknown_molar_mass_and_density() {
    let db = sample();
    assert!(matches!(
        db.molar_mass("Xx"),
        Err(XrayDbError::UnknownElement(_))
    ));
    assert!(matches!(
        db.density("Xx"),
        Err(XrayDbError::UnknownElement(_))
    ));
}

#[test]
fn test_xray_levels_sample() {
    let db = sample();
    let fe_k = db
        .raw()
        .xray_levels
        .iter()
        .find(|l| l.element == "Fe" && l.iupac_symbol == "K")
        .unwrap();
    assert!((f64::from_bits(fe_k.absorption_edge) - 7112.0).abs() < 1.0);
    assert!(f64::from_bits(fe_k.fluorescence_yield) > 0.0);
    assert!(f64::from_bits(fe_k.jump_ratio) > 1.0);
}

#[test]
fn test_xray_edges_fe() {
    let db = sample();
    let edges = db.xray_edges("Fe").unwrap();
    assert!(has(&edges, "K"));
    assert!(has(&edges, "L1"));
    assert!(has(&edges, "L2"));
    assert!(has(&edges, "L3"));
    assert!((f64::from_bits(edges[0].1.energy) - 7112.0).abs() < 1.0);
}

#[test]
fn test_xray_edge_fe_k() {
    let db = sample();
    let edge = db.xray_edge("Fe", "K").unwrap();
    assert!((f64::from_bits(edge.energy) - 7112.0).abs() < 1.0);
    assert!(f64::from_bits(edge.fluorescence_yield) > 0.0);
    assert!(f64::from_bits(edge.jump_ratio) > 1.0);
}

#[test]
fn test_xray_lines_fe() {
    let db = sample();
    let lines = db.xray_lines("Fe", None, None).unwrap();
    assert!(has_line(&lines, "Ka1"));
    assert!(has_line(&lines, "Ka2"));
    assert!(has_line(&lines, "Kb1"));
    assert!((f64::from_bits(line_of(&lines, "Ka1").energy) - 6404.0).abs() < 2.0);
}

#[test]
fn test_xray_lines_initial_level() {
    let db = sample();
    let k_lines = db.xray_lines("Fe", Some("K"), None).unwrap();
    assert!(!k_lines.is_empty());
    for (_, line) in &k_lines {
        assert_eq!(line.initial_level, "K");
    }
}

#[test]
fn test_xray_lines_excitation_energy() {
    let db = sample();
    let lines = db
        .xray_lines("Fe", None, Some(2000.0f64.to_bits()))
        .unwrap();
    for (name, _) in &lines {
        assert!(
            !name.starts_with('K'),
            "K lines should not be excitable below 2keV: {name}"
        );
    }
}

#[test]
fn test_ionization_potential_argon() {
    let db = sample();
    let pot = f64::from_bits(db.ionization_potential("argon").unwrap());
    assert!((pot - 26.4).abs() < 0.1);
}

#[test]
fn test_ck_probability() {
    let db = sample();
    let prob = db.ck_probability("Cu", "L1", "L2", false);
    if let Ok(p) = prob {
        let p = f64::from_bits(p);
        assert!((0.0..=1.0).contains(&p));
    }
}

#[test]
fn test_core_width_fe_k() {
    let db = sample();
    let widths = db.core_width("Fe", Some("K")).unwrap();
    assert_eq!(widths[0].0, "K");
    let w = f64::from_bits(widths[0].1);
    assert!(w > 0.0);
    assert!(w < 10.0);
}

#[test]
fn test_core_width_all() {
    let db = sample();
    let widths = db.core_width("Fe", None).unwrap();
    assert!(widths.len() > 1);
    assert!(widths.iter().any(|w| w.0 == "K"));
}

#[test]
fn test_f0_ions_for_element() {
    let db = sample();
    let fe_ions = db.f0_ions(Some("Fe")).unwrap();
    assert!(fe_ions.iter().any(|i| i == "Fe"));
    assert!(!fe_ions.is_empty());
}

#[test]
fn new_rejects_jump_ratio_below_one() {
    let mut db = sample_db();
    db.xray_levels[0].jump_ratio = b(0.5);
    assert!(XrayDb::new(db).is_err());
}

#[test]
fn new_rejects_duplicate_level_rows() {
    let mut db = sample_db();
    db.xray_levels.push(level("Fe", "K", 7000.0, 0.1, 2.0));
    assert!(XrayDb::new(db).is_err());
}

#[test]
fn new_rejects_duplicate_ion_labels() {
    let mut db = sample_db();
    let dup = WaasmaierRecord {
        atomic_number: 26,
        element: "Fe".to_string(),
        ion: "Fe".to_string(),
        offset: b(1.0),
        scale: bits(&[1.0, 1.0, 1.0, 1.0, 1.0]),
        exponents: bits(&[1.0, 1.0, 1.0, 1.0, 1.0]),
    };
    db.waasmaier.push(dup);
    assert!(XrayDb::new(db).is_err());
}
