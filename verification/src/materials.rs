//! The built-in materials registry: common laboratory materials with
//! their densities (held as exact decimals, g/cm^3) and chemical
//! formulas, looked up by lowercase name first and then by
//! case-insensitive formula.
use vstd::prelude::*;
use vstd::string::*;

use crate::formula::Decimal;
use crate::records::eq_nocase;
use crate::records::sp_eq_nocase;

verus! {

/// The registry rows: (name, density, formula).
pub open spec fn sp_materials() -> Seq<(Seq<char>, Decimal, Seq<char>)> {
    seq![
        ("hydrogen"@, Decimal { mantissa: 899u64, exp10: -7i32 }, "H"@),
        ("helium"@, Decimal { mantissa: 1786u64, exp10: -7i32 }, "He"@),
        ("nitrogen"@, Decimal { mantissa: 125u64, exp10: -5i32 }, "N"@),
        ("oxygen"@, Decimal { mantissa: 1429u64, exp10: -6i32 }, "O"@),
        ("neon"@, Decimal { mantissa: 9002u64, exp10: -7i32 }, "Ne"@),
        ("argon"@, Decimal { mantissa: 1784u64, exp10: -6i32 }, "Ar"@),
        ("krypton"@, Decimal { mantissa: 3749u64, exp10: -6i32 }, "Kr"@),
        ("xenon"@, Decimal { mantissa: 5894u64, exp10: -6i32 }, "Xe"@),
        ("air"@, Decimal { mantissa: 1225u64, exp10: -6i32 }, "(N2)0.7808(O2)0.2095Ar9.34e-3(CO2)4.1e-4Ne1.82e-5He5.24e-6(CH4)1.8e-6Kr1.0e-6(H2)0.5e-6Xe9.e-8"@),
        ("methane"@, Decimal { mantissa: 657u64, exp10: -6i32 }, "CH4"@),
        ("carbon dioxide"@, Decimal { mantissa: 1562u64, exp10: -6i32 }, "CO2"@),
        ("water"@, Decimal { mantissa: 10u64, exp10: -1i32 }, "H2O"@),
        ("ethanol"@, Decimal { mantissa: 789u64, exp10: -3i32 }, "C2H5OH"@),
        ("acetone"@, Decimal { mantissa: 785u64, exp10: -3i32 }, "C3H6O"@),
        ("methanol"@, Decimal { mantissa: 791u64, exp10: -3i32 }, "CH3OH"@),
        ("isopropanol"@, Decimal { mantissa: 803u64, exp10: -3i32 }, "C3H8O"@),
        ("toluene"@, Decimal { mantissa: 867u64, exp10: -3i32 }, "C7H8"@),
        ("xylene"@, Decimal { mantissa: 844u64, exp10: -3i32 }, "C6H4(CH3)2"@),
        ("benzene"@, Decimal { mantissa: 877u64, exp10: -3i32 }, "C6H6"@),
        ("butanol"@, Decimal { mantissa: 810u64, exp10: -3i32 }, "C4H10O"@),
        ("chlorobenzene"@, Decimal { mantissa: 1106u64, exp10: -3i32 }, "C6H5Cl"@),
        ("cyclohexane"@, Decimal { mantissa: 774u64, exp10: -3i32 }, "C6H12"@),
        ("dimethyl sulfoxide"@, Decimal { mantissa: 109u64, exp10: -2i32 }, "C2H6OS"@),
        ("ethylene glycol"@, Decimal { mantissa: 1115u64, exp10: -3i32 }, "C2H6O2"@),
        ("glycerin"@, Decimal { mantissa: 1261u64, exp10: -3i32 }, "C3H8O3"@),
        ("heptane"@, Decimal { mantissa: 684u64, exp10: -3i32 }, "C7H16"@),
        ("hexane"@, Decimal { mantissa: 659u64, exp10: -3i32 }, "C6H14"@),
        ("kapton"@, Decimal { mantissa: 142u64, exp10: -2i32 }, "C22H10N2O5"@),
        ("polyimide"@, Decimal { mantissa: 142u64, exp10: -2i32 }, "C22H10N2O5"@),
        ("polypropylene"@, Decimal { mantissa: 86u64, exp10: -2i32 }, "C3H6"@),
        ("pmma"@, Decimal { mantissa: 118u64, exp10: -2i32 }, "C5H8O2"@),
        ("polycarbonate"@, Decimal { mantissa: 12u64, exp10: -1i32 }, "C16H14O3"@),
        ("kimol"@, Decimal { mantissa: 12u64, exp10: -1i32 }, "C16H14O3"@),
        ("mylar"@, Decimal { mantissa: 14u64, exp10: -1i32 }, "C10H8O4"@),
        ("teflon"@, Decimal { mantissa: 22u64, exp10: -1i32 }, "C2F4"@),
        ("parylene-c"@, Decimal { mantissa: 129u64, exp10: -2i32 }, "C8H7Cl"@),
        ("parylene-n"@, Decimal { mantissa: 111u64, exp10: -2i32 }, "C8H8"@),
        ("peek"@, Decimal { mantissa: 132u64, exp10: -2i32 }, "C19H14O3"@),
        ("boron nitride"@, Decimal { mantissa: 21u64, exp10: -1i32 }, "BN"@),
        ("cubic boron nitride"@, Decimal { mantissa: 345u64, exp10: -2i32 }, "BN"@),
        ("silicon nitride"@, Decimal { mantissa: 317u64, exp10: -2i32 }, "Si3N4"@),
        ("yag"@, Decimal { mantissa: 456u64, exp10: -2i32 }, "Y3Al5O12"@),
        ("sapphire"@, Decimal { mantissa: 40u64, exp10: -1i32 }, "Al2O3"@),
        ("ule glass"@, Decimal { mantissa: 2205u64, exp10: -3i32 }, "Si0.925Ti0.075O2"@),
        ("zerodur"@, Decimal { mantissa: 253u64, exp10: -2i32 }, "Si0.56Al0.5P0.16Li0.04Ti0.02Zr0.02Zn0.03O2.46"@),
        ("fluorite"@, Decimal { mantissa: 318u64, exp10: -2i32 }, "CaF2"@),
        ("mica"@, Decimal { mantissa: 283u64, exp10: -2i32 }, "KAl3Si3O12H2"@),
        ("fayalite"@, Decimal { mantissa: 4392u64, exp10: -3i32 }, "Fe2SiO4"@),
        ("forsterite"@, Decimal { mantissa: 327u64, exp10: -2i32 }, "Mg2SiO4"@),
        ("wustite"@, Decimal { mantissa: 57u64, exp10: -1i32 }, "FeO"@),
        ("salt"@, Decimal { mantissa: 2165u64, exp10: -3i32 }, "NaCl"@),
        ("silica"@, Decimal { mantissa: 22u64, exp10: -1i32 }, "SiO2"@),
        ("quartz"@, Decimal { mantissa: 265u64, exp10: -2i32 }, "SiO2"@),
        ("cristobalite"@, Decimal { mantissa: 227u64, exp10: -2i32 }, "SiO2"@),
        ("rutile"@, Decimal { mantissa: 423u64, exp10: -2i32 }, "TiO2"@),
        ("magnesium dioxide"@, Decimal { mantissa: 36u64, exp10: -1i32 }, "MgO"@),
        ("galena"@, Decimal { mantissa: 760u64, exp10: -2i32 }, "PbS"@),
        ("cadmium telluride"@, Decimal { mantissa: 585u64, exp10: -2i32 }, "CdTe"@),
        ("gallium arsenide"@, Decimal { mantissa: 5318u64, exp10: -3i32 }, "GaAs"@),
        ("beryllium copper"@, Decimal { mantissa: 84u64, exp10: -1i32 }, "Cu0.98Be0.02"@),
        ("diamond carbon"@, Decimal { mantissa: 352u64, exp10: -2i32 }, "C"@),
        ("graphite carbon"@, Decimal { mantissa: 223u64, exp10: -2i32 }, "C"@),
        ("beryllium"@, Decimal { mantissa: 185u64, exp10: -2i32 }, "Be"@),
        ("aluminum"@, Decimal { mantissa: 270u64, exp10: -2i32 }, "Al"@),
        ("silicon"@, Decimal { mantissa: 2329u64, exp10: -3i32 }, "Si"@),
        ("titanium"@, Decimal { mantissa: 4506u64, exp10: -3i32 }, "Ti"@),
        ("chromium"@, Decimal { mantissa: 715u64, exp10: -2i32 }, "Cr"@),
        ("iron"@, Decimal { mantissa: 788u64, exp10: -2i32 }, "Fe"@),
        ("cobalt"@, Decimal { mantissa: 890u64, exp10: -2i32 }, "Co"@),
        ("nickel"@, Decimal { mantissa: 8908u64, exp10: -3i32 }, "Ni"@),
        ("copper"@, Decimal { mantissa: 896u64, exp10: -2i32 }, "Cu"@),
        ("zinc"@, Decimal { mantissa: 714u64, exp10: -2i32 }, "Zn"@),
        ("gallium"@, Decimal { mantissa: 591u64, exp10: -2i32 }, "Ga"@),
        ("germanium"@, Decimal { mantissa: 5323u64, exp10: -3i32 }, "Ge"@),
        ("molybdenum"@, Decimal { mantissa: 1028u64, exp10: -2i32 }, "Mo"@),
        ("ruthenium"@, Decimal { mantissa: 1245u64, exp10: -2i32 }, "Ru"@),
        ("rhodium"@, Decimal { mantissa: 1241u64, exp10: -2i32 }, "Rh"@),
        ("palladium"@, Decimal { mantissa: 1202u64, exp10: -2i32 }, "Pd"@),
        ("silver"@, Decimal { mantissa: 1049u64, exp10: -2i32 }, "Ag"@),
        ("indium"@, Decimal { mantissa: 731u64, exp10: -2i32 }, "In"@),
        ("tin"@, Decimal { mantissa: 7265u64, exp10: -3i32 }, "Sn"@),
        ("tantalum"@, Decimal { mantissa: 1669u64, exp10: -2i32 }, "Ta"@),
        ("tungsten"@, Decimal { mantissa: 1925u64, exp10: -2i32 }, "W"@),
        ("rhenium"@, Decimal { mantissa: 2102u64, exp10: -2i32 }, "Re"@),
        ("osmium"@, Decimal { mantissa: 2259u64, exp10: -2i32 }, "Os"@),
        ("iridium"@, Decimal { mantissa: 2256u64, exp10: -2i32 }, "Ir"@),
        ("platinum"@, Decimal { mantissa: 2145u64, exp10: -2i32 }, "Pt"@),
        ("gold"@, Decimal { mantissa: 193u64, exp10: -1i32 }, "Au"@),
        ("mercury"@, Decimal { mantissa: 13534u64, exp10: -3i32 }, "Hg"@),
        ("lead"@, Decimal { mantissa: 1134u64, exp10: -2i32 }, "Pb"@),
        ("bismuth"@, Decimal { mantissa: 978u64, exp10: -2i32 }, "Bi"@),
        ("uranium"@, Decimal { mantissa: 191u64, exp10: -1i32 }, "U"@),
        ("zirconium"@, Decimal { mantissa: 65u64, exp10: -1i32 }, "Zr"@),
    ]
}

/// Build the registry rows.
pub fn materials_table() -> (r: Vec<(String, Decimal, String)>)
    ensures
        sp_material_views(r@) == sp_materials(),
{
    let mut out: Vec<(String, Decimal, String)> = Vec::new();
    out.push((String::from_str("hydrogen"), Decimal { mantissa: 899u64, exp10: -7i32 }, String::from_str("H")));
    out.push((String::from_str("helium"), Decimal { mantissa: 1786u64, exp10: -7i32 }, String::from_str("He")));
    out.push((String::from_str("nitrogen"), Decimal { mantissa: 125u64, exp10: -5i32 }, String::from_str("N")));
    out.push((String::from_str("oxygen"), Decimal { mantissa: 1429u64, exp10: -6i32 }, String::from_str("O")));
    out.push((String::from_str("neon"), Decimal { mantissa: 9002u64, exp10: -7i32 }, String::from_str("Ne")));
    out.push((String::from_str("argon"), Decimal { mantissa: 1784u64, exp10: -6i32 }, String::from_str("Ar")));
    out.push((String::from_str("krypton"), Decimal { mantissa: 3749u64, exp10: -6i32 }, String::from_str("Kr")));
    out.push((String::from_str("xenon"), Decimal { mantissa: 5894u64, exp10: -6i32 }, String::from_str("Xe")));
    out.push((String::from_str("air"), Decimal { mantissa: 1225u64, exp10: -6i32 }, String::from_str("(N2)0.7808(O2)0.2095Ar9.34e-3(CO2)4.1e-4Ne1.82e-5He5.24e-6(CH4)1.8e-6Kr1.0e-6(H2)0.5e-6Xe9.e-8")));
    out.push((String::from_str("methane"), Decimal { mantissa: 657u64, exp10: -6i32 }, String::from_str("CH4")));
    out.push((String::from_str("carbon dioxide"), Decimal { mantissa: 1562u64, exp10: -6i32 }, String::from_str("CO2")));
    out.push((String::from_str("water"), Decimal { mantissa: 10u64, exp10: -1i32 }, String::from_str("H2O")));
    out.push((String::from_str("ethanol"), Decimal { mantissa: 789u64, exp10: -3i32 }, String::from_str("C2H5OH")));
    out.push((String::from_str("acetone"), Decimal { mantissa: 785u64, exp10: -3i32 }, String::from_str("C3H6O")));
    out.push((String::from_str("methanol"), Decimal { mantissa: 791u64, exp10: -3i32 }, String::from_str("CH3OH")));
    out.push((String::from_str("isopropanol"), Decimal { mantissa: 803u64, exp10: -3i32 }, String::from_str("C3H8O")));
    out.push((String::from_str("toluene"), Decimal { mantissa: 867u64, exp10: -3i32 }, String::from_str("C7H8")));
    out.push((String::from_str("xylene"), Decimal { mantissa: 844u64, exp10: -3i32 }, String::from_str("C6H4(CH3)2")));
    out.push((String::from_str("benzene"), Decimal { mantissa: 877u64, exp10: -3i32 }, String::from_str("C6H6")));
    out.push((String::from_str("butanol"), Decimal { mantissa: 810u64, exp10: -3i32 }, String::from_str("C4H10O")));
    out.push((String::from_str("chlorobenzene"), Decimal { mantissa: 1106u64, exp10: -3i32 }, String::from_str("C6H5Cl")));
    out.push((String::from_str("cyclohexane"), Decimal { mantissa: 774u64, exp10: -3i32 }, String::from_str("C6H12")));
    out.push((String::from_str("dimethyl sulfoxide"), Decimal { mantissa: 109u64, exp10: -2i32 }, String::from_str("C2H6OS")));
    out.push((String::from_str("ethylene glycol"), Decimal { mantissa: 1115u64, exp10: -3i32 }, String::from_str("C2H6O2")));
    out.push((String::from_str("glycerin"), Decimal { mantissa: 1261u64, exp10: -3i32 }, String::from_str("C3H8O3")));
    out.push((String::from_str("heptane"), Decimal { mantissa: 684u64, exp10: -3i32 }, String::from_str("C7H16")));
    out.push((String::from_str("hexane"), Decimal { mantissa: 659u64, exp10: -3i32 }, String::from_str("C6H14")));
    out.push((String::from_str("kapton"), Decimal { mantissa: 142u64, exp10: -2i32 }, String::from_str("C22H10N2O5")));
    out.push((String::from_str("polyimide"), Decimal { mantissa: 142u64, exp10: -2i32 }, String::from_str("C22H10N2O5")));
    out.push((String::from_str("polypropylene"), Decimal { mantissa: 86u64, exp10: -2i32 }, String::from_str("C3H6")));
    out.push((String::from_str("pmma"), Decimal { mantissa: 118u64, exp10: -2i32 }, String::from_str("C5H8O2")));
    out.push((String::from_str("polycarbonate"), Decimal { mantissa: 12u64, exp10: -1i32 }, String::from_str("C16H14O3")));
    out.push((String::from_str("kimol"), Decimal { mantissa: 12u64, exp10: -1i32 }, String::from_str("C16H14O3")));
    out.push((String::from_str("mylar"), Decimal { mantissa: 14u64, exp10: -1i32 }, String::from_str("C10H8O4")));
    out.push((String::from_str("teflon"), Decimal { mantissa: 22u64, exp10: -1i32 }, String::from_str("C2F4")));
    out.push((String::from_str("parylene-c"), Decimal { mantissa: 129u64, exp10: -2i32 }, String::from_str("C8H7Cl")));
    out.push((String::from_str("parylene-n"), Decimal { mantissa: 111u64, exp10: -2i32 }, String::from_str("C8H8")));
    out.push((String::from_str("peek"), Decimal { mantissa: 132u64, exp10: -2i32 }, String::from_str("C19H14O3")));
    out.push((String::from_str("boron nitride"), Decimal { mantissa: 21u64, exp10: -1i32 }, String::from_str("BN")));
    out.push((String::from_str("cubic boron nitride"), Decimal { mantissa: 345u64, exp10: -2i32 }, String::from_str("BN")));
    out.push((String::from_str("silicon nitride"), Decimal { mantissa: 317u64, exp10: -2i32 }, String::from_str("Si3N4")));
    out.push((String::from_str("yag"), Decimal { mantissa: 456u64, exp10: -2i32 }, String::from_str("Y3Al5O12")));
    out.push((String::from_str("sapphire"), Decimal { mantissa: 40u64, exp10: -1i32 }, String::from_str("Al2O3")));
    out.push((String::from_str("ule glass"), Decimal { mantissa: 2205u64, exp10: -3i32 }, String::from_str("Si0.925Ti0.075O2")));
    out.push((String::from_str("zerodur"), Decimal { mantissa: 253u64, exp10: -2i32 }, String::from_str("Si0.56Al0.5P0.16Li0.04Ti0.02Zr0.02Zn0.03O2.46")));
    out.push((String::from_str("fluorite"), Decimal { mantissa: 318u64, exp10: -2i32 }, String::from_str("CaF2")));
    out.push((String::from_str("mica"), Decimal { mantissa: 283u64, exp10: -2i32 }, String::from_str("KAl3Si3O12H2")));
    out.push((String::from_str("fayalite"), Decimal { mantissa: 4392u64, exp10: -3i32 }, String::from_str("Fe2SiO4")));
    out.push((String::from_str("forsterite"), Decimal { mantissa: 327u64, exp10: -2i32 }, String::from_str("Mg2SiO4")));
    out.push((String::from_str("wustite"), Decimal { mantissa: 57u64, exp10: -1i32 }, String::from_str("FeO")));
    out.push((String::from_str("salt"), Decimal { mantissa: 2165u64, exp10: -3i32 }, String::from_str("NaCl")));
    out.push((String::from_str("silica"), Decimal { mantissa: 22u64, exp10: -1i32 }, String::from_str("SiO2")));
    out.push((String::from_str("quartz"), Decimal { mantissa: 265u64, exp10: -2i32 }, String::from_str("SiO2")));
    out.push((String::from_str("cristobalite"), Decimal { mantissa: 227u64, exp10: -2i32 }, String::from_str("SiO2")));
    out.push((String::from_str("rutile"), Decimal { mantissa: 423u64, exp10: -2i32 }, String::from_str("TiO2")));
    out.push((String::from_str("magnesium dioxide"), Decimal { mantissa: 36u64, exp10: -1i32 }, String::from_str("MgO")));
    out.push((String::from_str("galena"), Decimal { mantissa: 760u64, exp10: -2i32 }, String::from_str("PbS")));
    out.push((String::from_str("cadmium telluride"), Decimal { mantissa: 585u64, exp10: -2i32 }, String::from_str("CdTe")));
    out.push((String::from_str("gallium arsenide"), Decimal { mantissa: 5318u64, exp10: -3i32 }, String::from_str("GaAs")));
    out.push((String::from_str("beryllium copper"), Decimal { mantissa: 84u64, exp10: -1i32 }, String::from_str("Cu0.98Be0.02")));
    out.push((String::from_str("diamond carbon"), Decimal { mantissa: 352u64, exp10: -2i32 }, String::from_str("C")));
    out.push((String::from_str("graphite carbon"), Decimal { mantissa: 223u64, exp10: -2i32 }, String::from_str("C")));
    out.push((String::from_str("beryllium"), Decimal { mantissa: 185u64, exp10: -2i32 }, String::from_str("Be")));
    out.push((String::from_str("aluminum"), Decimal { mantissa: 270u64, exp10: -2i32 }, String::from_str("Al")));
    out.push((String::from_str("silicon"), Decimal { mantissa: 2329u64, exp10: -3i32 }, String::from_str("Si")));
    out.push((String::from_str("titanium"), Decimal { mantissa: 4506u64, exp10: -3i32 }, String::from_str("Ti")));
    out.push((String::from_str("chromium"), Decimal { mantissa: 715u64, exp10: -2i32 }, String::from_str("Cr")));
    out.push((String::from_str("iron"), Decimal { mantissa: 788u64, exp10: -2i32 }, String::from_str("Fe")));
    out.push((String::from_str("cobalt"), Decimal { mantissa: 890u64, exp10: -2i32 }, String::from_str("Co")));
    out.push((String::from_str("nickel"), Decimal { mantissa: 8908u64, exp10: -3i32 }, String::from_str("Ni")));
    out.push((String::from_str("copper"), Decimal { mantissa: 896u64, exp10: -2i32 }, String::from_str("Cu")));
    out.push((String::from_str("zinc"), Decimal { mantissa: 714u64, exp10: -2i32 }, String::from_str("Zn")));
    out.push((String::from_str("gallium"), Decimal { mantissa: 591u64, exp10: -2i32 }, String::from_str("Ga")));
    out.push((String::from_str("germanium"), Decimal { mantissa: 5323u64, exp10: -3i32 }, String::from_str("Ge")));
    out.push((String::from_str("molybdenum"), Decimal { mantissa: 1028u64, exp10: -2i32 }, String::from_str("Mo")));
    out.push((String::from_str("ruthenium"), Decimal { mantissa: 1245u64, exp10: -2i32 }, String::from_str("Ru")));
    out.push((String::from_str("rhodium"), Decimal { mantissa: 1241u64, exp10: -2i32 }, String::from_str("Rh")));
    out.push((String::from_str("palladium"), Decimal { mantissa: 1202u64, exp10: -2i32 }, String::from_str("Pd")));
    out.push((String::from_str("silver"), Decimal { mantissa: 1049u64, exp10: -2i32 }, String::from_str("Ag")));
    out.push((String::from_str("indium"), Decimal { mantissa: 731u64, exp10: -2i32 }, String::from_str("In")));
    out.push((String::from_str("tin"), Decimal { mantissa: 7265u64, exp10: -3i32 }, String::from_str("Sn")));
    out.push((String::from_str("tantalum"), Decimal { mantissa: 1669u64, exp10: -2i32 }, String::from_str("Ta")));
    out.push((String::from_str("tungsten"), Decimal { mantissa: 1925u64, exp10: -2i32 }, String::from_str("W")));
    out.push((String::from_str("rhenium"), Decimal { mantissa: 2102u64, exp10: -2i32 }, String::from_str("Re")));
    out.push((String::from_str("osmium"), Decimal { mantissa: 2259u64, exp10: -2i32 }, String::from_str("Os")));
    out.push((String::from_str("iridium"), Decimal { mantissa: 2256u64, exp10: -2i32 }, String::from_str("Ir")));
    out.push((String::from_str("platinum"), Decimal { mantissa: 2145u64, exp10: -2i32 }, String::from_str("Pt")));
    out.push((String::from_str("gold"), Decimal { mantissa: 193u64, exp10: -1i32 }, String::from_str("Au")));
    out.push((String::from_str("mercury"), Decimal { mantissa: 13534u64, exp10: -3i32 }, String::from_str("Hg")));
    out.push((String::from_str("lead"), Decimal { mantissa: 1134u64, exp10: -2i32 }, String::from_str("Pb")));
    out.push((String::from_str("bismuth"), Decimal { mantissa: 978u64, exp10: -2i32 }, String::from_str("Bi")));
    out.push((String::from_str("uranium"), Decimal { mantissa: 191u64, exp10: -1i32 }, String::from_str("U")));
    out.push((String::from_str("zirconium"), Decimal { mantissa: 65u64, exp10: -1i32 }, String::from_str("Zr")));
    proof {
        assert(sp_material_views(out@) =~~= sp_materials());
    }
    out
}

pub open spec fn sp_material_views(v: Seq<(String, Decimal, String)>) -> Seq<
    (Seq<char>, Decimal, Seq<char>),
> {
    v.map_values(|p: (String, Decimal, String)| (p.0@, p.1, p.2@))
}

/// `i` is the first registry row whose name equals `name`, ASCII case
/// ignored; registry names are stored lowercase, so this is the
/// lookup by lowercased name.
pub open spec fn sp_material_name_match(
    ms: Seq<(Seq<char>, Decimal, Seq<char>)>,
    name: Seq<char>,
    i: int,
) -> bool {
    &&& 0 <= i < ms.len()
    &&& sp_eq_nocase(ms[i].0, name)
    &&& forall|j: int| 0 <= j < i ==> !sp_eq_nocase((#[trigger] ms[j]).0, name)
}

/// `i` is the first registry row whose formula equals `name`, ASCII
/// case ignored.
pub open spec fn sp_material_formula_match(
    ms: Seq<(Seq<char>, Decimal, Seq<char>)>,
    name: Seq<char>,
    i: int,
) -> bool {
    &&& 0 <= i < ms.len()
    &&& sp_eq_nocase(ms[i].2, name)
    &&& forall|j: int| 0 <= j < i ==> !sp_eq_nocase((#[trigger] ms[j]).2, name)
}

/// Find a material by name or by formula, returning its formula and
/// density: the first case-insensitive name match wins, then the
/// first case-insensitive formula match.
pub fn find_material(name: &str) -> (r: Option<(String, Decimal)>)
    ensures
        match r {
            Some(p) => (exists|i: int|
                sp_material_name_match(sp_materials(), name@, i) && p.0@ == sp_materials()[i].2
                    && p.1 == sp_materials()[i].1) || (!(exists|i: int|
                sp_material_name_match(sp_materials(), name@, i)) && exists|i: int|
                sp_material_formula_match(sp_materials(), name@, i) && p.0@ == sp_materials()[i].2
                    && p.1 == sp_materials()[i].1),
            None => !(exists|i: int| sp_material_name_match(sp_materials(), name@, i)) && !(
            exists|i: int| sp_material_formula_match(sp_materials(), name@, i)),
        },
{
    let ms = materials_table();
    let ghost msv = sp_materials();
    let n = ms.len();
    let mut i: usize = 0;
    while i < n
        invariant
            sp_material_views(ms@) == msv,
            msv == sp_materials(),
            0 <= i <= n == msv.len(),
            forall|j: int| 0 <= j < i ==> !sp_eq_nocase((#[trigger] msv[j]).0, name@),
        decreases n - i,
    {
        if eq_nocase(ms[i].0.as_str(), name) {
            proof {
                assert(sp_material_name_match(msv, name@, i as int));
            }
            return Some((ms[i].2.clone(), ms[i].1));
        }
        i = i + 1;
    }
    let mut i: usize = 0;
    while i < n
        invariant
            sp_material_views(ms@) == msv,
            msv == sp_materials(),
            !(exists|x: int| sp_material_name_match(msv, name@, x)),
            0 <= i <= n == msv.len(),
            forall|j: int| 0 <= j < i ==> !sp_eq_nocase((#[trigger] msv[j]).2, name@),
        decreases n - i,
    {
        if eq_nocase(ms[i].2.as_str(), name) {
            proof {
                assert(sp_material_formula_match(msv, name@, i as int));
            }
            return Some((ms[i].2.clone(), ms[i].1));
        }
        i = i + 1;
    }
    None
}

impl crate::registry::XrayDb {
    /// Find a material in the built-in registry by name or formula;
    /// the registry is independent of the loaded tables.
    pub fn find_material(&self, name: &str) -> (r: Option<(String, Decimal)>)
        ensures
            match r {
                Some(p) => (exists|i: int|
                    sp_material_name_match(sp_materials(), name@, i) && p.0@ == sp_materials()[i].2
                        && p.1 == sp_materials()[i].1) || (!(exists|i: int|
                    sp_material_name_match(sp_materials(), name@, i)) && exists|i: int|
                    sp_material_formula_match(sp_materials(), name@, i) && p.0@
                        == sp_materials()[i].2 && p.1 == sp_materials()[i].1),
                None => !(exists|i: int| sp_material_name_match(sp_materials(), name@, i)) && !(
                exists|i: int| sp_material_formula_match(sp_materials(), name@, i)),
            },
    {
        find_material(name)
    }
}

/// The gas-name aliases of the ion-chamber routine: molecular names of
/// the two common fill gases map to the registry names.
pub fn gas_alias<'a>(name: &'a str) -> (r: &'a str)
    ensures
        r@ == (if name@ == "N2"@ {
            "nitrogen"@
        } else if name@ == "O2"@ {
            "oxygen"@
        } else {
            name@
        }),
{
    if crate::records::str_eq(name, "N2") {
        "nitrogen"
    } else if crate::records::str_eq(name, "O2") {
        "oxygen"
    } else {
        name
    }
}

} // verus!
