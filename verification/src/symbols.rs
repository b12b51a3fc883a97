use vstd::prelude::*;

verus! {

/// Canonical form of a parsed symbol token: `D` is deuterium and stands
/// for `H`; every other accepted token is its own canonical symbol.
/// `None` means the token is not a known element symbol.
pub open spec fn sp_symbol_lookup(sym: Seq<char>) -> Option<Seq<char>> {
    if sym == "D"@ {
        Some("H"@)
    }
    else if sym == "Ac"@ {
        Some("Ac"@)
    }
    else if sym == "Ag"@ {
        Some("Ag"@)
    }
    else if sym == "Al"@ {
        Some("Al"@)
    }
    else if sym == "Am"@ {
        Some("Am"@)
    }
    else if sym == "Ar"@ {
        Some("Ar"@)
    }
    else if sym == "As"@ {
        Some("As"@)
    }
    else if sym == "At"@ {
        Some("At"@)
    }
    else if sym == "Au"@ {
        Some("Au"@)
    }
    else if sym == "B"@ {
        Some("B"@)
    }
    else if sym == "Ba"@ {
        Some("Ba"@)
    }
    else if sym == "Be"@ {
        Some("Be"@)
    }
    else if sym == "Bi"@ {
        Some("Bi"@)
    }
    else if sym == "Bk"@ {
        Some("Bk"@)
    }
    else if sym == "Br"@ {
        Some("Br"@)
    }
    else if sym == "C"@ {
        Some("C"@)
    }
    else if sym == "Ca"@ {
        Some("Ca"@)
    }
    else if sym == "Cd"@ {
        Some("Cd"@)
    }
    else if sym == "Ce"@ {
        Some("Ce"@)
    }
    else if sym == "Cf"@ {
        Some("Cf"@)
    }
    else if sym == "Cl"@ {
        Some("Cl"@)
    }
    else if sym == "Cm"@ {
        Some("Cm"@)
    }
    else if sym == "Co"@ {
        Some("Co"@)
    }
    else if sym == "Cr"@ {
        Some("Cr"@)
    }
    else if sym == "Cs"@ {
        Some("Cs"@)
    }
    else if sym == "Cu"@ {
        Some("Cu"@)
    }
    else if sym == "Dy"@ {
        Some("Dy"@)
    }
    else if sym == "Er"@ {
        Some("Er"@)
    }
    else if sym == "Es"@ {
        Some("Es"@)
    }
    else if sym == "Eu"@ {
        Some("Eu"@)
    }
    else if sym == "F"@ {
        Some("F"@)
    }
    else if sym == "Fe"@ {
        Some("Fe"@)
    }
    else if sym == "Fm"@ {
        Some("Fm"@)
    }
    else if sym == "Fr"@ {
        Some("Fr"@)
    }
    else if sym == "Ga"@ {
        Some("Ga"@)
    }
    else if sym == "Gd"@ {
        Some("Gd"@)
    }
    else if sym == "Ge"@ {
        Some("Ge"@)
    }
    else if sym == "H"@ {
        Some("H"@)
    }
    else if sym == "He"@ {
        Some("He"@)
    }
    else if sym == "Hf"@ {
        Some("Hf"@)
    }
    else if sym == "Hg"@ {
        Some("Hg"@)
    }
    else if sym == "Ho"@ {
        Some("Ho"@)
    }
    else if sym == "I"@ {
        Some("I"@)
    }
    else if sym == "In"@ {
        Some("In"@)
    }
    else if sym == "Ir"@ {
        Some("Ir"@)
    }
    else if sym == "K"@ {
        Some("K"@)
    }
    else if sym == "Kr"@ {
        Some("Kr"@)
    }
    else if sym == "La"@ {
        Some("La"@)
    }
    else if sym == "Li"@ {
        Some("Li"@)
    }
    else if sym == "Lr"@ {
        Some("Lr"@)
    }
    else if sym == "Lu"@ {
        Some("Lu"@)
    }
    else if sym == "Md"@ {
        Some("Md"@)
    }
    else if sym == "Mg"@ {
        Some("Mg"@)
    }
    else if sym == "Mn"@ {
        Some("Mn"@)
    }
    else if sym == "Mo"@ {
        Some("Mo"@)
    }
    else if sym == "N"@ {
        Some("N"@)
    }
    else if sym == "Na"@ {
        Some("Na"@)
    }
    else if sym == "Nb"@ {
        Some("Nb"@)
    }
    else if sym == "Nd"@ {
        Some("Nd"@)
    }
    else if sym == "Ne"@ {
        Some("Ne"@)
    }
    else if sym == "Ni"@ {
        Some("Ni"@)
    }
    else if sym == "No"@ {
        Some("No"@)
    }
    else if sym == "Np"@ {
        Some("Np"@)
    }
    else if sym == "O"@ {
        Some("O"@)
    }
    else if sym == "Os"@ {
        Some("Os"@)
    }
    else if sym == "P"@ {
        Some("P"@)
    }
    else if sym == "Pa"@ {
        Some("Pa"@)
    }
    else if sym == "Pb"@ {
        Some("Pb"@)
    }
    else if sym == "Pd"@ {
        Some("Pd"@)
    }
    else if sym == "Pm"@ {
        Some("Pm"@)
    }
    else if sym == "Po"@ {
        Some("Po"@)
    }
    else if sym == "Pr"@ {
        Some("Pr"@)
    }
    else if sym == "Pt"@ {
        Some("Pt"@)
    }
    else if sym == "Pu"@ {
        Some("Pu"@)
    }
    else if sym == "Ra"@ {
        Some("Ra"@)
    }
    else if sym == "Rb"@ {
        Some("Rb"@)
    }
    else if sym == "Re"@ {
        Some("Re"@)
    }
    else if sym == "Rh"@ {
        Some("Rh"@)
    }
    else if sym == "Rn"@ {
        Some("Rn"@)
    }
    else if sym == "Ru"@ {
        Some("Ru"@)
    }
    else if sym == "S"@ {
        Some("S"@)
    }
    else if sym == "Sb"@ {
        Some("Sb"@)
    }
    else if sym == "Sc"@ {
        Some("Sc"@)
    }
    else if sym == "Se"@ {
        Some("Se"@)
    }
    else if sym == "Si"@ {
        Some("Si"@)
    }
    else if sym == "Sm"@ {
        Some("Sm"@)
    }
    else if sym == "Sn"@ {
        Some("Sn"@)
    }
    else if sym == "Sr"@ {
        Some("Sr"@)
    }
    else if sym == "Ta"@ {
        Some("Ta"@)
    }
    else if sym == "Tb"@ {
        Some("Tb"@)
    }
    else if sym == "Tc"@ {
        Some("Tc"@)
    }
    else if sym == "Te"@ {
        Some("Te"@)
    }
    else if sym == "Th"@ {
        Some("Th"@)
    }
    else if sym == "Ti"@ {
        Some("Ti"@)
    }
    else if sym == "Tl"@ {
        Some("Tl"@)
    }
    else if sym == "Tm"@ {
        Some("Tm"@)
    }
    else if sym == "U"@ {
        Some("U"@)
    }
    else if sym == "Unh"@ {
        Some("Unh"@)
    }
    else if sym == "Unp"@ {
        Some("Unp"@)
    }
    else if sym == "Unq"@ {
        Some("Unq"@)
    }
    else if sym == "Uns"@ {
        Some("Uns"@)
    }
    else if sym == "V"@ {
        Some("V"@)
    }
    else if sym == "W"@ {
        Some("W"@)
    }
    else if sym == "Xe"@ {
        Some("Xe"@)
    }
    else if sym == "Y"@ {
        Some("Y"@)
    }
    else if sym == "Yb"@ {
        Some("Yb"@)
    }
    else if sym == "Zn"@ {
        Some("Zn"@)
    }
    else if sym == "Zr"@ {
        Some("Zr"@)
    }
    else {
        None
    }
}

/// Whether `t[start..end)` equals the characters of `s`.
fn str_eq_chars(t: &Vec<char>, start: usize, end: usize, s: &str) -> (b: bool)
    requires
        start <= end <= t@.len(),
    ensures
        b == (t@.subrange(start as int, end as int) == s@),
{
    let n = s.unicode_len();
    if n != end - start {
        assert(t@.subrange(start as int, end as int).len() != s@.len());
        return false;
    }
    let mut i: usize = 0;
    while i < n
        invariant
            start <= end <= t@.len(),
            n == end - start,
            n == s@.len(),
            0 <= i <= n,
            forall|j: int| 0 <= j < i ==> t@[start + j] == s@[j],
        decreases n - i,
    {
        if s.get_char(i) != t[start + i] {
            assert(t@.subrange(start as int, end as int)[i as int] != s@[i as int]);
            return false;
        }
        i = i + 1;
    }
    proof {
        assert(t@.subrange(start as int, end as int) =~= s@);
    }
    true
}

/// Resolve the symbol token `t[start..end)` to its canonical element
/// symbol, treating `D` as an alias for `H`.
pub(crate) fn symbol_lookup(t: &Vec<char>, start: usize, end: usize) -> (r: Option<&'static str>)
    requires
        start <= end <= t@.len(),
    ensures
        match r {
            Some(c) => sp_symbol_lookup(t@.subrange(start as int, end as int)) == Some(c@),
            None => sp_symbol_lookup(t@.subrange(start as int, end as int)) is None,
        },
{
    if str_eq_chars(t, start, end, "D") {
        return Some("H");
    }
    if str_eq_chars(t, start, end, "Ac") {
        return Some("Ac");
    }
    if str_eq_chars(t, start, end, "Ag") {
        return Some("Ag");
    }
    if str_eq_chars(t, start, end, "Al") {
        return Some("Al");
    }
    if str_eq_chars(t, start, end, "Am") {
        return Some("Am");
    }
    if str_eq_chars(t, start, end, "Ar") {
        return Some("Ar");
    }
    if str_eq_chars(t, start, end, "As") {
        return Some("As");
    }
    if str_eq_chars(t, start, end, "At") {
        return Some("At");
    }
    if str_eq_chars(t, start, end, "Au") {
        return Some("Au");
    }
    if str_eq_chars(t, start, end, "B") {
        return Some("B");
    }
    if str_eq_chars(t, start, end, "Ba") {
        return Some("Ba");
    }
    if str_eq_chars(t, start, end, "Be") {
        return Some("Be");
    }
    if str_eq_chars(t, start, end, "Bi") {
        return Some("Bi");
    }
    if str_eq_chars(t, start, end, "Bk") {
        return Some("Bk");
    }
    if str_eq_chars(t, start, end, "Br") {
        return Some("Br");
    }
    if str_eq_chars(t, start, end, "C") {
        return Some("C");
    }
    if str_eq_chars(t, start, end, "Ca") {
        return Some("Ca");
    }
    if str_eq_chars(t, start, end, "Cd") {
        return Some("Cd");
    }
    if str_eq_chars(t, start, end, "Ce") {
        return Some("Ce");
    }
    if str_eq_chars(t, start, end, "Cf") {
        return Some("Cf");
    }
    if str_eq_chars(t, start, end, "Cl") {
        return Some("Cl");
    }
    if str_eq_chars(t, start, end, "Cm") {
        return Some("Cm");
    }
    if str_eq_chars(t, start, end, "Co") {
        return Some("Co");
    }
    if str_eq_chars(t, start, end, "Cr") {
        return Some("Cr");
    }
    if str_eq_chars(t, start, end, "Cs") {
        return Some("Cs");
    }
    if str_eq_chars(t, start, end, "Cu") {
        return Some("Cu");
    }
    if str_eq_chars(t, start, end, "Dy") {
        return Some("Dy");
    }
    if str_eq_chars(t, start, end, "Er") {
        return Some("Er");
    }
    if str_eq_chars(t, start, end, "Es") {
        return Some("Es");
    }
    if str_eq_chars(t, start, end, "Eu") {
        return Some("Eu");
    }
    if str_eq_chars(t, start, end, "F") {
        return Some("F");
    }
    if str_eq_chars(t, start, end, "Fe") {
        return Some("Fe");
    }
    if str_eq_chars(t, start, end, "Fm") {
        return Some("Fm");
    }
    if str_eq_chars(t, start, end, "Fr") {
        return Some("Fr");
    }
    if str_eq_chars(t, start, end, "Ga") {
        return Some("Ga");
    }
    if str_eq_chars(t, start, end, "Gd") {
        return Some("Gd");
    }
    if str_eq_chars(t, start, end, "Ge") {
        return Some("Ge");
    }
    if str_eq_chars(t, start, end, "H") {
        return Some("H");
    }
    if str_eq_chars(t, start, end, "He") {
        return Some("He");
    }
    if str_eq_chars(t, start, end, "Hf") {
        return Some("Hf");
    }
    if str_eq_chars(t, start, end, "Hg") {
        return Some("Hg");
    }
    if str_eq_chars(t, start, end, "Ho") {
        return Some("Ho");
    }
    if str_eq_chars(t, start, end, "I") {
        return Some("I");
    }
    if str_eq_chars(t, start, end, "In") {
        return Some("In");
    }
    if str_eq_chars(t, start, end, "Ir") {
        return Some("Ir");
    }
    if str_eq_chars(t, start, end, "K") {
        return Some("K");
    }
    if str_eq_chars(t, start, end, "Kr") {
        return Some("Kr");
    }
    if str_eq_chars(t, start, end, "La") {
        return Some("La");
    }
    if str_eq_chars(t, start, end, "Li") {
        return Some("Li");
    }
    if str_eq_chars(t, start, end, "Lr") {
        return Some("Lr");
    }
    if str_eq_chars(t, start, end, "Lu") {
        return Some("Lu");
    }
    if str_eq_chars(t, start, end, "Md") {
        return Some("Md");
    }
    if str_eq_chars(t, start, end, "Mg") {
        return Some("Mg");
    }
    if str_eq_chars(t, start, end, "Mn") {
        return Some("Mn");
    }
    if str_eq_chars(t, start, end, "Mo") {
        return Some("Mo");
    }
    if str_eq_chars(t, start, end, "N") {
        return Some("N");
    }
    if str_eq_chars(t, start, end, "Na") {
        return Some("Na");
    }
    if str_eq_chars(t, start, end, "Nb") {
        return Some("Nb");
    }
    if str_eq_chars(t, start, end, "Nd") {
        return Some("Nd");
    }
    if str_eq_chars(t, start, end, "Ne") {
        return Some("Ne");
    }
    if str_eq_chars(t, start, end, "Ni") {
        return Some("Ni");
    }
    if str_eq_chars(t, start, end, "No") {
        return Some("No");
    }
    if str_eq_chars(t, start, end, "Np") {
        return Some("Np");
    }
    if str_eq_chars(t, start, end, "O") {
        return Some("O");
    }
    if str_eq_chars(t, start, end, "Os") {
        return Some("Os");
    }
    if str_eq_chars(t, start, end, "P") {
        return Some("P");
    }
    if str_eq_chars(t, start, end, "Pa") {
        return Some("Pa");
    }
    if str_eq_chars(t, start, end, "Pb") {
        return Some("Pb");
    }
    if str_eq_chars(t, start, end, "Pd") {
        return Some("Pd");
    }
    if str_eq_chars(t, start, end, "Pm") {
        return Some("Pm");
    }
    if str_eq_chars(t, start, end, "Po") {
        return Some("Po");
    }
    if str_eq_chars(t, start, end, "Pr") {
        return Some("Pr");
    }
    if str_eq_chars(t, start, end, "Pt") {
        return Some("Pt");
    }
    if str_eq_chars(t, start, end, "Pu") {
        return Some("Pu");
    }
    if str_eq_chars(t, start, end, "Ra") {
        return Some("Ra");
    }
    if str_eq_chars(t, start, end, "Rb") {
        return Some("Rb");
    }
    if str_eq_chars(t, start, end, "Re") {
        return Some("Re");
    }
    if str_eq_chars(t, start, end, "Rh") {
        return Some("Rh");
    }
    if str_eq_chars(t, start, end, "Rn") {
        return Some("Rn");
    }
    if str_eq_chars(t, start, end, "Ru") {
        return Some("Ru");
    }
    if str_eq_chars(t, start, end, "S") {
        return Some("S");
    }
    if str_eq_chars(t, start, end, "Sb") {
        return Some("Sb");
    }
    if str_eq_chars(t, start, end, "Sc") {
        return Some("Sc");
    }
    if str_eq_chars(t, start, end, "Se") {
        return Some("Se");
    }
    if str_eq_chars(t, start, end, "Si") {
        return Some("Si");
    }
    if str_eq_chars(t, start, end, "Sm") {
        return Some("Sm");
    }
    if str_eq_chars(t, start, end, "Sn") {
        return Some("Sn");
    }
    if str_eq_chars(t, start, end, "Sr") {
        return Some("Sr");
    }
    if str_eq_chars(t, start, end, "Ta") {
        return Some("Ta");
    }
    if str_eq_chars(t, start, end, "Tb") {
        return Some("Tb");
    }
    if str_eq_chars(t, start, end, "Tc") {
        return Some("Tc");
    }
    if str_eq_chars(t, start, end, "Te") {
        return Some("Te");
    }
    if str_eq_chars(t, start, end, "Th") {
        return Some("Th");
    }
    if str_eq_chars(t, start, end, "Ti") {
        return Some("Ti");
    }
    if str_eq_chars(t, start, end, "Tl") {
        return Some("Tl");
    }
    if str_eq_chars(t, start, end, "Tm") {
        return Some("Tm");
    }
    if str_eq_chars(t, start, end, "U") {
        return Some("U");
    }
    if str_eq_chars(t, start, end, "Unh") {
        return Some("Unh");
    }
    if str_eq_chars(t, start, end, "Unp") {
        return Some("Unp");
    }
    if str_eq_chars(t, start, end, "Unq") {
        return Some("Unq");
    }
    if str_eq_chars(t, start, end, "Uns") {
        return Some("Uns");
    }
    if str_eq_chars(t, start, end, "V") {
        return Some("V");
    }
    if str_eq_chars(t, start, end, "W") {
        return Some("W");
    }
    if str_eq_chars(t, start, end, "Xe") {
        return Some("Xe");
    }
    if str_eq_chars(t, start, end, "Y") {
        return Some("Y");
    }
    if str_eq_chars(t, start, end, "Yb") {
        return Some("Yb");
    }
    if str_eq_chars(t, start, end, "Zn") {
        return Some("Zn");
    }
    if str_eq_chars(t, start, end, "Zr") {
        return Some("Zr");
    }
    None
}

} // verus!
