//! The in-memory database: record collections over plain values.
//!
//! Every tabulated double-precision datum is held as its IEEE-754 bit
//! pattern in a `u64`.  For the non-negative finite values constrained
//! by [`sp_finite_nonneg`], unsigned order on the bit patterns agrees
//! with numeric order on the values, which is what the well-formedness
//! conditions and the lookup contracts build on.
use vstd::prelude::*;

verus! {

/// Bit pattern of `1.0`.
pub const F64_ONE_BITS: u64 = 0x3FF0_0000_0000_0000;

/// Bit pattern of positive infinity; everything below it with the sign
/// bit clear is a non-negative finite double.
pub const F64_POS_INF_BITS: u64 = 0x7FF0_0000_0000_0000;

/// The bit pattern of a non-negative finite double.
pub open spec fn sp_finite_nonneg(b: u64) -> bool {
    b < F64_POS_INF_BITS
}

/// ASCII-only case folding of a character code.
pub open spec fn sp_lower_code(c: char) -> int {
    if 65 <= c as u32 <= 90 {
        c as u32 + 32
    } else {
        c as u32 as int
    }
}

/// ASCII-case-insensitive equality of character sequences.
pub open spec fn sp_eq_nocase(a: Seq<char>, b: Seq<char>) -> bool {
    a.len() == b.len() && (forall|i: int|
        0 <= i < a.len() ==> sp_lower_code(a[i]) == sp_lower_code(b[i]))
}

/// Strictly increasing `u64` keys.
pub open spec fn sp_sorted_strict(v: Seq<u64>) -> bool {
    forall|k: int| 0 <= k && k + 1 < v.len() ==> #[trigger] v[k] < v[k + 1]
}

pub open spec fn sp_all_finite_nonneg(v: Seq<u64>) -> bool {
    forall|k: int| 0 <= k < v.len() ==> sp_finite_nonneg(#[trigger] v[k])
}

pub struct VersionRecord {
    pub tag: String,
    pub date: String,
    pub notes: String,
}

pub struct ElementRecord {
    pub atomic_number: u16,
    pub symbol: String,
    pub name: String,
    pub molar_mass: u64,
    pub density: u64,
}

pub struct XrayLevelRecord {
    pub element: String,
    pub iupac_symbol: String,
    pub absorption_edge: u64,
    pub fluorescence_yield: u64,
    pub jump_ratio: u64,
}

pub struct XrayTransitionRecord {
    pub element: String,
    pub iupac_symbol: String,
    pub siegbahn_symbol: String,
    pub initial_level: String,
    pub final_level: String,
    pub emission_energy: u64,
    pub intensity: u64,
}

pub struct CosterKronigRecord {
    pub element: String,
    pub initial_level: String,
    pub final_level: String,
    pub transition_probability: u64,
    pub total_transition_probability: u64,
}

pub struct PhotoabsorptionRecord {
    pub element: String,
    pub log_energy: Vec<u64>,
    pub log_photoabsorption: Vec<u64>,
    pub log_photoabsorption_spline: Vec<u64>,
}

pub struct ScatteringRecord {
    pub element: String,
    pub log_energy: Vec<u64>,
    pub log_coherent_scatter: Vec<u64>,
    pub log_coherent_scatter_spline: Vec<u64>,
    pub log_incoherent_scatter: Vec<u64>,
    pub log_incoherent_scatter_spline: Vec<u64>,
}

pub struct ChantlerRecord {
    pub element: String,
    pub sigma_mu: u64,
    pub mue_f2: u64,
    pub density: u64,
    pub corr_henke: u64,
    pub corr_cl35: u64,
    pub corr_nucl: u64,
    pub energy: Vec<u64>,
    pub f1: Vec<u64>,
    pub f2: Vec<u64>,
    pub mu_photo: Vec<u64>,
    pub mu_incoh: Vec<u64>,
    pub mu_total: Vec<u64>,
}

pub struct WaasmaierRecord {
    pub atomic_number: u16,
    pub element: String,
    pub ion: String,
    pub offset: u64,
    pub scale: Vec<u64>,
    pub exponents: Vec<u64>,
}

pub struct ComptonEnergiesRecord {
    pub incident: Vec<u64>,
    pub xray_90deg: Vec<u64>,
    pub xray_mean: Vec<u64>,
    pub electron_mean: Vec<u64>,
}

pub struct CoreWidthRecord {
    pub atomic_number: u16,
    pub element: String,
    pub edge: String,
    pub width: u64,
}

pub struct IonizationPotentialRecord {
    pub gas: String,
    pub potential: u64,
}

/// The complete database aggregate.
pub struct XrayDatabase {
    pub version: Vec<VersionRecord>,
    pub elements: Vec<ElementRecord>,
    pub xray_levels: Vec<XrayLevelRecord>,
    pub xray_transitions: Vec<XrayTransitionRecord>,
    pub coster_kronig: Vec<CosterKronigRecord>,
    pub photoabsorption: Vec<PhotoabsorptionRecord>,
    pub scattering: Vec<ScatteringRecord>,
    pub chantler: Vec<ChantlerRecord>,
    pub waasmaier: Vec<WaasmaierRecord>,
    pub compton_energies: ComptonEnergiesRecord,
    pub keski_rahkonen_krause: Vec<CoreWidthRecord>,
    pub krause_oliver: Vec<CoreWidthRecord>,
    pub corelevel_widths: Vec<CoreWidthRecord>,
    pub ionization_potentials: Vec<IonizationPotentialRecord>,
}

/// A canonical element symbol: an uppercase ASCII letter followed by
/// lowercase ASCII letters.
pub open spec fn sp_symbol_shape(s: Seq<char>) -> bool {
    s.len() >= 1 && crate::formula::sp_is_upper(s[0]) && (forall|k: int|
        1 <= k < s.len() ==> crate::formula::sp_is_lower(#[trigger] s[k]))
}

/// An element name: one or more ASCII letters.
pub open spec fn sp_name_shape(s: Seq<char>) -> bool {
    s.len() >= 1 && (forall|k: int|
        0 <= k < s.len() ==> crate::formula::sp_is_upper(#[trigger] s[k])
            || crate::formula::sp_is_lower(s[k]))
}

pub open spec fn sp_element_rec_wf(e: ElementRecord) -> bool {
    &&& 1 <= e.atomic_number <= 118
    &&& sp_symbol_shape(e.symbol@)
    &&& sp_name_shape(e.name@)
    &&& sp_finite_nonneg(e.molar_mass)
    &&& sp_finite_nonneg(e.density)
}

pub open spec fn sp_elements_wf(els: Seq<ElementRecord>) -> bool {
    &&& forall|i: int| 0 <= i < els.len() ==> sp_element_rec_wf(#[trigger] els[i])
    &&& forall|i: int, j: int|
        0 <= i < j < els.len() ==> (#[trigger] els[i]).atomic_number != (
        #[trigger] els[j]).atomic_number && !sp_eq_nocase(els[i].symbol@, els[j].symbol@)
            && !sp_eq_nocase(els[i].name@, els[j].name@)
}

pub open spec fn sp_level_rec_wf(l: XrayLevelRecord) -> bool {
    &&& sp_finite_nonneg(l.absorption_edge)
    &&& l.fluorescence_yield <= F64_ONE_BITS
    &&& sp_finite_nonneg(l.jump_ratio)
    &&& l.jump_ratio >= F64_ONE_BITS
}

/// Each level row is well formed and each (element, edge) pair occurs
/// on one row only.
pub open spec fn sp_levels_wf(ls: Seq<XrayLevelRecord>) -> bool {
    &&& forall|i: int| 0 <= i < ls.len() ==> sp_level_rec_wf(#[trigger] ls[i])
    &&& forall|i: int, j: int|
        0 <= i < j < ls.len() ==> !((#[trigger] ls[i]).element@ == (#[trigger] ls[j]).element@
            && ls[i].iupac_symbol@ == ls[j].iupac_symbol@)
}

pub open spec fn sp_transitions_wf(ts: Seq<XrayTransitionRecord>) -> bool {
    forall|i: int|
        0 <= i < ts.len() ==> sp_finite_nonneg((#[trigger] ts[i]).emission_energy)
            && sp_finite_nonneg(ts[i].intensity)
}

/// Direct and total Coster-Kronig probabilities lie in `[0, 1]`, with
/// the direct one no larger than the total.
pub open spec fn sp_ck_wf(cks: Seq<CosterKronigRecord>) -> bool {
    forall|i: int|
        0 <= i < cks.len() ==> (#[trigger] cks[i]).transition_probability <= cks[
            i].total_transition_probability && cks[i].total_transition_probability <= F64_ONE_BITS
}

pub open spec fn sp_photo_rec_wf(p: PhotoabsorptionRecord) -> bool {
    &&& p.log_energy@.len() == p.log_photoabsorption@.len()
    &&& p.log_energy@.len() == p.log_photoabsorption_spline@.len()
    &&& sp_sorted_strict(p.log_energy@)
    &&& sp_all_finite_nonneg(p.log_energy@)
}

pub open spec fn sp_photo_wf(ps: Seq<PhotoabsorptionRecord>) -> bool {
    forall|i: int| 0 <= i < ps.len() ==> sp_photo_rec_wf(#[trigger] ps[i])
}

pub open spec fn sp_scatter_rec_wf(s: ScatteringRecord) -> bool {
    &&& s.log_energy@.len() == s.log_coherent_scatter@.len()
    &&& s.log_energy@.len() == s.log_coherent_scatter_spline@.len()
    &&& s.log_energy@.len() == s.log_incoherent_scatter@.len()
    &&& s.log_energy@.len() == s.log_incoherent_scatter_spline@.len()
    &&& sp_sorted_strict(s.log_energy@)
    &&& sp_all_finite_nonneg(s.log_energy@)
}

pub open spec fn sp_scatter_wf(ss: Seq<ScatteringRecord>) -> bool {
    forall|i: int| 0 <= i < ss.len() ==> sp_scatter_rec_wf(#[trigger] ss[i])
}

pub open spec fn sp_chantler_rec_wf(c: ChantlerRecord) -> bool {
    &&& c.energy@.len() == c.f1@.len()
    &&& c.energy@.len() == c.f2@.len()
    &&& c.energy@.len() == c.mu_photo@.len()
    &&& c.energy@.len() == c.mu_incoh@.len()
    &&& c.energy@.len() == c.mu_total@.len()
    &&& sp_sorted_strict(c.energy@)
    &&& sp_all_finite_nonneg(c.energy@)
}

pub open spec fn sp_chantler_wf(cs: Seq<ChantlerRecord>) -> bool {
    forall|i: int| 0 <= i < cs.len() ==> sp_chantler_rec_wf(#[trigger] cs[i])
}

/// Five parameters per row, and each ion label occurs on one row only.
pub open spec fn sp_waasmaier_wf(ws: Seq<WaasmaierRecord>) -> bool {
    &&& forall|i: int|
        0 <= i < ws.len() ==> (#[trigger] ws[i]).scale@.len() == 5 && ws[i].exponents@.len() == 5
    &&& forall|i: int, j: int|
        0 <= i < j < ws.len() ==> (#[trigger] ws[i]).ion@ != (#[trigger] ws[j]).ion@
}

pub open spec fn sp_compton_wf(c: ComptonEnergiesRecord) -> bool {
    &&& c.incident@.len() == c.xray_90deg@.len()
    &&& c.incident@.len() == c.xray_mean@.len()
    &&& c.incident@.len() == c.electron_mean@.len()
    &&& sp_sorted_strict(c.incident@)
    &&& sp_all_finite_nonneg(c.incident@)
}

pub open spec fn sp_corewidth_wf(ws: Seq<CoreWidthRecord>) -> bool {
    forall|i: int| 0 <= i < ws.len() ==> sp_finite_nonneg((#[trigger] ws[i]).width)
}

pub open spec fn sp_ionization_wf(ips: Seq<IonizationPotentialRecord>) -> bool {
    forall|i: int| 0 <= i < ips.len() ==> sp_finite_nonneg((#[trigger] ips[i]).potential)
}

impl XrayDatabase {
    /// The self-consistency invariants of the aggregate, established
    /// once at load time.
    pub open spec fn wf(&self) -> bool {
        &&& sp_elements_wf(self.elements@)
        &&& sp_levels_wf(self.xray_levels@)
        &&& sp_transitions_wf(self.xray_transitions@)
        &&& sp_ck_wf(self.coster_kronig@)
        &&& sp_photo_wf(self.photoabsorption@)
        &&& sp_scatter_wf(self.scattering@)
        &&& sp_chantler_wf(self.chantler@)
        &&& sp_waasmaier_wf(self.waasmaier@)
        &&& sp_compton_wf(self.compton_energies)
        &&& sp_corewidth_wf(self.keski_rahkonen_krause@)
        &&& sp_corewidth_wf(self.krause_oliver@)
        &&& sp_corewidth_wf(self.corelevel_widths@)
        &&& sp_ionization_wf(self.ionization_potentials@)
    }
}

pub(crate) fn lower_code(c: char) -> (r: u32)
    ensures
        r == sp_lower_code(c),
{
    let n = c as u32;
    if 65 <= n && n <= 90 {
        n + 32
    } else {
        n
    }
}

/// ASCII-case-insensitive string equality.
pub fn eq_nocase(a: &str, b: &str) -> (r: bool)
    ensures
        r == sp_eq_nocase(a@, b@),
{
    let na = a.unicode_len();
    let nb = b.unicode_len();
    if na != nb {
        return false;
    }
    let mut i: usize = 0;
    while i < na
        invariant
            0 <= i <= na == a@.len(),
            na == nb == b@.len(),
            forall|j: int| 0 <= j < i ==> sp_lower_code(a@[j]) == sp_lower_code(b@[j]),
        decreases na - i,
    {
        if lower_code(a.get_char(i)) != lower_code(b.get_char(i)) {
            return false;
        }
        i = i + 1;
    }
    true
}

/// Exact string equality.
pub fn str_eq(a: &str, b: &str) -> (r: bool)
    ensures
        r == (a@ == b@),
{
    let na = a.unicode_len();
    let nb = b.unicode_len();
    if na != nb {
        return false;
    }
    let mut i: usize = 0;
    while i < na
        invariant
            0 <= i <= na == a@.len(),
            na == nb == b@.len(),
            forall|j: int| 0 <= j < i ==> a@[j] == b@[j],
        decreases na - i,
    {
        if a.get_char(i) != b.get_char(i) {
            return false;
        }
        i = i + 1;
    }
    proof {
        assert(a@ =~= b@);
    }
    true
}

fn check_sorted_nonneg(v: &Vec<u64>) -> (r: bool)
    ensures
        r == (sp_sorted_strict(v@) && sp_all_finite_nonneg(v@)),
{
    let n = v.len();
    let mut k: usize = 0;
    while k < n
        invariant
            0 <= k <= n == v@.len(),
            forall|j: int| 0 <= j < k ==> sp_finite_nonneg(#[trigger] v@[j]),
            forall|j: int| 0 <= j && j + 1 < n && j + 1 <= k ==> #[trigger] v@[j] < v@[j + 1],
        decreases n - k,
    {
        if v[k] >= F64_POS_INF_BITS {
            return false;
        }
        if k + 1 < n && v[k] >= v[k + 1] {
            return false;
        }
        k = k + 1;
    }
    true
}

fn check_symbol_shape(s: &str) -> (r: bool)
    ensures
        r == sp_symbol_shape(s@),
{
    let n = s.unicode_len();
    if n == 0 {
        return false;
    }
    if !crate::formula::is_upper_ch(s.get_char(0)) {
        return false;
    }
    let mut k: usize = 1;
    while k < n
        invariant
            1 <= k <= n == s@.len(),
            forall|j: int| 1 <= j < k ==> crate::formula::sp_is_lower(#[trigger] s@[j]),
        decreases n - k,
    {
        if !crate::formula::is_lower_ch(s.get_char(k)) {
            return false;
        }
        k = k + 1;
    }
    true
}

fn check_name_shape(s: &str) -> (r: bool)
    ensures
        r == sp_name_shape(s@),
{
    let n = s.unicode_len();
    if n == 0 {
        return false;
    }
    let mut k: usize = 0;
    while k < n
        invariant
            0 <= k <= n == s@.len(),
            forall|j: int|
                0 <= j < k ==> crate::formula::sp_is_upper(#[trigger] s@[j])
                    || crate::formula::sp_is_lower(s@[j]),
        decreases n - k,
    {
        let c = s.get_char(k);
        if !crate::formula::is_upper_ch(c) && !crate::formula::is_lower_ch(c) {
            return false;
        }
        k = k + 1;
    }
    true
}

fn check_elements(els: &Vec<ElementRecord>) -> (r: bool)
    ensures
        r == sp_elements_wf(els@),
{
    let n = els.len();
    let mut i: usize = 0;
    while i < n
        invariant
            0 <= i <= n == els@.len(),
            forall|x: int| 0 <= x < i ==> sp_element_rec_wf(#[trigger] els@[x]),
            forall|x: int, y: int|
                0 <= x < y < i ==> (#[trigger] els@[x]).atomic_number != (
                #[trigger] els@[y]).atomic_number && !sp_eq_nocase(els@[x].symbol@, els@[y].symbol@)
                    && !sp_eq_nocase(els@[x].name@, els@[y].name@),
        decreases n - i,
    {
        let e = &els[i];
        if e.atomic_number < 1 || e.atomic_number > 118 {
            return false;
        }
        if !check_symbol_shape(e.symbol.as_str()) {
            return false;
        }
        if !check_name_shape(e.name.as_str()) {
            return false;
        }
        if e.molar_mass >= F64_POS_INF_BITS || e.density >= F64_POS_INF_BITS {
            return false;
        }
        let mut j: usize = 0;
        while j < i
            invariant
                0 <= j <= i < n == els@.len(),
                forall|y: int|
                    0 <= y < j ==> (#[trigger] els@[y]).atomic_number != els@[i as int].atomic_number
                        && !sp_eq_nocase(els@[y].symbol@, els@[i as int].symbol@) && !sp_eq_nocase(
                        els@[y].name@,
                        els@[i as int].name@,
                    ),
            decreases i - j,
        {
            if els[j].atomic_number == els[i].atomic_number {
                return false;
            }
            if eq_nocase(els[j].symbol.as_str(), els[i].symbol.as_str()) {
                return false;
            }
            if eq_nocase(els[j].name.as_str(), els[i].name.as_str()) {
                return false;
            }
            j = j + 1;
        }
        i = i + 1;
    }
    true
}

fn check_levels(ls: &Vec<XrayLevelRecord>) -> (r: bool)
    ensures
        r == sp_levels_wf(ls@),
{
    let n = ls.len();
    let mut i: usize = 0;
    while i < n
        invariant
            0 <= i <= n == ls@.len(),
            forall|x: int| 0 <= x < i ==> sp_level_rec_wf(#[trigger] ls@[x]),
            forall|x: int, y: int|
                0 <= x < y < i ==> !((#[trigger] ls@[x]).element@ == (#[trigger] ls@[y]).element@
                    && ls@[x].iupac_symbol@ == ls@[y].iupac_symbol@),
        decreases n - i,
    {
        let l = &ls[i];
        if l.absorption_edge >= F64_POS_INF_BITS || l.fluorescence_yield > F64_ONE_BITS
            || l.jump_ratio >= F64_POS_INF_BITS || l.jump_ratio < F64_ONE_BITS {
            return false;
        }
        let mut j: usize = 0;
        while j < i
            invariant
                0 <= j <= i < n == ls@.len(),
                forall|y: int|
                    0 <= y < j ==> !((#[trigger] ls@[y]).element@ == ls@[i as int].element@
                        && ls@[y].iupac_symbol@ == ls@[i as int].iupac_symbol@),
            decreases i - j,
        {
            if str_eq(ls[j].element.as_str(), ls[i].element.as_str()) && str_eq(
                ls[j].iupac_symbol.as_str(),
                ls[i].iupac_symbol.as_str(),
            ) {
                return false;
            }
            j = j + 1;
        }
        i = i + 1;
    }
    true
}

fn check_transitions(ts: &Vec<XrayTransitionRecord>) -> (r: bool)
    ensures
        r == sp_transitions_wf(ts@),
{
    let n = ts.len();
    let mut i: usize = 0;
    while i < n
        invariant
            0 <= i <= n == ts@.len(),
            forall|x: int|
                0 <= x < i ==> sp_finite_nonneg((#[trigger] ts@[x]).emission_energy)
                    && sp_finite_nonneg(ts@[x].intensity),
        decreases n - i,
    {
        if ts[i].emission_energy >= F64_POS_INF_BITS || ts[i].intensity >= F64_POS_INF_BITS {
            return false;
        }
        i = i + 1;
    }
    true
}

fn check_coster_kronig(cks: &Vec<CosterKronigRecord>) -> (r: bool)
    ensures
        r == sp_ck_wf(cks@),
{
    let n = cks.len();
    let mut i: usize = 0;
    while i < n
        invariant
            0 <= i <= n == cks@.len(),
            forall|x: int|
                0 <= x < i ==> (#[trigger] cks@[x]).transition_probability <= cks@[
                    x].total_transition_probability && cks@[x].total_transition_probability
                    <= F64_ONE_BITS,
        decreases n - i,
    {
        if cks[i].transition_probability > cks[i].total_transition_probability
            || cks[i].total_transition_probability > F64_ONE_BITS {
            return false;
        }
        i = i + 1;
    }
    true
}

fn check_photoabsorption(ps: &Vec<PhotoabsorptionRecord>) -> (r: bool)
    ensures
        r == sp_photo_wf(ps@),
{
    let n = ps.len();
    let mut i: usize = 0;
    while i < n
        invariant
            0 <= i <= n == ps@.len(),
            forall|x: int| 0 <= x < i ==> sp_photo_rec_wf(#[trigger] ps@[x]),
        decreases n - i,
    {
        let p = &ps[i];
        if p.log_energy.len() != p.log_photoabsorption.len() || p.log_energy.len()
            != p.log_photoabsorption_spline.len() {
            return false;
        }
        if !check_sorted_nonneg(&p.log_energy) {
            return false;
        }
        i = i + 1;
    }
    true
}

fn check_scattering(ss: &Vec<ScatteringRecord>) -> (r: bool)
    ensures
        r == sp_scatter_wf(ss@),
{
    let n = ss.len();
    let mut i: usize = 0;
    while i < n
        invariant
            0 <= i <= n == ss@.len(),
            forall|x: int| 0 <= x < i ==> sp_scatter_rec_wf(#[trigger] ss@[x]),
        decreases n - i,
    {
        let s = &ss[i];
        if s.log_energy.len() != s.log_coherent_scatter.len() || s.log_energy.len()
            != s.log_coherent_scatter_spline.len() || s.log_energy.len()
            != s.log_incoherent_scatter.len() || s.log_energy.len()
            != s.log_incoherent_scatter_spline.len() {
            return false;
        }
        if !check_sorted_nonneg(&s.log_energy) {
            return false;
        }
        i = i + 1;
    }
    true
}

fn check_chantler(cs: &Vec<ChantlerRecord>) -> (r: bool)
    ensures
        r == sp_chantler_wf(cs@),
{
    let n = cs.len();
    let mut i: usize = 0;
    while i < n
        invariant
            0 <= i <= n == cs@.len(),
            forall|x: int| 0 <= x < i ==> sp_chantler_rec_wf(#[trigger] cs@[x]),
        decreases n - i,
    {
        let c = &cs[i];
        if c.energy.len() != c.f1.len() || c.energy.len() != c.f2.len() || c.energy.len()
            != c.mu_photo.len() || c.energy.len() != c.mu_incoh.len() || c.energy.len()
            != c.mu_total.len() {
            return false;
        }
        if !check_sorted_nonneg(&c.energy) {
            return false;
        }
        i = i + 1;
    }
    true
}

fn check_waasmaier(ws: &Vec<WaasmaierRecord>) -> (r: bool)
    ensures
        r == sp_waasmaier_wf(ws@),
{
    let n = ws.len();
    let mut i: usize = 0;
    while i < n
        invariant
            0 <= i <= n == ws@.len(),
            forall|x: int|
                0 <= x < i ==> (#[trigger] ws@[x]).scale@.len() == 5 && ws@[x].exponents@.len()
                    == 5,
            forall|x: int, y: int|
                0 <= x < y < i ==> (#[trigger] ws@[x]).ion@ != (#[trigger] ws@[y]).ion@,
        decreases n - i,
    {
        if ws[i].scale.len() != 5 || ws[i].exponents.len() != 5 {
            return false;
        }
        let mut j: usize = 0;
        while j < i
            invariant
                0 <= j <= i < n == ws@.len(),
                forall|y: int| 0 <= y < j ==> (#[trigger] ws@[y]).ion@ != ws@[i as int].ion@,
            decreases i - j,
        {
            if str_eq(ws[j].ion.as_str(), ws[i].ion.as_str()) {
                return false;
            }
            j = j + 1;
        }
        i = i + 1;
    }
    true
}

fn check_compton(c: &ComptonEnergiesRecord) -> (r: bool)
    ensures
        r == sp_compton_wf(*c),
{
    if c.incident.len() != c.xray_90deg.len() || c.incident.len() != c.xray_mean.len()
        || c.incident.len() != c.electron_mean.len() {
        return false;
    }
    check_sorted_nonneg(&c.incident)
}

fn check_corewidths(ws: &Vec<CoreWidthRecord>) -> (r: bool)
    ensures
        r == sp_corewidth_wf(ws@),
{
    let n = ws.len();
    let mut i: usize = 0;
    while i < n
        invariant
            0 <= i <= n == ws@.len(),
            forall|x: int| 0 <= x < i ==> sp_finite_nonneg((#[trigger] ws@[x]).width),
        decreases n - i,
    {
        if ws[i].width >= F64_POS_INF_BITS {
            return false;
        }
        i = i + 1;
    }
    true
}

fn check_ionization(ips: &Vec<IonizationPotentialRecord>) -> (r: bool)
    ensures
        r == sp_ionization_wf(ips@),
{
    let n = ips.len();
    let mut i: usize = 0;
    while i < n
        invariant
            0 <= i <= n == ips@.len(),
            forall|x: int| 0 <= x < i ==> sp_finite_nonneg((#[trigger] ips@[x]).potential),
        decreases n - i,
    {
        if ips[i].potential >= F64_POS_INF_BITS {
            return false;
        }
        i = i + 1;
    }
    true
}

/// Validate every self-consistency invariant of the aggregate.
pub fn check_database(db: &XrayDatabase) -> (r: bool)
    ensures
        r == db.wf(),
{
    check_elements(&db.elements) && check_levels(&db.xray_levels) && check_transitions(
        &db.xray_transitions,
    ) && check_coster_kronig(&db.coster_kronig) && check_photoabsorption(&db.photoabsorption)
        && check_scattering(&db.scattering) && check_chantler(&db.chantler) && check_waasmaier(
        &db.waasmaier,
    ) && check_compton(&db.compton_energies) && check_corewidths(&db.keski_rahkonen_krause)
        && check_corewidths(&db.krause_oliver) && check_corewidths(&db.corelevel_widths)
        && check_ionization(&db.ionization_potentials)
}

} // verus!
