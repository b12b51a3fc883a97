//! Lookups over the physics tables: absorption edges, emission lines,
//! Coster-Kronig probabilities, core-hole widths, ionization
//! potentials, Waasmaier parameters, and the per-element cross-section
//! rows.  Energies, widths and probabilities are bit patterns of
//! non-negative doubles, so the `u64` comparisons below agree with the
//! numeric ones.
use vstd::prelude::*;
use vstd::string::*;

use crate::error::XrayDbError;
use crate::records::eq_nocase;
use crate::records::sp_eq_nocase;
use crate::records::str_eq;
use crate::records::ChantlerRecord;
use crate::records::CosterKronigRecord;
use crate::records::CoreWidthRecord;
use crate::records::ElementRecord;
use crate::records::IonizationPotentialRecord;
use crate::records::PhotoabsorptionRecord;
use crate::records::ScatteringRecord;
use crate::records::WaasmaierRecord;
use crate::records::XrayLevelRecord;
use crate::records::XrayTransitionRecord;
use crate::records::F64_ONE_BITS;
use crate::registry::sp_resolve;
use crate::registry::sp_z_match;
use crate::registry::XrayDb;

verus! {

/// Kind of cross-section drawn from the Elam tables.
#[derive(Clone, Copy, Debug, PartialEq, Eq, Structural)]
pub enum CrossSectionKind {
    Photo,
    Coherent,
    Incoherent,
    Total,
}

/// Kind of cross-section drawn from the Chantler tables.
#[derive(Clone, Copy, Debug, PartialEq, Eq, Structural)]
pub enum ChantlerKind {
    Total,
    Photo,
    Incoherent,
}

/// X-ray absorption edge data, each field the bit pattern of the
/// stored double.
#[derive(Clone, Copy, Debug, PartialEq, Eq, Structural)]
pub struct XrayEdge {
    pub energy: u64,
    pub fluorescence_yield: u64,
    pub jump_ratio: u64,
}

/// X-ray emission line data; energies and intensities are bit patterns
/// of the stored doubles.
#[derive(Clone, Debug)]
pub struct XrayLine {
    pub energy: u64,
    pub intensity: u64,
    pub initial_level: String,
    pub final_level: String,
}

pub struct XrayLineV {
    pub energy: u64,
    pub intensity: u64,
    pub initial_level: Seq<char>,
    pub final_level: Seq<char>,
}

impl View for XrayLine {
    type V = XrayLineV;

    open spec fn view(&self) -> XrayLineV {
        XrayLineV {
            energy: self.energy,
            intensity: self.intensity,
            initial_level: self.initial_level@,
            final_level: self.final_level@,
        }
    }
}

/// The canonical symbol of the element that `id` resolves to.
pub open spec fn sp_canonical_symbol(els: Seq<ElementRecord>, id: Seq<char>) -> Option<Seq<char>> {
    match sp_resolve(els, id) {
        None => None,
        Some(z) => if exists|i: int| sp_z_match(els, z, i) {
            Some(els[choose|i: int| sp_z_match(els, z, i)].symbol@)
        } else {
            None
        },
    }
}

pub proof fn lemma_z_match_eq(els: Seq<ElementRecord>, z: u16, a: int, b: int)
    requires
        sp_z_match(els, z, a),
        sp_z_match(els, z, b),
    ensures
        a == b,
{
    if a < b {
        assert(els[a].atomic_number != z);
    }
    if b < a {
        assert(els[b].atomic_number != z);
    }
}

impl XrayDb {
    /// Canonical symbol of a resolved element, as the registry getter
    /// reports it but pinned to `sp_canonical_symbol`.
    fn canonical_symbol(&self, element: &str) -> (r: Result<&str, XrayDbError>)
        ensures
            match r {
                Ok(s) => sp_canonical_symbol(self.db.elements@, element@) == Some(s@),
                Err(e) => sp_canonical_symbol(self.db.elements@, element@) is None && e
                    is UnknownElement,
            },
    {
        let ghost els = self.db.elements@;
        match self.symbol(element) {
            Err(e) => Err(e),
            Ok(s) => {
                proof {
                    let z = sp_resolve(els, element@)->Some_0;
                    let wi = choose|i: int|
                        sp_z_match(els, z, i) && s@ == self.db.elements@[i].symbol@;
                    let ci = choose|i: int| sp_z_match(els, z, i);
                    lemma_z_match_eq(els, z, wi, ci);
                }
                Ok(s)
            },
        }
    }
}

/// The edge rows of one element, keyed by IUPAC label, in table order.
pub open spec fn sp_edges_of(ls: Seq<XrayLevelRecord>, sym: Seq<char>) -> Seq<
    (Seq<char>, XrayEdge),
>
    decreases ls.len(),
{
    if ls.len() == 0 {
        Seq::empty()
    } else {
        let rest = sp_edges_of(ls.drop_last(), sym);
        let l = ls.last();
        if l.element@ == sym {
            rest.push(
                (
                    l.iupac_symbol@,
                    XrayEdge {
                        energy: l.absorption_edge,
                        fluorescence_yield: l.fluorescence_yield,
                        jump_ratio: l.jump_ratio,
                    },
                ),
            )
        } else {
            rest
        }
    }
}

pub open spec fn sp_edge_pairs(v: Seq<(String, XrayEdge)>) -> Seq<(Seq<char>, XrayEdge)> {
    v.map_values(|p: (String, XrayEdge)| (p.0@, p.1))
}

/// `k` is the first level row of element `sym` with edge label `edge`.
pub open spec fn sp_level_match(
    ls: Seq<XrayLevelRecord>,
    sym: Seq<char>,
    edge: Seq<char>,
    k: int,
) -> bool {
    &&& 0 <= k < ls.len()
    &&& ls[k].element@ == sym && ls[k].iupac_symbol@ == edge
    &&& forall|j: int|
        0 <= j < k ==> !((#[trigger] ls[j]).element@ == sym && ls[j].iupac_symbol@ == edge)
}

pub proof fn lemma_level_match_eq(
    ls: Seq<XrayLevelRecord>,
    sym: Seq<char>,
    edge: Seq<char>,
    a: int,
    b: int,
)
    requires
        sp_level_match(ls, sym, edge, a),
        sp_level_match(ls, sym, edge, b),
    ensures
        a == b,
{
    if a < b {
        assert(!(ls[a].element@ == sym && ls[a].iupac_symbol@ == edge));
    }
    if b < a {
        assert(!(ls[b].element@ == sym && ls[b].iupac_symbol@ == edge));
    }
}

/// The absorption edge of the first level row of `sym` labelled `edge`.
pub open spec fn sp_level_edge_for(ls: Seq<XrayLevelRecord>, sym: Seq<char>, edge: Seq<char>) -> Option<
    u64,
> {
    if exists|k: int| sp_level_match(ls, sym, edge, k) {
        Some(ls[choose|k: int| sp_level_match(ls, sym, edge, k)].absorption_edge)
    } else {
        None
    }
}

/// Whether a transition row is reported by `xray_lines`.
pub open spec fn sp_line_kept(
    ls: Seq<XrayLevelRecord>,
    tr: XrayTransitionRecord,
    sym: Seq<char>,
    init: Option<Seq<char>>,
    exc: Option<u64>,
) -> bool {
    &&& tr.element@ == sym
    &&& (init is Some ==> tr.initial_level@ == init->Some_0)
    &&& (exc is Some ==> (match sp_level_edge_for(ls, sym, tr.initial_level@) {
        Some(e) => e <= exc->Some_0,
        None => true,
    }))
}

/// The emission lines of one element, keyed by Siegbahn label, in
/// table order, optionally restricted to one initial level and to
/// levels reachable at an excitation energy.
pub open spec fn sp_lines_of(
    ts: Seq<XrayTransitionRecord>,
    ls: Seq<XrayLevelRecord>,
    sym: Seq<char>,
    init: Option<Seq<char>>,
    exc: Option<u64>,
) -> Seq<(Seq<char>, XrayLineV)>
    decreases ts.len(),
{
    if ts.len() == 0 {
        Seq::empty()
    } else {
        let rest = sp_lines_of(ts.drop_last(), ls, sym, init, exc);
        let tr = ts.last();
        if sp_line_kept(ls, tr, sym, init, exc) {
            rest.push(
                (
                    tr.siegbahn_symbol@,
                    XrayLineV {
                        energy: tr.emission_energy,
                        intensity: tr.intensity,
                        initial_level: tr.initial_level@,
                        final_level: tr.final_level@,
                    },
                ),
            )
        } else {
            rest
        }
    }
}

pub open spec fn sp_line_pairs(v: Seq<(String, XrayLine)>) -> Seq<(Seq<char>, XrayLineV)> {
    v.map_values(|p: (String, XrayLine)| (p.0@, p.1@))
}

impl XrayDb {
    /// All absorption edges of an element, keyed by IUPAC label.
    ///
    /// Every matching row is reported in table order; the tabulated
    /// data holds one row per (element, edge) pair, so the pairs read
    /// as a map, but a label that occurred twice would appear twice.
    pub fn xray_edges(&self, element: &str) -> (r: Result<Vec<(String, XrayEdge)>, XrayDbError>)
        ensures
            match r {
                Ok(v) => sp_canonical_symbol(self.db.elements@, element@) is Some && sp_edge_pairs(
                    v@,
                ) == sp_edges_of(
                    self.db.xray_levels@,
                    sp_canonical_symbol(self.db.elements@, element@)->Some_0,
                ),
                Err(e) => sp_canonical_symbol(self.db.elements@, element@) is None && e
                    is UnknownElement,
            },
    {
        let ghost ls = self.db.xray_levels@;
        match self.canonical_symbol(element) {
            Err(e) => Err(e),
            Ok(sym) => {
                let ghost symv = sym@;
                let n = self.db.xray_levels.len();
                let mut out: Vec<(String, XrayEdge)> = Vec::new();
                proof {
                    assert(sp_edge_pairs(out@) =~= sp_edges_of(ls.subrange(0, 0), symv));
                }
                let mut i: usize = 0;
                while i < n
                    invariant
                        ls == self.db.xray_levels@,
                        symv == sym@,
                        0 <= i <= n == ls.len(),
                        sp_edge_pairs(out@) == sp_edges_of(ls.subrange(0, i as int), symv),
                    decreases n - i,
                {
                    proof {
                        assert(ls.subrange(0, i + 1).drop_last() =~= ls.subrange(0, i as int));
                        assert(ls.subrange(0, i + 1).last() == ls[i as int]);
                    }
                    let l = &self.db.xray_levels[i];
                    if str_eq(l.element.as_str(), sym) {
                        out.push(
                            (
                                l.iupac_symbol.clone(),
                                XrayEdge {
                                    energy: l.absorption_edge,
                                    fluorescence_yield: l.fluorescence_yield,
                                    jump_ratio: l.jump_ratio,
                                },
                            ),
                        );
                    }
                    proof {
                        assert(sp_edge_pairs(out@) =~= sp_edges_of(ls.subrange(0, i + 1), symv));
                    }
                    i = i + 1;
                }
                proof {
                    assert(ls.subrange(0, n as int) =~= ls);
                }
                Ok(out)
            },
        }
    }

    /// One absorption edge of an element, by IUPAC label.
    pub fn xray_edge(&self, element: &str, edge: &str) -> (r: Result<XrayEdge, XrayDbError>)
        ensures
            match r {
                Ok(e) => sp_canonical_symbol(self.db.elements@, element@) is Some && exists|k: int|
                    sp_level_match(
                        self.db.xray_levels@,
                        sp_canonical_symbol(self.db.elements@, element@)->Some_0,
                        edge@,
                        k,
                    ) && e == (XrayEdge {
                        energy: self.db.xray_levels@[k].absorption_edge,
                        fluorescence_yield: self.db.xray_levels@[k].fluorescence_yield,
                        jump_ratio: self.db.xray_levels@[k].jump_ratio,
                    }),
                Err(e) => (sp_canonical_symbol(self.db.elements@, element@) is None && e
                    is UnknownElement) || (sp_canonical_symbol(self.db.elements@, element@) is Some
                    && !(exists|k: int|
                    sp_level_match(
                        self.db.xray_levels@,
                        sp_canonical_symbol(self.db.elements@, element@)->Some_0,
                        edge@,
                        k,
                    )) && e is UnknownEdge),
            },
    {
        let ghost ls = self.db.xray_levels@;
        match self.canonical_symbol(element) {
            Err(e) => Err(e),
            Ok(sym) => {
                let n = self.db.xray_levels.len();
                let mut i: usize = 0;
                while i < n
                    invariant
                        ls == self.db.xray_levels@,
                        sp_canonical_symbol(self.db.elements@, element@) == Some(sym@),
                        0 <= i <= n == ls.len(),
                        forall|j: int|
                            0 <= j < i ==> !((#[trigger] ls[j]).element@ == sym@
                                && ls[j].iupac_symbol@ == edge@),
                    decreases n - i,
                {
                    let l = &self.db.xray_levels[i];
                    if str_eq(l.element.as_str(), sym) && str_eq(l.iupac_symbol.as_str(), edge) {
                        proof {
                            assert(sp_level_match(ls, sym@, edge@, i as int));
                            assert(sp_level_match(
                                ls,
                                sp_canonical_symbol(self.db.elements@, element@)->Some_0,
                                edge@,
                                i as int,
                            ));
                        }
                        return Ok(
                            XrayEdge {
                                energy: l.absorption_edge,
                                fluorescence_yield: l.fluorescence_yield,
                                jump_ratio: l.jump_ratio,
                            },
                        );
                    }
                    i = i + 1;
                }
                Err(
                    XrayDbError::UnknownEdge {
                        element: String::from_str(element),
                        edge: String::from_str(edge),
                    },
                )
            },
        }
    }

    fn level_edge_for(&self, sym: &str, lvl: &str) -> (r: Option<u64>)
        ensures
            r == sp_level_edge_for(self.db.xray_levels@, sym@, lvl@),
    {
        let ghost ls = self.db.xray_levels@;
        let n = self.db.xray_levels.len();
        let mut i: usize = 0;
        while i < n
            invariant
                ls == self.db.xray_levels@,
                0 <= i <= n == ls.len(),
                forall|j: int|
                    0 <= j < i ==> !((#[trigger] ls[j]).element@ == sym@ && ls[j].iupac_symbol@
                        == lvl@),
            decreases n - i,
        {
            let l = &self.db.xray_levels[i];
            if str_eq(l.element.as_str(), sym) && str_eq(l.iupac_symbol.as_str(), lvl) {
                proof {
                    assert(sp_level_match(ls, sym@, lvl@, i as int));
                    let ck = choose|k: int| sp_level_match(ls, sym@, lvl@, k);
                    lemma_level_match_eq(ls, sym@, lvl@, ck, i as int);
                }
                return Some(l.absorption_edge);
            }
            i = i + 1;
        }
        None
    }

    /// Emission lines of an element, keyed by Siegbahn label, optionally
    /// restricted to one initial level, and to transitions whose
    /// initial level lies at or below an excitation energy, which must
    /// be the bit pattern of a non-negative finite double so that its
    /// bit-pattern order is its numeric order.
    ///
    /// Every kept row is reported in table order; the tabulated data
    /// holds one row per Siegbahn label and element, so the pairs read
    /// as a map, but a label that occurred twice would appear twice.
    pub fn xray_lines(
        &self,
        element: &str,
        initial_level: Option<&str>,
        excitation_energy: Option<u64>,
    ) -> (r: Result<Vec<(String, XrayLine)>, XrayDbError>)
        requires
            excitation_energy is Some ==> crate::records::sp_finite_nonneg(
                excitation_energy->Some_0,
            ),
        ensures
            match r {
                Ok(v) => sp_canonical_symbol(self.db.elements@, element@) is Some && sp_line_pairs(
                    v@,
                ) == sp_lines_of(
                    self.db.xray_transitions@,
                    self.db.xray_levels@,
                    sp_canonical_symbol(self.db.elements@, element@)->Some_0,
                    match initial_level {
                        Some(l) => Some(l@),
                        None => None,
                    },
                    excitation_energy,
                ),
                Err(e) => sp_canonical_symbol(self.db.elements@, element@) is None && e
                    is UnknownElement,
            },
    {
        let ghost ts = self.db.xray_transitions@;
        let ghost ls = self.db.xray_levels@;
        let ghost initv: Option<Seq<char>> = match initial_level {
            Some(l) => Some(l@),
            None => None,
        };
        match self.canonical_symbol(element) {
            Err(e) => Err(e),
            Ok(sym) => {
                let ghost symv = sym@;
                let n = self.db.xray_transitions.len();
                let mut out: Vec<(String, XrayLine)> = Vec::new();
                proof {
                    assert(sp_line_pairs(out@) =~= sp_lines_of(
                        ts.subrange(0, 0),
                        ls,
                        symv,
                        initv,
                        excitation_energy,
                    ));
                }
                let mut i: usize = 0;
                while i < n
                    invariant
                        ts == self.db.xray_transitions@,
                        ls == self.db.xray_levels@,
                        symv == sym@,
                        initv == (match initial_level {
                            Some(l) => Some(l@),
                            None => None,
                        }),
                        0 <= i <= n == ts.len(),
                        sp_line_pairs(out@) == sp_lines_of(
                            ts.subrange(0, i as int),
                            ls,
                            symv,
                            initv,
                            excitation_energy,
                        ),
                    decreases n - i,
                {
                    proof {
                        assert(ts.subrange(0, i + 1).drop_last() =~= ts.subrange(0, i as int));
                        assert(ts.subrange(0, i + 1).last() == ts[i as int]);
                    }
                    let tr = &self.db.xray_transitions[i];
                    let mut kept = str_eq(tr.element.as_str(), sym);
                    if kept {
                        match initial_level {
                            Some(l) => {
                                kept = str_eq(tr.initial_level.as_str(), l);
                            },
                            None => {},
                        }
                    }
                    if kept {
                        match excitation_energy {
                            Some(maxe) => {
                                match self.level_edge_for(sym, tr.initial_level.as_str()) {
                                    Some(e) => {
                                        kept = e <= maxe;
                                    },
                                    None => {},
                                }
                            },
                            None => {},
                        }
                    }
                    proof {
                        assert(kept == sp_line_kept(
                            ls,
                            ts[i as int],
                            symv,
                            initv,
                            excitation_energy,
                        ));
                    }
                    if kept {
                        out.push(
                            (
                                tr.siegbahn_symbol.clone(),
                                XrayLine {
                                    energy: tr.emission_energy,
                                    intensity: tr.intensity,
                                    initial_level: tr.initial_level.clone(),
                                    final_level: tr.final_level.clone(),
                                },
                            ),
                        );
                    }
                    proof {
                        assert(sp_line_pairs(out@) =~= sp_lines_of(
                            ts.subrange(0, i + 1),
                            ls,
                            symv,
                            initv,
                            excitation_energy,
                        ));
                    }
                    i = i + 1;
                }
                proof {
                    assert(ts.subrange(0, n as int) =~= ts);
                }
                Ok(out)
            },
        }
    }
}

/// Membership of a string in a list of labels.
pub open spec fn sp_str_in(labels: Seq<Seq<char>>, s: Seq<char>) -> bool {
    exists|j: int| 0 <= j < labels.len() && labels[j] == s
}

pub open spec fn sp_label_views(v: Seq<String>) -> Seq<Seq<char>> {
    v.map_values(|s: String| s@)
}

/// The level rows whose edge label is listed and whose edge energy is
/// positive: candidates for `guess_edge`, as
/// (element, edge label, edge energy bits).
pub open spec fn sp_edge_candidates(ls: Seq<XrayLevelRecord>, labels: Seq<Seq<char>>) -> Seq<
    (Seq<char>, Seq<char>, u64),
>
    decreases ls.len(),
{
    if ls.len() == 0 {
        Seq::empty()
    } else {
        let rest = sp_edge_candidates(ls.drop_last(), labels);
        let l = ls.last();
        if sp_str_in(labels, l.iupac_symbol@) && l.absorption_edge > 0 {
            rest.push((l.element@, l.iupac_symbol@, l.absorption_edge))
        } else {
            rest
        }
    }
}

pub open spec fn sp_cand_views(v: Seq<(String, String, u64)>) -> Seq<(Seq<char>, Seq<char>, u64)> {
    v.map_values(|p: (String, String, u64)| (p.0@, p.1@, p.2))
}

/// `i` is the first position of a minimal key.
pub open spec fn sp_first_min(keys: Seq<u64>, i: int) -> bool {
    &&& 0 <= i < keys.len()
    &&& forall|j: int| 0 <= j < i ==> #[trigger] keys[j] > keys[i]
    &&& forall|j: int| i <= j < keys.len() ==> #[trigger] keys[j] >= keys[i]
}

impl XrayDb {
    fn label_in(&self, labels: &Vec<String>, s: &str) -> (r: bool)
        ensures
            r == sp_str_in(sp_label_views(labels@), s@),
    {
        let n = labels.len();
        let mut j: usize = 0;
        while j < n
            invariant
                0 <= j <= n == labels@.len(),
                forall|x: int| 0 <= x < j ==> sp_label_views(labels@)[x] != s@,
            decreases n - j,
        {
            if str_eq(labels[j].as_str(), s) {
                assert(sp_label_views(labels@)[j as int] == s@);
                return true;
            }
            j = j + 1;
        }
        false
    }

    /// The `guess_edge` candidates: level rows with a listed edge label
    /// and a positive edge energy.
    pub fn edge_candidates(&self, labels: &Vec<String>) -> (r: Vec<(String, String, u64)>)
        ensures
            sp_cand_views(r@) == sp_edge_candidates(self.db.xray_levels@, sp_label_views(labels@)),
    {
        let ghost ls = self.db.xray_levels@;
        let ghost lv = sp_label_views(labels@);
        let n = self.db.xray_levels.len();
        let mut out: Vec<(String, String, u64)> = Vec::new();
        proof {
            assert(sp_cand_views(out@) =~= sp_edge_candidates(ls.subrange(0, 0), lv));
        }
        let mut i: usize = 0;
        while i < n
            invariant
                ls == self.db.xray_levels@,
                lv == sp_label_views(labels@),
                0 <= i <= n == ls.len(),
                sp_cand_views(out@) == sp_edge_candidates(ls.subrange(0, i as int), lv),
            decreases n - i,
        {
            proof {
                assert(ls.subrange(0, i + 1).drop_last() =~= ls.subrange(0, i as int));
                assert(ls.subrange(0, i + 1).last() == ls[i as int]);
            }
            let l = &self.db.xray_levels[i];
            if self.label_in(labels, l.iupac_symbol.as_str()) && l.absorption_edge > 0 {
                out.push((l.element.clone(), l.iupac_symbol.clone(), l.absorption_edge));
            }
            proof {
                assert(sp_cand_views(out@) =~= sp_edge_candidates(ls.subrange(0, i + 1), lv));
            }
            i = i + 1;
        }
        proof {
            assert(ls.subrange(0, n as int) =~= ls);
        }
        out
    }
}

/// Pick the candidate with the first minimal key: the tie-breaking of
/// `guess_edge`, which keeps the earliest level among equally close
/// ones.
pub fn pick_first_min(cands: &Vec<(String, String, u64)>, keys: &Vec<u64>) -> (r: Option<
    (String, String),
>)
    requires
        cands@.len() == keys@.len(),
    ensures
        match r {
            Some(p) => exists|i: int|
                sp_first_min(keys@, i) && p.0@ == cands@[i].0@ && p.1@ == cands@[i].1@,
            None => keys@.len() == 0,
        },
{
    let n = keys.len();
    if n == 0 {
        return None;
    }
    let mut best: usize = 0;
    let mut i: usize = 1;
    while i < n
        invariant
            0 <= best < i <= n == keys@.len(),
            forall|j: int| 0 <= j < best ==> #[trigger] keys@[j] > keys@[best as int],
            forall|j: int| best <= j < i ==> #[trigger] keys@[j] >= keys@[best as int],
        decreases n - i,
    {
        if keys[i] < keys[best] {
            best = i;
        }
        i = i + 1;
    }
    proof {
        assert(sp_first_min(keys@, best as int));
    }
    Some((cands[best].0.clone(), cands[best].1.clone()))
}

/// `k` is the first Coster-Kronig row of `sym` for the level pair.
pub open spec fn sp_ck_match(
    cks: Seq<CosterKronigRecord>,
    sym: Seq<char>,
    ini: Seq<char>,
    fin: Seq<char>,
    k: int,
) -> bool {
    &&& 0 <= k < cks.len()
    &&& cks[k].element@ == sym && cks[k].initial_level@ == ini && cks[k].final_level@ == fin
    &&& forall|j: int|
        0 <= j < k ==> !((#[trigger] cks[j]).element@ == sym && cks[j].initial_level@ == ini
            && cks[j].final_level@ == fin)
}

/// `k` is the first core-width row of element `z` labelled `edge`.
pub open spec fn sp_width_match(ws: Seq<CoreWidthRecord>, z: u16, edge: Seq<char>, k: int) -> bool {
    &&& 0 <= k < ws.len()
    &&& ws[k].atomic_number == z && ws[k].edge@ == edge
    &&& forall|j: int|
        0 <= j < k ==> !((#[trigger] ws[j]).atomic_number == z && ws[j].edge@ == edge)
}

/// The core widths of element `z`, keyed by edge label, in table order.
pub open spec fn sp_widths_of(ws: Seq<CoreWidthRecord>, z: u16) -> Seq<(Seq<char>, u64)>
    decreases ws.len(),
{
    if ws.len() == 0 {
        Seq::empty()
    } else {
        let rest = sp_widths_of(ws.drop_last(), z);
        let w = ws.last();
        if w.atomic_number == z {
            rest.push((w.edge@, w.width))
        } else {
            rest
        }
    }
}

pub open spec fn sp_width_pairs(v: Seq<(String, u64)>) -> Seq<(Seq<char>, u64)> {
    v.map_values(|p: (String, u64)| (p.0@, p.1))
}

/// `k` is the first ionization-potential row whose gas name equals
/// `gas`, ASCII case ignored.
pub open spec fn sp_gas_match(ips: Seq<IonizationPotentialRecord>, gas: Seq<char>, k: int) -> bool {
    &&& 0 <= k < ips.len()
    &&& sp_eq_nocase(ips[k].gas@, gas)
    &&& forall|j: int| 0 <= j < k ==> !sp_eq_nocase((#[trigger] ips[j]).gas@, gas)
}

impl XrayDb {
    /// Coster-Kronig transition probability between two levels: the
    /// direct one, or the total one when `total` is set.  For a
    /// well-formed database the result is the bit pattern of a value
    /// in `[0, 1]`.
    pub fn ck_probability(&self, element: &str, initial: &str, final_level: &str, total: bool) -> (r:
        Result<u64, XrayDbError>)
        ensures
            match r {
                Ok(p) => sp_canonical_symbol(self.db.elements@, element@) is Some && exists|k: int|
                    sp_ck_match(
                        self.db.coster_kronig@,
                        sp_canonical_symbol(self.db.elements@, element@)->Some_0,
                        initial@,
                        final_level@,
                        k,
                    ) && p == (if total {
                        self.db.coster_kronig@[k].total_transition_probability
                    } else {
                        self.db.coster_kronig@[k].transition_probability
                    }),
                Err(e) => (sp_canonical_symbol(self.db.elements@, element@) is None && e
                    is UnknownElement) || (sp_canonical_symbol(self.db.elements@, element@) is Some
                    && !(exists|k: int|
                    sp_ck_match(
                        self.db.coster_kronig@,
                        sp_canonical_symbol(self.db.elements@, element@)->Some_0,
                        initial@,
                        final_level@,
                        k,
                    )) && e is UnknownEdge),
            },
            r is Ok && self.db.wf() ==> r->Ok_0 <= F64_ONE_BITS,
    {
        let ghost cks = self.db.coster_kronig@;
        match self.canonical_symbol(element) {
            Err(e) => Err(e),
            Ok(sym) => {
                let n = self.db.coster_kronig.len();
                let mut i: usize = 0;
                while i < n
                    invariant
                        cks == self.db.coster_kronig@,
                        sp_canonical_symbol(self.db.elements@, element@) == Some(sym@),
                        0 <= i <= n == cks.len(),
                        forall|j: int|
                            0 <= j < i ==> !((#[trigger] cks[j]).element@ == sym@
                                && cks[j].initial_level@ == initial@ && cks[j].final_level@
                                == final_level@),
                    decreases n - i,
                {
                    let ck = &self.db.coster_kronig[i];
                    if str_eq(ck.element.as_str(), sym) && str_eq(ck.initial_level.as_str(), initial)
                        && str_eq(ck.final_level.as_str(), final_level) {
                        proof {
                            assert(sp_ck_match(
                                cks,
                                sp_canonical_symbol(self.db.elements@, element@)->Some_0,
                                initial@,
                                final_level@,
                                i as int,
                            ));
                        }
                        if total {
                            return Ok(ck.total_transition_probability);
                        } else {
                            return Ok(ck.transition_probability);
                        }
                    }
                    i = i + 1;
                }
                Err(
                    XrayDbError::UnknownEdge {
                        element: String::from_str(element),
                        edge: String::from_str(initial).concat("->").concat(final_level),
                    },
                )
            },
        }
    }

    /// Core-hole width(s) of an element in eV, from the merged
    /// core-level table: all edges, or the one requested.
    pub fn core_width(&self, element: &str, edge: Option<&str>) -> (r: Result<
        Vec<(String, u64)>,
        XrayDbError,
    >)
        ensures
            match r {
                Ok(v) => sp_resolve(self.db.elements@, element@) is Some && (match edge {
                    Some(e) => exists|k: int|
                        sp_width_match(
                            self.db.corelevel_widths@,
                            sp_resolve(self.db.elements@, element@)->Some_0,
                            e@,
                            k,
                        ) && sp_width_pairs(v@) == seq![
                            (
                                self.db.corelevel_widths@[k].edge@,
                                self.db.corelevel_widths@[k].width,
                            ),
                        ],
                    None => sp_width_pairs(v@) == sp_widths_of(
                        self.db.corelevel_widths@,
                        sp_resolve(self.db.elements@, element@)->Some_0,
                    ) && v@.len() > 0,
                }),
                Err(e) => (sp_resolve(self.db.elements@, element@) is None && e is UnknownElement)
                    || (sp_resolve(self.db.elements@, element@) is Some && (match edge {
                    Some(ed) => !(exists|k: int|
                        sp_width_match(
                            self.db.corelevel_widths@,
                            sp_resolve(self.db.elements@, element@)->Some_0,
                            ed@,
                            k,
                        )) && e is UnknownEdge,
                    None => sp_widths_of(
                        self.db.corelevel_widths@,
                        sp_resolve(self.db.elements@, element@)->Some_0,
                    ).len() == 0 && e is UnknownElement,
                })),
            },
    {
        let ghost ws = self.db.corelevel_widths@;
        let z: u16 = match self.resolve_element(element) {
            Err(e) => {
                return Err(e);
            },
            Ok(zz) => zz,
        };
        let n = self.db.corelevel_widths.len();
        match edge {
            Some(e) => {
                let mut i: usize = 0;
                while i < n
                    invariant
                        ws == self.db.corelevel_widths@,
                        sp_resolve(self.db.elements@, element@) == Some(z),
                        edge == Some(e),
                        0 <= i <= n == ws.len(),
                        forall|j: int|
                            0 <= j < i ==> !((#[trigger] ws[j]).atomic_number == z && ws[j].edge@
                                == e@),
                    decreases n - i,
                {
                    let w = &self.db.corelevel_widths[i];
                    if w.atomic_number == z && str_eq(w.edge.as_str(), e) {
                        proof {
                            assert(sp_width_match(ws, z, e@, i as int));
                            assert(sp_width_match(
                                ws,
                                sp_resolve(self.db.elements@, element@)->Some_0,
                                e@,
                                i as int,
                            ));
                        }
                        let mut out: Vec<(String, u64)> = Vec::new();
                        out.push((w.edge.clone(), w.width));
                        proof {
                            assert(sp_width_pairs(out@) =~~= seq![
                                (ws[i as int].edge@, ws[i as int].width),
                            ]);
                            assert(sp_width_match(
                                self.db.corelevel_widths@,
                                sp_resolve(self.db.elements@, element@)->Some_0,
                                e@,
                                i as int,
                            ) && sp_width_pairs(out@) == seq![
                                (
                                    self.db.corelevel_widths@[i as int].edge@,
                                    self.db.corelevel_widths@[i as int].width,
                                ),
                            ]);
                            assert(exists|k: int|
                                sp_width_match(
                                    self.db.corelevel_widths@,
                                    sp_resolve(self.db.elements@, element@)->Some_0,
                                    e@,
                                    k,
                                ) && sp_width_pairs(out@) == seq![
                                    (
                                        self.db.corelevel_widths@[k].edge@,
                                        self.db.corelevel_widths@[k].width,
                                    ),
                                ]);
                        }
                        proof {
                            assert(edge->Some_0 == e);
                        }
                        return Ok(out);
                    }
                    i = i + 1;
                }
                Err(
                    XrayDbError::UnknownEdge {
                        element: String::from_str(element),
                        edge: String::from_str(e),
                    },
                )
            },
            None => {
                let mut out: Vec<(String, u64)> = Vec::new();
                proof {
                    assert(sp_width_pairs(out@) =~= sp_widths_of(ws.subrange(0, 0), z));
                }
                let mut i: usize = 0;
                while i < n
                    invariant
                        ws == self.db.corelevel_widths@,
                        0 <= i <= n == ws.len(),
                        sp_width_pairs(out@) == sp_widths_of(ws.subrange(0, i as int), z),
                    decreases n - i,
                {
                    proof {
                        assert(ws.subrange(0, i + 1).drop_last() =~= ws.subrange(0, i as int));
                        assert(ws.subrange(0, i + 1).last() == ws[i as int]);
                    }
                    let w = &self.db.corelevel_widths[i];
                    if w.atomic_number == z {
                        out.push((w.edge.clone(), w.width));
                    }
                    proof {
                        assert(sp_width_pairs(out@) =~~= sp_widths_of(ws.subrange(0, i + 1), z));
                    }
                    i = i + 1;
                }
                proof {
                    assert(ws.subrange(0, n as int) =~= ws);
                }
                if out.len() == 0 {
                    Err(XrayDbError::UnknownElement(String::from_str(element)))
                } else {
                    Ok(out)
                }
            },
        }
    }

    /// Ionization potential of a gas in eV per ion pair, by
    /// case-insensitive name.
    pub fn ionization_potential(&self, gas: &str) -> (r: Result<u64, XrayDbError>)
        ensures
            match r {
                Ok(p) => exists|k: int|
                    sp_gas_match(self.db.ionization_potentials@, gas@, k) && p
                        == self.db.ionization_potentials@[k].potential,
                Err(e) => !(exists|k: int| sp_gas_match(self.db.ionization_potentials@, gas@, k))
                    && e is UnknownGas,
            },
    {
        let ghost ips = self.db.ionization_potentials@;
        let n = self.db.ionization_potentials.len();
        let mut i: usize = 0;
        while i < n
            invariant
                ips == self.db.ionization_potentials@,
                0 <= i <= n == ips.len(),
                forall|j: int| 0 <= j < i ==> !sp_eq_nocase((#[trigger] ips[j]).gas@, gas@),
            decreases n - i,
        {
            let ip = &self.db.ionization_potentials[i];
            if eq_nocase(ip.gas.as_str(), gas) {
                proof {
                    assert(sp_gas_match(ips, gas@, i as int));
                }
                return Ok(ip.potential);
            }
            i = i + 1;
        }
        Err(XrayDbError::UnknownGas(String::from_str(gas)))
    }
}

/// `k` is the first Waasmaier row whose ion label is `ion`.
pub open spec fn sp_ion_match(ws: Seq<WaasmaierRecord>, ion: Seq<char>, k: int) -> bool {
    &&& 0 <= k < ws.len()
    &&& ws[k].ion@ == ion
    &&& forall|j: int| 0 <= j < k ==> (#[trigger] ws[j]).ion@ != ion
}

/// The ion labels in table order, optionally those of one element.
pub open spec fn sp_ions_of(ws: Seq<WaasmaierRecord>, sym: Option<Seq<char>>) -> Seq<Seq<char>>
    decreases ws.len(),
{
    if ws.len() == 0 {
        Seq::empty()
    } else {
        let rest = sp_ions_of(ws.drop_last(), sym);
        let w = ws.last();
        if sym is Some ==> w.element@ == sym->Some_0 {
            rest.push(w.ion@)
        } else {
            rest
        }
    }
}

/// `k` is the first row whose element symbol is `sym`, for each of the
/// per-element tables.
pub open spec fn sp_chantler_sym_match(cs: Seq<ChantlerRecord>, sym: Seq<char>, k: int) -> bool {
    &&& 0 <= k < cs.len()
    &&& cs[k].element@ == sym
    &&& forall|j: int| 0 <= j < k ==> (#[trigger] cs[j]).element@ != sym
}

pub open spec fn sp_photo_sym_match(ps: Seq<PhotoabsorptionRecord>, sym: Seq<char>, k: int) -> bool {
    &&& 0 <= k < ps.len()
    &&& ps[k].element@ == sym
    &&& forall|j: int| 0 <= j < k ==> (#[trigger] ps[j]).element@ != sym
}

pub open spec fn sp_scatter_sym_match(ss: Seq<ScatteringRecord>, sym: Seq<char>, k: int) -> bool {
    &&& 0 <= k < ss.len()
    &&& ss[k].element@ == sym
    &&& forall|j: int| 0 <= j < k ==> (#[trigger] ss[j]).element@ != sym
}

/// The tabulated energies within `[emin, emax]`, in bit-pattern order.
pub open spec fn sp_energies_within(es: Seq<u64>, emin: u64, emax: u64) -> Seq<u64>
    decreases es.len(),
{
    if es.len() == 0 {
        Seq::empty()
    } else {
        let rest = sp_energies_within(es.drop_last(), emin, emax);
        let e = es.last();
        if emin <= e <= emax {
            rest.push(e)
        } else {
            rest
        }
    }
}

/// Default upper bound of `chantler_energies`: the bit pattern of
/// 1e9 eV, far above every tabulated energy.
pub const CHANTLER_EMAX_DEFAULT_BITS: u64 = 0x41CD_CD65_0000_0000;

impl XrayDb {
    /// Waasmaier ion labels, all of them or those of one element.
    pub fn f0_ions(&self, element: Option<&str>) -> (r: Result<Vec<String>, XrayDbError>)
        ensures
            match r {
                Ok(v) => (match element {
                    Some(el) => sp_canonical_symbol(self.db.elements@, el@) is Some
                        && sp_label_views(v@) == sp_ions_of(
                        self.db.waasmaier@,
                        Some(sp_canonical_symbol(self.db.elements@, el@)->Some_0),
                    ),
                    None => sp_label_views(v@) == sp_ions_of(self.db.waasmaier@, None),
                }),
                Err(e) => element is Some && sp_canonical_symbol(
                    self.db.elements@,
                    element->Some_0@,
                ) is None && e is UnknownElement,
            },
    {
        let ghost ws = self.db.waasmaier@;
        let symres: Option<&str> = match element {
            Some(el) => {
                match self.canonical_symbol(el) {
                    Err(e) => {
                        return Err(e);
                    },
                    Ok(s) => Some(s),
                }
            },
            None => None,
        };
        let ghost symv: Option<Seq<char>> = match symres {
            Some(s) => Some(s@),
            None => None,
        };
        let n = self.db.waasmaier.len();
        let mut out: Vec<String> = Vec::new();
        proof {
            assert(sp_label_views(out@) =~= sp_ions_of(ws.subrange(0, 0), symv));
        }
        let mut i: usize = 0;
        while i < n
            invariant
                ws == self.db.waasmaier@,
                symv == (match symres {
                    Some(s) => Some(s@),
                    None => None,
                }),
                0 <= i <= n == ws.len(),
                sp_label_views(out@) == sp_ions_of(ws.subrange(0, i as int), symv),
            decreases n - i,
        {
            proof {
                assert(ws.subrange(0, i + 1).drop_last() =~= ws.subrange(0, i as int));
                assert(ws.subrange(0, i + 1).last() == ws[i as int]);
            }
            let w = &self.db.waasmaier[i];
            let keep = match symres {
                Some(s) => str_eq(w.element.as_str(), s),
                None => true,
            };
            if keep {
                out.push(w.ion.clone());
            }
            proof {
                assert(sp_label_views(out@) =~= sp_ions_of(ws.subrange(0, i + 1), symv));
            }
            i = i + 1;
        }
        proof {
            assert(ws.subrange(0, n as int) =~= ws);
        }
        Ok(out)
    }

    /// The Waasmaier parameter row of an ion label.
    pub fn f0_record(&self, ion: &str) -> (r: Result<&WaasmaierRecord, XrayDbError>)
        ensures
            match r {
                Ok(w) => exists|k: int|
                    sp_ion_match(self.db.waasmaier@, ion@, k) && w == &self.db.waasmaier@[k],
                Err(e) => !(exists|k: int| sp_ion_match(self.db.waasmaier@, ion@, k)) && e
                    is UnknownIon,
            },
    {
        let ghost ws = self.db.waasmaier@;
        let n = self.db.waasmaier.len();
        let mut i: usize = 0;
        while i < n
            invariant
                ws == self.db.waasmaier@,
                0 <= i <= n == ws.len(),
                forall|j: int| 0 <= j < i ==> (#[trigger] ws[j]).ion@ != ion@,
            decreases n - i,
        {
            if str_eq(self.db.waasmaier[i].ion.as_str(), ion) {
                proof {
                    assert(sp_ion_match(ws, ion@, i as int));
                }
                return Ok(&self.db.waasmaier[i]);
            }
            i = i + 1;
        }
        Err(XrayDbError::UnknownIon(String::from_str(ion)))
    }

    /// The Chantler row of a resolved element.
    pub fn chantler_record(&self, element: &str) -> (r: Result<&ChantlerRecord, XrayDbError>)
        ensures
            match r {
                Ok(c) => sp_canonical_symbol(self.db.elements@, element@) is Some && exists|k: int|
                    sp_chantler_sym_match(
                        self.db.chantler@,
                        sp_canonical_symbol(self.db.elements@, element@)->Some_0,
                        k,
                    ) && c == &self.db.chantler@[k],
                Err(e) => e is UnknownElement && (sp_canonical_symbol(self.db.elements@, element@)
                    is None || !(exists|k: int|
                    sp_chantler_sym_match(
                        self.db.chantler@,
                        sp_canonical_symbol(self.db.elements@, element@)->Some_0,
                        k,
                    ))),
            },
    {
        let ghost cs = self.db.chantler@;
        match self.canonical_symbol(element) {
            Err(e) => Err(e),
            Ok(sym) => {
                let n = self.db.chantler.len();
                let mut i: usize = 0;
                while i < n
                    invariant
                        cs == self.db.chantler@,
                        sp_canonical_symbol(self.db.elements@, element@) == Some(sym@),
                        0 <= i <= n == cs.len(),
                        forall|j: int| 0 <= j < i ==> (#[trigger] cs[j]).element@ != sym@,
                    decreases n - i,
                {
                    if str_eq(self.db.chantler[i].element.as_str(), sym) {
                        proof {
                            assert(sp_chantler_sym_match(cs, sym@, i as int));
                        }
                        return Ok(&self.db.chantler[i]);
                    }
                    i = i + 1;
                }
                Err(XrayDbError::UnknownElement(String::from_str(element)))
            },
        }
    }

    /// The photoabsorption row of a resolved element.
    pub fn photo_record(&self, element: &str) -> (r: Result<&PhotoabsorptionRecord, XrayDbError>)
        ensures
            match r {
                Ok(p) => sp_canonical_symbol(self.db.elements@, element@) is Some && exists|k: int|
                    sp_photo_sym_match(
                        self.db.photoabsorption@,
                        sp_canonical_symbol(self.db.elements@, element@)->Some_0,
                        k,
                    ) && p == &self.db.photoabsorption@[k],
                Err(e) => e is UnknownElement && (sp_canonical_symbol(self.db.elements@, element@)
                    is None || !(exists|k: int|
                    sp_photo_sym_match(
                        self.db.photoabsorption@,
                        sp_canonical_symbol(self.db.elements@, element@)->Some_0,
                        k,
                    ))),
            },
    {
        let ghost ps = self.db.photoabsorption@;
        match self.canonical_symbol(element) {
            Err(e) => Err(e),
            Ok(sym) => {
                let n = self.db.photoabsorption.len();
                let mut i: usize = 0;
                while i < n
                    invariant
                        ps == self.db.photoabsorption@,
                        sp_canonical_symbol(self.db.elements@, element@) == Some(sym@),
                        0 <= i <= n == ps.len(),
                        forall|j: int| 0 <= j < i ==> (#[trigger] ps[j]).element@ != sym@,
                    decreases n - i,
                {
                    if str_eq(self.db.photoabsorption[i].element.as_str(), sym) {
                        proof {
                            assert(sp_photo_sym_match(ps, sym@, i as int));
                        }
                        return Ok(&self.db.photoabsorption[i]);
                    }
                    i = i + 1;
                }
                Err(XrayDbError::UnknownElement(String::from_str(element)))
            },
        }
    }

    /// The scattering row of a resolved element.
    pub fn scatter_record(&self, element: &str) -> (r: Result<&ScatteringRecord, XrayDbError>)
        ensures
            match r {
                Ok(s) => sp_canonical_symbol(self.db.elements@, element@) is Some && exists|k: int|
                    sp_scatter_sym_match(
                        self.db.scattering@,
                        sp_canonical_symbol(self.db.elements@, element@)->Some_0,
                        k,
                    ) && s == &self.db.scattering@[k],
                Err(e) => e is UnknownElement && (sp_canonical_symbol(self.db.elements@, element@)
                    is None || !(exists|k: int|
                    sp_scatter_sym_match(
                        self.db.scattering@,
                        sp_canonical_symbol(self.db.elements@, element@)->Some_0,
                        k,
                    ))),
            },
    {
        let ghost ss = self.db.scattering@;
        match self.canonical_symbol(element) {
            Err(e) => Err(e),
            Ok(sym) => {
                let n = self.db.scattering.len();
                let mut i: usize = 0;
                while i < n
                    invariant
                        ss == self.db.scattering@,
                        sp_canonical_symbol(self.db.elements@, element@) == Some(sym@),
                        0 <= i <= n == ss.len(),
                        forall|j: int| 0 <= j < i ==> (#[trigger] ss[j]).element@ != sym@,
                    decreases n - i,
                {
                    if str_eq(self.db.scattering[i].element.as_str(), sym) {
                        proof {
                            assert(sp_scatter_sym_match(ss, sym@, i as int));
                        }
                        return Ok(&self.db.scattering[i]);
                    }
                    i = i + 1;
                }
                Err(XrayDbError::UnknownElement(String::from_str(element)))
            },
        }
    }

    /// Tabulated Chantler energies of an element, kept to `[emin, emax]`
    /// in bit-pattern order; an absent bound defaults to 0 eV below and
    /// to 1e9 eV above.
    pub fn chantler_energies(&self, element: &str, emin: Option<u64>, emax: Option<u64>) -> (r:
        Result<Vec<u64>, XrayDbError>)
        ensures
            match r {
                Ok(v) => sp_canonical_symbol(self.db.elements@, element@) is Some && exists|k: int|
                    sp_chantler_sym_match(
                        self.db.chantler@,
                        sp_canonical_symbol(self.db.elements@, element@)->Some_0,
                        k,
                    ) && v@ == sp_energies_within(
                        self.db.chantler@[k].energy@,
                        match emin {
                            Some(lo) => lo,
                            None => 0,
                        },
                        match emax {
                            Some(hi) => hi,
                            None => CHANTLER_EMAX_DEFAULT_BITS,
                        },
                    ),
                Err(e) => e is UnknownElement && (sp_canonical_symbol(self.db.elements@, element@)
                    is None || !(exists|k: int|
                    sp_chantler_sym_match(
                        self.db.chantler@,
                        sp_canonical_symbol(self.db.elements@, element@)->Some_0,
                        k,
                    ))),
            },
    {
        let lo: u64 = match emin {
            Some(b) => b,
            None => 0,
        };
        let hi: u64 = match emax {
            Some(b) => b,
            None => CHANTLER_EMAX_DEFAULT_BITS,
        };
        match self.chantler_record(element) {
            Err(e) => Err(e),
            Ok(row) => {
                let ghost es = row.energy@;
                let n = row.energy.len();
                let mut out: Vec<u64> = Vec::new();
                proof {
                    assert(out@ =~= sp_energies_within(es.subrange(0, 0), lo, hi));
                }
                let mut i: usize = 0;
                while i < n
                    invariant
                        es == row.energy@,
                        0 <= i <= n == es.len(),
                        out@ == sp_energies_within(es.subrange(0, i as int), lo, hi),
                    decreases n - i,
                {
                    proof {
                        assert(es.subrange(0, i + 1).drop_last() =~= es.subrange(0, i as int));
                        assert(es.subrange(0, i + 1).last() == es[i as int]);
                    }
                    let e = row.energy[i];
                    if lo <= e && e <= hi {
                        out.push(e);
                    }
                    i = i + 1;
                }
                proof {
                    assert(es.subrange(0, n as int) =~= es);
                }
                Ok(out)
            },
        }
    }
}

} // verus!
