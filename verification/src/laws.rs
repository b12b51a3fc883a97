//! Laws of the registry resolution chain, proved once for every
//! well-formed database.
use vstd::prelude::*;

use crate::formula::lemma_find_sym;
use crate::formula::sp_chemparse;
use crate::formula::sp_comp_add;
use crate::formula::sp_comp_merge;
use crate::formula::sp_comp_scale;
use crate::formula::sp_distinct_keys;
use crate::formula::sp_find_sym;
use crate::formula::sp_is_digit;
use crate::formula::sp_parse_items;
use crate::formula::sp_strip;
use crate::formula::Decimal;
use crate::records::sp_element_rec_wf;
use crate::records::sp_elements_wf;
use crate::records::sp_eq_nocase;
use crate::records::ElementRecord;
use crate::registry::sp_parse_u16;
use crate::registry::sp_resolve;
use crate::registry::sp_symbol_match;
use crate::registry::sp_name_match;

verus! {

proof fn lemma_eq_nocase_refl(a: Seq<char>)
    ensures
        sp_eq_nocase(a, a),
{
}

/// A canonical symbol never reads as an atomic number: its first
/// character is an uppercase letter, not a digit or a sign.
proof fn lemma_symbol_not_numeric(s: Seq<char>)
    requires
        crate::records::sp_symbol_shape(s),
    ensures
        sp_parse_u16(s) is None,
{
    assert(!sp_is_digit(s[0]));
    assert(s[0] != '+') by {
        assert(65 <= s[0] as u32 <= 90);
        assert('+' as u32 == 43);
    }
}

/// A name never reads as an atomic number either: it starts with a
/// letter.
proof fn lemma_name_not_numeric(s: Seq<char>)
    requires
        crate::records::sp_name_shape(s),
    ensures
        sp_parse_u16(s) is None,
{
    assert(crate::formula::sp_is_upper(s[0]) || crate::formula::sp_is_lower(s[0]));
    assert(!sp_is_digit(s[0]));
    assert(s[0] != '+') by {
        assert('+' as u32 == 43);
    }
}

/// Resolving an element's own symbol yields that element's atomic
/// number, in every well-formed database.
pub proof fn lemma_resolve_symbol_roundtrip(els: Seq<ElementRecord>, i: int)
    requires
        sp_elements_wf(els),
        0 <= i < els.len(),
    ensures
        sp_resolve(els, els[i].symbol@) == Some(els[i].atomic_number),
{
    let sym = els[i].symbol@;
    assert(sp_element_rec_wf(els[i]));
    lemma_symbol_not_numeric(sym);
    lemma_eq_nocase_refl(sym);
    assert forall|j: int| 0 <= j < i implies !sp_eq_nocase(els[j].symbol@, sym) by {
        assert(!sp_eq_nocase(els[j].symbol@, els[i].symbol@));
    }
    assert(sp_symbol_match(els, sym, i));
    let ci = choose|x: int| sp_symbol_match(els, sym, x);
    assert(sp_symbol_match(els, sym, ci));
    if ci < i {
        assert(!sp_eq_nocase(els[ci].symbol@, sym));
    }
    if i < ci {
        assert(!sp_eq_nocase(els[i].symbol@, sym));
    }
    assert(ci == i);
}

/// Resolving an element's own name yields that element's atomic
/// number, in every well-formed database whose symbols do not collide
/// with that name (no element symbol reads as the name, case ignored).
pub proof fn lemma_resolve_name_roundtrip(els: Seq<ElementRecord>, i: int)
    requires
        sp_elements_wf(els),
        0 <= i < els.len(),
        forall|j: int| 0 <= j < els.len() ==> !sp_eq_nocase((#[trigger] els[j]).symbol@, els[i].name@),
    ensures
        sp_resolve(els, els[i].name@) == Some(els[i].atomic_number),
{
    let name = els[i].name@;
    assert(sp_element_rec_wf(els[i]));
    lemma_name_not_numeric(name);
    assert forall|x: int| !sp_symbol_match(els, name, x) by {
        if sp_symbol_match(els, name, x) {
            assert(sp_eq_nocase(els[x].symbol@, name));
        }
    }
    lemma_eq_nocase_refl(name);
    assert forall|j: int| 0 <= j < i implies !sp_eq_nocase(els[j].name@, name) by {
        assert(!sp_eq_nocase(els[j].name@, els[i].name@));
    }
    assert(sp_name_match(els, name, i));
    let ci = choose|x: int| sp_name_match(els, name, x);
    assert(sp_name_match(els, name, ci));
    if ci < i {
        assert(!sp_eq_nocase(els[ci].name@, name));
    }
    if i < ci {
        assert(!sp_eq_nocase(els[i].name@, name));
    }
    assert(ci == i);
}

proof fn lemma_comp_add_distinct(c: Seq<(Seq<char>, Decimal)>, sym: Seq<char>, d: Decimal)
    requires
        sp_distinct_keys(c),
    ensures
        sp_distinct_keys(sp_comp_add(c, sym, d)),
{
    lemma_find_sym(c, sym);
    match sp_find_sym(c, sym) {
        None => {
            let c2 = c.push((sym, d));
            assert forall|i: int, j: int| 0 <= i < j < c2.len() implies c2[i].0 != c2[j].0 by {
                if j == c.len() {
                    assert(c[i].0 != sym);
                }
            }
        },
        Some(k) => {
            let c2 = c.update(k, (sym, c[k].1.sp_add_rounded(d)));
            assert(forall|x: int| 0 <= x < c2.len() ==> (#[trigger] c2[x]).0 == c[x].0);
        },
    }
}

proof fn lemma_comp_scale_distinct(c: Seq<(Seq<char>, Decimal)>, m: Decimal)
    requires
        sp_distinct_keys(c),
    ensures
        sp_distinct_keys(sp_comp_scale(c, m)),
{
    let c2 = sp_comp_scale(c, m);
    assert(forall|x: int| 0 <= x < c2.len() ==> (#[trigger] c2[x]).0 == c[x].0);
}

proof fn lemma_comp_merge_distinct(a: Seq<(Seq<char>, Decimal)>, b: Seq<(Seq<char>, Decimal)>)
    requires
        sp_distinct_keys(a),
    ensures
        sp_distinct_keys(sp_comp_merge(a, b)),
    decreases b.len(),
{
    if b.len() > 0 {
        lemma_comp_add_distinct(a, b[0].0, b[0].1);
        lemma_comp_merge_distinct(sp_comp_add(a, b[0].0, b[0].1), b.drop_first());
    }
}

proof fn lemma_parse_items_distinct(t: Seq<char>, pos: int)
    requires
        sp_parse_items(t, pos) is Some,
    ensures
        sp_distinct_keys(sp_parse_items(t, pos)->Some_0.0),
    decreases t.len() - pos,
{
    if pos < 0 || pos >= t.len() {
    } else if crate::formula::sp_is_upper(t[pos]) {
        let ne = crate::formula::sp_lowers_end(t, pos + 1);
        match crate::symbols::sp_symbol_lookup(t.subrange(pos, ne)) {
            None => {},
            Some(canon) => {
                let cntres = if ne < t.len() && (sp_is_digit(t[ne]) || t[ne] == '.') {
                    crate::formula::sp_lex_number(t, ne)
                } else {
                    Some((Decimal::sp_one(), ne))
                };
                match cntres {
                    None => {},
                    Some((cnt, after0)) => {
                        let after1 = if after0 < pos + 1 {
                            pos + 1
                        } else {
                            after0
                        };
                        let after = if after1 > t.len() {
                            t.len() as int
                        } else {
                            after1
                        };
                        match sp_parse_items(t, after) {
                            None => {},
                            Some((rest, _end)) => {
                                lemma_parse_items_distinct(t, after);
                                lemma_comp_merge_distinct(seq![(canon, cnt)], rest);
                            },
                        }
                    },
                }
            },
        }
    } else if t[pos] == '(' {
        match sp_parse_items(t, pos + 1) {
            None => {},
            Some((inner, ie0)) => {
                lemma_parse_items_distinct(t, pos + 1);
                let ie = if ie0 < pos + 1 {
                    pos + 1
                } else {
                    ie0
                };
                if ie < t.len() && t[ie] == ')' {
                    let cntres = if ie + 1 < t.len() && (sp_is_digit(t[ie + 1]) || t[ie + 1]
                        == '.') {
                        crate::formula::sp_lex_number(t, ie + 1)
                    } else {
                        Some((Decimal::sp_one(), ie + 1))
                    };
                    match cntres {
                        None => {},
                        Some((cnt, after0)) => {
                            let after1 = if after0 < ie + 1 {
                                ie + 1
                            } else {
                                after0
                            };
                            let after = if after1 > t.len() {
                                t.len() as int
                            } else {
                                after1
                            };
                            lemma_comp_scale_distinct(inner, cnt);
                            match sp_parse_items(t, after) {
                                None => {},
                                Some((rest, _end)) => {
                                    lemma_parse_items_distinct(t, after);
                                    lemma_comp_merge_distinct(sp_comp_scale(inner, cnt), rest);
                                },
                            }
                        },
                    }
                }
            },
        }
    }
}

/// Each element symbol occurs at most once in a parsed composition:
/// what `chemparse` returns reads as a map from symbols to counts.
pub proof fn lemma_chemparse_distinct_symbols(s: Seq<char>)
    requires
        sp_chemparse(s) is Some,
    ensures
        sp_distinct_keys(sp_chemparse(s)->Some_0),
{
    lemma_parse_items_distinct(sp_strip(s), 0);
}

} // verus!
