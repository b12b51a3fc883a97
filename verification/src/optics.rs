//! Structural decisions of the optics engine: Miller-index parity for
//! diamond-structure reflections, and crystal-name resolution.  The
//! floating-point reflectivity calculations are built on these by
//! unverified callers.
use vstd::prelude::*;
use vstd::string::*;

use crate::error::XrayDbError;
use crate::records::eq_nocase;
use crate::records::sp_eq_nocase;

verus! {

/// Polarization state for X-ray optics calculations.
#[derive(Clone, Copy, Debug, PartialEq, Eq, Structural)]
pub enum Polarization {
    S,
    P,
    Unpolarized,
}

/// Structure-factor class of a diamond-structure reflection: all
/// Miller indices even with their sum divisible by four (structure
/// factor 8), or all odd (structure factor 4*sqrt(2)).
#[derive(Clone, Copy, Debug, PartialEq, Eq, Structural)]
pub enum ReflectionClass {
    AllEven,
    AllOdd,
}

/// A diamond-structure crystal with a built-in lattice constant.
#[derive(Clone, Copy, Debug, PartialEq, Eq, Structural)]
pub enum CrystalKind {
    Silicon,
    Germanium,
    Diamond,
}

pub open spec fn sp_even(n: int) -> bool {
    exists|m: int| n == #[trigger] (2 * m)
}

pub open spec fn sp_div4(n: int) -> bool {
    exists|m: int| n == #[trigger] (4 * m)
}

/// The accepted reflection classes of `hkl_class`.
pub open spec fn sp_hkl_class(h: int, k: int, l: int) -> Option<ReflectionClass> {
    if sp_div4(h + k + l) && sp_even(h) && sp_even(k) && sp_even(l) {
        Some(ReflectionClass::AllEven)
    } else if !sp_even(h) && !sp_even(k) && !sp_even(l) {
        Some(ReflectionClass::AllOdd)
    } else {
        None
    }
}

fn magnitude(n: i32) -> (r: u64)
    ensures
        r == n || r == -(n as int),
        r == (if n >= 0 {
            n as int
        } else {
            -(n as int)
        }),
{
    if n >= 0 {
        n as u64
    } else {
        (-(n as i64)) as u64
    }
}

fn even64(n: u64) -> (r: bool)
    ensures
        r == sp_even(n as int),
{
    let r = n % 2 == 0;
    proof {
        if r {
            assert(n == 2 * ((n / 2) as int));
        } else {
            assert forall|m: int| n != #[trigger] (2 * m) by {
                if n == 2 * m {
                    assert(n % 2 == 0) by (nonlinear_arith)
                        requires
                            n == 2 * m,
                    ;
                }
            }
        }
    }
    r
}

proof fn lemma_even_neg(n: int)
    ensures
        sp_even(n) == sp_even(-n),
{
    if sp_even(n) {
        let m = choose|m: int| n == #[trigger] (2 * m);
        assert(-n == 2 * (-m));
    }
    if sp_even(-n) {
        let m = choose|m: int| -n == #[trigger] (2 * m);
        assert(n == 2 * (-m));
    }
}

proof fn lemma_div4_neg(n: int)
    ensures
        sp_div4(n) == sp_div4(-n),
{
    if sp_div4(n) {
        let m = choose|m: int| n == #[trigger] (4 * m);
        assert(-n == 4 * (-m));
    }
    if sp_div4(-n) {
        let m = choose|m: int| -n == #[trigger] (4 * m);
        assert(n == 4 * (-m));
    }
}

fn even_i32(n: i32) -> (r: bool)
    ensures
        r == sp_even(n as int),
{
    let mag = magnitude(n);
    let r = even64(mag);
    proof {
        lemma_even_neg(n as int);
    }
    r
}

fn div4_i64(n: i64) -> (r: bool)
    ensures
        r == sp_div4(n as int),
{
    let mag: u64 = if n >= 0 {
        n as u64
    } else if n == i64::MIN {
        9_223_372_036_854_775_808u64
    } else {
        (-n) as u64
    };
    proof {
        assert(mag == n || mag == -(n as int));
    }
    let r = mag % 4 == 0;
    proof {
        if r {
            assert(mag == 4 * ((mag / 4) as int));
        } else {
            assert forall|m: int| mag != #[trigger] (4 * m) by {
                if mag == 4 * m {
                    assert(mag % 4 == 0) by (nonlinear_arith)
                        requires
                            mag == 4 * m,
                    ;
                }
            }
        }
        lemma_div4_neg(n as int);
        if mag == -(n as int) {
            assert(sp_div4(mag as int) == sp_div4(n as int));
        }
    }
    r
}

/// Classify a diamond-structure reflection: all indices even with the
/// sum divisible by four, or all indices odd; anything else cannot
/// diffract and is rejected.
pub fn hkl_class(h: i32, k: i32, l: i32) -> (r: Result<ReflectionClass, XrayDbError>)
    ensures
        match r {
            Ok(c) => sp_hkl_class(h as int, k as int, l as int) == Some(c),
            Err(e) => sp_hkl_class(h as int, k as int, l as int) is None && e is DataError,
        },
{
    let he = even_i32(h);
    let ke = even_i32(k);
    let le = even_i32(l);
    let sum: i64 = (h as i64) + (k as i64) + (l as i64);
    let s4 = div4_i64(sum);
    if s4 && he && ke && le {
        Ok(ReflectionClass::AllEven)
    } else if !he && !ke && !le {
        Ok(ReflectionClass::AllOdd)
    } else {
        Err(
            XrayDbError::DataError(
                String::from_str("hkl must all be even (sum divisible by 4) or all odd"),
            ),
        )
    }
}

/// Resolve a crystal name, case-insensitively: silicon, germanium, or
/// diamond-form carbon.
pub fn resolve_crystal(name: &str) -> (r: Option<CrystalKind>)
    ensures
        r == (if sp_eq_nocase(name@, "si"@) {
            Some(CrystalKind::Silicon)
        } else if sp_eq_nocase(name@, "ge"@) {
            Some(CrystalKind::Germanium)
        } else if sp_eq_nocase(name@, "c"@) || sp_eq_nocase(name@, "diamond"@) {
            Some(CrystalKind::Diamond)
        } else {
            None
        }),
{
    if eq_nocase(name, "si") {
        Some(CrystalKind::Silicon)
    } else if eq_nocase(name, "ge") {
        Some(CrystalKind::Germanium)
    } else if eq_nocase(name, "c") || eq_nocase(name, "diamond") {
        Some(CrystalKind::Diamond)
    } else {
        None
    }
}

} // verus!
