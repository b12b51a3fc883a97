//! The element registry: identifier resolution and canonical records.
//!
//! An element identifier resolves through an ordered chain of
//! fallbacks: an atomic number in decimal form, then the symbol, then
//! the name, the latter two compared ASCII-case-insensitively.
//!
//! Lookups scan the tables and their contracts pin the first matching
//! row; no derived index structures are stored beside the aggregate,
//! so every contract speaks directly of the table contents.
use vstd::prelude::*;
use vstd::string::*;

use crate::error::XrayDbError;
use crate::formula::chars_of;
use crate::formula::digits_val_capped;
use crate::formula::is_digit_ch;
use crate::formula::sp_digits_val;
use crate::formula::sp_is_digit;
use crate::records::check_database;
use crate::records::eq_nocase;
use crate::records::sp_eq_nocase;
use crate::records::ElementRecord;
use crate::records::XrayDatabase;

verus! {

/// What `u16` decimal parsing accepts: an optional leading `+`, then
/// one or more digits, with a value of at most 65535.
pub open spec fn sp_parse_u16(s: Seq<char>) -> Option<u16> {
    let ds: int = if s.len() > 0 && s[0] == '+' {
        1
    } else {
        0
    };
    if s.len() <= ds {
        None
    } else if !(forall|j: int| ds <= j < s.len() ==> sp_is_digit(#[trigger] s[j])) {
        None
    } else {
        let v = sp_digits_val(s, ds, s.len() as int);
        if v <= 65535 {
            Some(v as u16)
        } else {
            None
        }
    }
}

pub(crate) fn parse_u16_chars(t: &Vec<char>) -> (r: Option<u16>)
    ensures
        r == sp_parse_u16(t@),
{
    let n = t.len();
    let ds: usize = if n > 0 && t[0] == '+' {
        1
    } else {
        0
    };
    if n <= ds {
        return None;
    }
    let mut j: usize = ds;
    while j < n
        invariant
            ds == (if t@.len() > 0 && t@[0] == '+' { 1int } else { 0int }),
            ds <= j <= n == t@.len(),
            ds < n,
            forall|x: int| ds <= x < j ==> sp_is_digit(#[trigger] t@[x]),
        decreases n - j,
    {
        if !is_digit_ch(t[j]) {
            assert(!sp_is_digit(t@[j as int]));
            assert(!(forall|x: int| ds <= x < t@.len() ==> sp_is_digit(#[trigger] t@[x])));
            return None;
        }
        j = j + 1;
    }
    match digits_val_capped(t, ds, n, 65535) {
        None => None,
        Some(v) => Some(v as u16),
    }
}

/// `i` is the first element row whose atomic number is `z`.
pub open spec fn sp_z_match(els: Seq<ElementRecord>, z: u16, i: int) -> bool {
    &&& 0 <= i < els.len()
    &&& els[i].atomic_number == z
    &&& forall|j: int| 0 <= j < i ==> (#[trigger] els[j]).atomic_number != z
}

/// `i` is the first element row whose symbol equals `id`, ASCII case
/// ignored.
pub open spec fn sp_symbol_match(els: Seq<ElementRecord>, id: Seq<char>, i: int) -> bool {
    &&& 0 <= i < els.len()
    &&& sp_eq_nocase(els[i].symbol@, id)
    &&& forall|j: int| 0 <= j < i ==> !sp_eq_nocase((#[trigger] els[j]).symbol@, id)
}

/// `i` is the first element row whose name equals `id`, ASCII case
/// ignored.
pub open spec fn sp_name_match(els: Seq<ElementRecord>, id: Seq<char>, i: int) -> bool {
    &&& 0 <= i < els.len()
    &&& sp_eq_nocase(els[i].name@, id)
    &&& forall|j: int| 0 <= j < i ==> !sp_eq_nocase((#[trigger] els[j]).name@, id)
}

/// The resolution chain: an atomic number present in the table, else
/// the first symbol match, else the first name match.
pub open spec fn sp_resolve(els: Seq<ElementRecord>, id: Seq<char>) -> Option<u16> {
    let zopt = sp_parse_u16(id);
    if zopt is Some && (exists|i: int| sp_z_match(els, zopt->Some_0, i)) {
        zopt
    } else if exists|i: int| sp_symbol_match(els, id, i) {
        Some(els[choose|i: int| sp_symbol_match(els, id, i)].atomic_number)
    } else if exists|i: int| sp_name_match(els, id, i) {
        Some(els[choose|i: int| sp_name_match(els, id, i)].atomic_number)
    } else {
        None
    }
}

/// The main interface to the X-ray database: the loaded aggregate,
/// validated once at construction.
pub struct XrayDb {
    pub db: XrayDatabase,
}

impl XrayDb {
    /// Wrap a loaded database after validating its self-consistency
    /// invariants; a database that breaks them is unusable and is
    /// rejected outright.
    pub fn new(db: XrayDatabase) -> (r: Result<XrayDb, XrayDbError>)
        ensures
            r is Ok <==> db.wf(),
            r is Ok ==> r->Ok_0.db == db,
            r is Err ==> r->Err_0 is DataError,
    {
        if check_database(&db) {
            Ok(XrayDb { db })
        } else {
            Err(XrayDbError::DataError(String::from_str("database fails its invariants")))
        }
    }

    /// Access the raw database.
    pub fn raw(&self) -> (r: &XrayDatabase)
        ensures
            r == &self.db,
    {
        &self.db
    }

    /// Resolve an element identifier (symbol, name, or atomic number)
    /// to its atomic number.
    pub fn resolve_element(&self, element: &str) -> (r: Result<u16, XrayDbError>)
        ensures
            match sp_resolve(self.db.elements@, element@) {
                Some(z) => r is Ok && r->Ok_0 == z,
                None => r is Err && r->Err_0 is UnknownElement,
            },
    {
        let ghost els = self.db.elements@;
        let t = chars_of(element);
        let zopt = parse_u16_chars(&t);
        let n = self.db.elements.len();
        if let Some(z) = zopt {
            let mut i: usize = 0;
            while i < n
                invariant
                    els == self.db.elements@,
                    t@ == element@,
                    sp_parse_u16(element@) == Some(z),
                    0 <= i <= n == els.len(),
                    forall|j: int| 0 <= j < i ==> (#[trigger] els[j]).atomic_number != z,
                decreases n - i,
            {
                if self.db.elements[i].atomic_number == z {
                    proof {
                        assert(sp_z_match(els, z, i as int));
                        assert(sp_parse_u16(element@) is Some);
                        assert(sp_z_match(els, sp_parse_u16(element@)->Some_0, i as int));
                        assert(exists|x: int| sp_z_match(els, sp_parse_u16(element@)->Some_0, x));
                        assert(sp_resolve(els, element@) == Some(z));
                    }
                    return Ok(z);
                }
                i = i + 1;
            }
            proof {
                assert(forall|x: int| !sp_z_match(els, z, x));
            }
        }
        let mut i: usize = 0;
        while i < n
            invariant
                els == self.db.elements@,
                !(sp_parse_u16(element@) is Some && exists|x: int|
                    sp_z_match(els, sp_parse_u16(element@)->Some_0, x)),
                0 <= i <= n == els.len(),
                forall|j: int| 0 <= j < i ==> !sp_eq_nocase((#[trigger] els[j]).symbol@, element@),
            decreases n - i,
        {
            if eq_nocase(self.db.elements[i].symbol.as_str(), element) {
                proof {
                    assert(sp_symbol_match(els, element@, i as int));
                    let ci = choose|x: int| sp_symbol_match(els, element@, x);
                    assert(sp_symbol_match(els, element@, ci));
                    if ci < i {
                        assert(!sp_eq_nocase(els[ci].symbol@, element@));
                    }
                    if ci > i {
                        assert(!sp_eq_nocase(els[i as int].symbol@, element@));
                    }
                    assert(ci == i);
                }
                return Ok(self.db.elements[i].atomic_number);
            }
            i = i + 1;
        }
        proof {
            assert(forall|x: int| !sp_symbol_match(els, element@, x));
        }
        let mut i: usize = 0;
        while i < n
            invariant
                els == self.db.elements@,
                !(sp_parse_u16(element@) is Some && exists|x: int|
                    sp_z_match(els, sp_parse_u16(element@)->Some_0, x)),
                !(exists|x: int| sp_symbol_match(els, element@, x)),
                0 <= i <= n == els.len(),
                forall|j: int| 0 <= j < i ==> !sp_eq_nocase((#[trigger] els[j]).name@, element@),
            decreases n - i,
        {
            if eq_nocase(self.db.elements[i].name.as_str(), element) {
                proof {
                    assert(sp_name_match(els, element@, i as int));
                    let ci = choose|x: int| sp_name_match(els, element@, x);
                    assert(sp_name_match(els, element@, ci));
                    if ci < i {
                        assert(!sp_eq_nocase(els[ci].name@, element@));
                    }
                    if ci > i {
                        assert(!sp_eq_nocase(els[i as int].name@, element@));
                    }
                    assert(ci == i);
                }
                return Ok(self.db.elements[i].atomic_number);
            }
            i = i + 1;
        }
        proof {
            assert(forall|x: int| !sp_name_match(els, element@, x));
        }
        Err(XrayDbError::UnknownElement(String::from_str(element)))
    }

    /// Resolve an element identifier to its atomic number.
    pub fn atomic_number(&self, element: &str) -> (r: Result<u16, XrayDbError>)
        ensures
            match sp_resolve(self.db.elements@, element@) {
                Some(z) => r is Ok && r->Ok_0 == z,
                None => r is Err && r->Err_0 is UnknownElement,
            },
    {
        self.resolve_element(element)
    }

    /// The first element row carrying atomic number `z`.
    pub(crate) fn element_by_z(&self, z: u16) -> (r: Option<&ElementRecord>)
        ensures
            match r {
                Some(e) => exists|i: int| sp_z_match(self.db.elements@, z, i) && e == &self.db.elements@[i],
                None => !(exists|i: int| sp_z_match(self.db.elements@, z, i)),
            },
    {
        let ghost els = self.db.elements@;
        let n = self.db.elements.len();
        let mut i: usize = 0;
        while i < n
            invariant
                els == self.db.elements@,
                0 <= i <= n == els.len(),
                forall|j: int| 0 <= j < i ==> (#[trigger] els[j]).atomic_number != z,
            decreases n - i,
        {
            if self.db.elements[i].atomic_number == z {
                proof {
                    assert(sp_z_match(els, z, i as int));
                }
                return Some(&self.db.elements[i]);
            }
            i = i + 1;
        }
        None
    }

    fn element_record(&self, element: &str) -> (r: Result<&ElementRecord, XrayDbError>)
        ensures
            match r {
                Ok(e) => sp_resolve(self.db.elements@, element@) is Some && exists|i: int|
                    sp_z_match(
                        self.db.elements@,
                        sp_resolve(self.db.elements@, element@)->Some_0,
                        i,
                    ) && e == &self.db.elements@[i],
                Err(e) => e is UnknownElement && (sp_resolve(self.db.elements@, element@) is None
                    || !(exists|i: int|
                    sp_z_match(
                        self.db.elements@,
                        sp_resolve(self.db.elements@, element@)->Some_0,
                        i,
                    ))),
            },
    {
        match self.resolve_element(element) {
            Err(e) => Err(e),
            Ok(z) => match self.element_by_z(z) {
                Some(e) => Ok(e),
                None => Err(XrayDbError::UnknownElement(String::from_str(element))),
            },
        }
    }

    /// Canonical IUPAC symbol of an element.
    pub fn symbol(&self, element: &str) -> (r: Result<&str, XrayDbError>)
        ensures
            match r {
                Ok(s) => sp_resolve(self.db.elements@, element@) is Some && exists|i: int|
                    sp_z_match(
                        self.db.elements@,
                        sp_resolve(self.db.elements@, element@)->Some_0,
                        i,
                    ) && s@ == self.db.elements@[i].symbol@,
                Err(e) => e is UnknownElement && (sp_resolve(self.db.elements@, element@) is None
                    || !(exists|i: int|
                    sp_z_match(
                        self.db.elements@,
                        sp_resolve(self.db.elements@, element@)->Some_0,
                        i,
                    ))),
            },
    {
        match self.element_record(element) {
            Ok(e) => Ok(e.symbol.as_str()),
            Err(e) => Err(e),
        }
    }

    /// English name of an element.
    pub fn atomic_name(&self, element: &str) -> (r: Result<&str, XrayDbError>)
        ensures
            match r {
                Ok(s) => sp_resolve(self.db.elements@, element@) is Some && exists|i: int|
                    sp_z_match(
                        self.db.elements@,
                        sp_resolve(self.db.elements@, element@)->Some_0,
                        i,
                    ) && s@ == self.db.elements@[i].name@,
                Err(e) => e is UnknownElement && (sp_resolve(self.db.elements@, element@) is None
                    || !(exists|i: int|
                    sp_z_match(
                        self.db.elements@,
                        sp_resolve(self.db.elements@, element@)->Some_0,
                        i,
                    ))),
            },
    {
        match self.element_record(element) {
            Ok(e) => Ok(e.name.as_str()),
            Err(e) => Err(e),
        }
    }

    /// Molar mass in g/mol, as the bit pattern of the stored double.
    pub fn molar_mass(&self, element: &str) -> (r: Result<u64, XrayDbError>)
        ensures
            match r {
                Ok(m) => sp_resolve(self.db.elements@, element@) is Some && exists|i: int|
                    sp_z_match(
                        self.db.elements@,
                        sp_resolve(self.db.elements@, element@)->Some_0,
                        i,
                    ) && m == self.db.elements@[i].molar_mass,
                Err(e) => e is UnknownElement && (sp_resolve(self.db.elements@, element@) is None
                    || !(exists|i: int|
                    sp_z_match(
                        self.db.elements@,
                        sp_resolve(self.db.elements@, element@)->Some_0,
                        i,
                    ))),
            },
    {
        match self.element_record(element) {
            Ok(e) => Ok(e.molar_mass),
            Err(e) => Err(e),
        }
    }

    /// Density in g/cm^3, as the bit pattern of the stored double.
    pub fn density(&self, element: &str) -> (r: Result<u64, XrayDbError>)
        ensures
            match r {
                Ok(d) => sp_resolve(self.db.elements@, element@) is Some && exists|i: int|
                    sp_z_match(
                        self.db.elements@,
                        sp_resolve(self.db.elements@, element@)->Some_0,
                        i,
                    ) && d == self.db.elements@[i].density,
                Err(e) => e is UnknownElement && (sp_resolve(self.db.elements@, element@) is None
                    || !(exists|i: int|
                    sp_z_match(
                        self.db.elements@,
                        sp_resolve(self.db.elements@, element@)->Some_0,
                        i,
                    ))),
            },
    {
        match self.element_record(element) {
            Ok(e) => Ok(e.density),
            Err(e) => Err(e),
        }
    }
}

} // verus!
