//! Canonical values for result cells whose column types are unknown ahead of
//! time. Each cell is probed against a fixed list of native types, in order,
//! and the first decode that succeeds decides the value.

use vstd::prelude::*;

verus! {

/// The outcome of each probe on one cell: `Some` where decoding the cell as
/// that type succeeded. A floating-point decode is carried as its IEEE-754
/// bit pattern.
#[derive(Debug, Clone, PartialEq, Eq)]
pub struct CellProbe {
    pub as_i32: Option<i32>,
    pub as_text: Option<String>,
    pub as_bool: Option<bool>,
    pub as_f64_bits: Option<u64>,
    pub as_i64: Option<i64>,
}

pub struct CellProbeView {
    pub as_i32: Option<i32>,
    pub as_text: Option<Seq<char>>,
    pub as_bool: Option<bool>,
    pub as_f64_bits: Option<u64>,
    pub as_i64: Option<i64>,
}

impl View for CellProbe {
    type V = CellProbeView;

    open spec fn view(&self) -> CellProbeView {
        CellProbeView {
            as_i32: self.as_i32,
            as_text: match self.as_text {
                Some(s) => Some(s@),
                None => None,
            },
            as_bool: self.as_bool,
            as_f64_bits: self.as_f64_bits,
            as_i64: self.as_i64,
        }
    }
}

/// A cell value in one of the representable kinds; a float is held as its
/// IEEE-754 bit pattern.
#[derive(Debug, Clone, PartialEq, Eq)]
pub enum CanonicalValue {
    Integer(i64),
    Float(u64),
    Boolean(bool),
    Text(String),
    Null,
}

pub enum CanonicalView {
    Integer(int),
    Float(u64),
    Boolean(bool),
    Text(Seq<char>),
    Null,
}

impl View for CanonicalValue {
    type V = CanonicalView;

    open spec fn view(&self) -> CanonicalView {
        match self {
            CanonicalValue::Integer(n) => CanonicalView::Integer(*n as int),
            CanonicalValue::Float(bits) => CanonicalView::Float(*bits),
            CanonicalValue::Boolean(b) => CanonicalView::Boolean(*b),
            CanonicalValue::Text(s) => CanonicalView::Text(s@),
            CanonicalValue::Null => CanonicalView::Null,
        }
    }
}

/// The value of a cell: the first probe that succeeded, in the order
/// 32-bit integer, text, boolean, double, 64-bit integer; `Null` when none did.
pub open spec fn coerce_spec(p: CellProbeView) -> CanonicalView {
    if p.as_i32 is Some {
        CanonicalView::Integer(p.as_i32->0 as int)
    } else if p.as_text is Some {
        CanonicalView::Text(p.as_text->0)
    } else if p.as_bool is Some {
        CanonicalView::Boolean(p.as_bool->0)
    } else if p.as_f64_bits is Some {
        CanonicalView::Float(p.as_f64_bits->0)
    } else if p.as_i64 is Some {
        CanonicalView::Integer(p.as_i64->0 as int)
    } else {
        CanonicalView::Null
    }
}

/// No probe decoded the cell.
pub open spec fn matches_no_probe(p: CellProbeView) -> bool {
    &&& p.as_i32 is None
    &&& p.as_text is None
    &&& p.as_bool is None
    &&& p.as_f64_bits is None
    &&& p.as_i64 is None
}

/// The canonical value of one cell.
pub fn coerce(probe: &CellProbe) -> (r: CanonicalValue)
    ensures
        r@ == coerce_spec(probe@),
{
    if let Some(v) = probe.as_i32 {
        CanonicalValue::Integer(v as i64)
    } else if let Some(s) = &probe.as_text {
        CanonicalValue::Text(s.clone())
    } else if let Some(b) = probe.as_bool {
        CanonicalValue::Boolean(b)
    } else if let Some(bits) = probe.as_f64_bits {
        CanonicalValue::Float(bits)
    } else if let Some(v) = probe.as_i64 {
        CanonicalValue::Integer(v)
    } else {
        CanonicalValue::Null
    }
}

/// Coercion is a function of what the probes found: two cells whose probes
/// agree get the same value, a cell that no probe decodes gets `Null`, and
/// every other cell gets a value of the kind of its first successful probe.
pub proof fn lemma_coercion_deterministic_and_total(a: CellProbeView, b: CellProbeView)
    requires
        a == b,
    ensures
        coerce_spec(a) == coerce_spec(b),
        coerce_spec(a) is Null <==> matches_no_probe(a),
        a.as_i32 is Some ==> coerce_spec(a) == CanonicalView::Integer(a.as_i32->0 as int),
{
}

} // verus!
