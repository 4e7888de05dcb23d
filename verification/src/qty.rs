//! Fixed-point scalar quantities.
//!
//! Every scalar the calculator works with (a mass in kilograms, a volume in
//! liters, an efficiency fraction, a boil time in minutes, ...) is stored as a
//! whole number of micro-units: `Qty` holds `micros`, and the value it stands
//! for is `micros / SCALE`. The magnitude is capped at `QTY_LIMIT` micros
//! (one thousand whole units), which keeps every intermediate product of the
//! metric formulas far inside `i128` range.

use vstd::prelude::*;

verus! {

/// Micro-units per whole unit: a `Qty` with `micros == SCALE` stands for 1.0.
pub const SCALE: i64 = 1_000_000;

/// Cap on the magnitude of a quantity, in micro-units (one thousand whole
/// units). Chosen so that the i128 arithmetic of the metric formulas can be
/// proved free of overflow for any recipe the model accepts.
pub const QTY_LIMIT: i64 = 1_000_000_000;

/// A scalar quantity in micro-units: the value is `micros / SCALE`.
#[derive(Clone, Copy, Debug)]
pub struct Qty {
    micros: i64,
}

impl View for Qty {
    type V = int;

    closed spec fn view(&self) -> int {
        self.micros as int
    }
}

impl Qty {
    #[verifier::type_invariant]
    spec fn bounded(self) -> bool {
        -QTY_LIMIT <= self.micros <= QTY_LIMIT
    }

    /// The quantity `micros / SCALE`; `None` when the magnitude is over
    /// `QTY_LIMIT` micros.
    pub fn from_micros(micros: i64) -> (r: Option<Qty>)
        ensures
            r is Some <==> -QTY_LIMIT <= micros <= QTY_LIMIT,
            r is Some ==> r->0@ == micros as int,
    {
        if -QTY_LIMIT <= micros && micros <= QTY_LIMIT {
            Some(Qty { micros })
        } else {
            None
        }
    }

    /// The number of micro-units this quantity stands for; always within
    /// `QTY_LIMIT` in magnitude.
    pub fn as_micros(&self) -> (r: i64)
        ensures
            r as int == self@,
            -QTY_LIMIT <= r <= QTY_LIMIT,
    {
        proof {
            use_type_invariant(self);
        }
        self.micros
    }

    /// Constructor for values the library itself knows to be in range.
    pub(crate) fn new_micros(micros: i64) -> (r: Qty)
        requires
            -QTY_LIMIT <= micros <= QTY_LIMIT,
        ensures
            r@ == micros as int,
    {
        Qty { micros }
    }
}

} // verus!
