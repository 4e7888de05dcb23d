//! The immutable equipment model: brewhouse efficiency.

use vstd::prelude::*;
use crate::qty::Qty;

verus! {

/// The mathematical content of an `Equipment` value.
#[verifier::ext_equal]
pub struct EquipmentView {
    /// Brewhouse efficiency fraction, in micro-units.
    pub efficiency: int,
}

/// Brewhouse equipment: just its efficiency fraction.
#[derive(Clone, Copy, Debug)]
pub struct Equipment {
    efficiency: Qty,
}

impl View for Equipment {
    type V = EquipmentView;

    closed spec fn view(&self) -> EquipmentView {
        EquipmentView { efficiency: self.efficiency@ }
    }
}

impl Equipment {
    /// Fresh equipment with the default efficiency of 0.7.
    pub fn new() -> (r: Equipment)
        ensures
            r@.efficiency == 700_000,
    {
        Equipment { efficiency: Qty::new_micros(700_000) }
    }

    /// Replaces the efficiency; no clamping is applied.
    pub fn set_efficiency(&self, value: Qty) -> (r: Equipment)
        ensures
            r@.efficiency == value@,
    {
        Equipment { efficiency: value }
    }

    /// Brewhouse efficiency fraction.
    pub fn efficiency(&self) -> (r: Qty)
        ensures
            r@ == self@.efficiency,
    {
        self.efficiency
    }
}

} // verus!
