//! The immutable recipe model.
//!
//! A `Recipe` holds an ordered malt bill, a batch volume, an optional
//! selected yeast and an ordered hop schedule. Every edit is a pure function
//! from the old value to a new one: the old value is never mutated, and every
//! field other than the edited one is carried over unchanged.

use vstd::prelude::*;
use vstd::pervasive::VecAdditionalExecFns;
use crate::catalog::Malt;
use crate::catalog::MaltView;
use crate::catalog::Yeast;
use crate::catalog::YeastView;
use crate::catalog::find_malt;
use crate::catalog::find_yeast;
use crate::catalog::malt_lookup;
use crate::catalog::yeast_lookup;
use crate::qty::Qty;
use crate::qty::SCALE;

verus! {

/// The mathematical content of one malt addition.
#[verifier::ext_equal]
pub struct MaltAdditionView {
    pub malt: MaltView,
    /// Mass in kilograms, in micro-units.
    pub mass: int,
}

/// The mathematical content of one hop addition.
#[verifier::ext_equal]
pub struct HopView {
    /// Alpha-acid fraction, in micro-units.
    pub alpha_acid: int,
    /// Mass in grams, in micro-units.
    pub mass: int,
    /// Boil time in minutes, in micro-units.
    pub boil_time: int,
}

/// The mathematical content of a whole recipe.
#[verifier::ext_equal]
pub struct RecipeView {
    pub malts: Seq<MaltAdditionView>,
    /// Batch volume in liters, in micro-units.
    pub volume: int,
    pub yeast: Option<YeastView>,
    pub hops: Seq<HopView>,
}

/// A malt from the catalog paired with the mass added to the recipe.
#[derive(Debug)]
pub struct MaltAddition {
    pub(crate) malt: Malt,
    pub(crate) mass: Qty,
}

/// One hop addition: alpha-acid fraction, mass, and boil time.
#[derive(Clone, Copy, Debug)]
pub struct Hop {
    pub(crate) alpha_acid: Qty,
    pub(crate) mass: Qty,
    pub(crate) boil_time: Qty,
}

/// One recipe: malt bill, batch volume, optional yeast, hop schedule.
#[derive(Debug)]
pub struct Recipe {
    pub(crate) malts_in_recipe: Vec<MaltAddition>,
    pub(crate) volume: Qty,
    pub(crate) yeast: Option<Yeast>,
    pub(crate) hops: Vec<Hop>,
}

impl View for MaltAddition {
    type V = MaltAdditionView;

    closed spec fn view(&self) -> MaltAdditionView {
        MaltAdditionView { malt: self.malt@, mass: self.mass@ }
    }
}

impl View for Hop {
    type V = HopView;

    closed spec fn view(&self) -> HopView {
        HopView { alpha_acid: self.alpha_acid@, mass: self.mass@, boil_time: self.boil_time@ }
    }
}

/// The views of a sequence of malt additions.
pub open spec fn malt_addition_views(s: Seq<MaltAddition>) -> Seq<MaltAdditionView> {
    s.map_values(|m: MaltAddition| m@)
}

/// The views of a sequence of hop additions.
pub open spec fn hop_views(s: Seq<Hop>) -> Seq<HopView> {
    s.map_values(|h: Hop| h@)
}

impl View for Recipe {
    type V = RecipeView;

    closed spec fn view(&self) -> RecipeView {
        RecipeView {
            malts: malt_addition_views(self.malts_in_recipe@),
            volume: self.volume@,
            yeast: match self.yeast {
                Some(y) => Some(y@),
                None => None,
            },
            hops: hop_views(self.hops@),
        }
    }
}

impl Clone for MaltAddition {
    fn clone(&self) -> (r: Self)
        ensures
            r == *self,
    {
        MaltAddition { malt: self.malt.clone(), mass: self.mass }
    }
}

impl MaltAddition {
    /// The catalog malt this addition refers to.
    pub fn malt(&self) -> (r: &Malt)
        ensures
            r@ == self@.malt,
    {
        &self.malt
    }

    /// Mass in kilograms.
    pub fn mass(&self) -> (r: Qty)
        ensures
            r@ == self@.mass,
    {
        self.mass
    }
}

impl Hop {
    /// Alpha-acid fraction.
    pub fn alpha_acid(&self) -> (r: Qty)
        ensures
            r@ == self@.alpha_acid,
    {
        self.alpha_acid
    }

    /// Mass in grams.
    pub fn mass(&self) -> (r: Qty)
        ensures
            r@ == self@.mass,
    {
        self.mass
    }

    /// Boil time in minutes.
    pub fn boil_time(&self) -> (r: Qty)
        ensures
            r@ == self@.boil_time,
    {
        self.boil_time
    }
}

/// Duplicates a malt bill; the copy has the same view, element for element.
fn dup_malts(v: &Vec<MaltAddition>) -> (r: Vec<MaltAddition>)
    ensures
        r@ =~= v@,
{
    let r = v.clone();
    proof {
        assert forall|i: int| 0 <= i < v@.len() implies r@[i] == v@[i] by {
            assert(vstd::pervasive::cloned::<MaltAddition>(v@[i], r@[i]));
        }
    }
    r
}

/// Duplicates a hop schedule; the copy has the same view, element for
/// element.
fn dup_hops(v: &Vec<Hop>) -> (r: Vec<Hop>)
    ensures
        r@ =~= v@,
{
    let r = v.clone();
    proof {
        assert forall|i: int| 0 <= i < v@.len() implies r@[i] == v@[i] by {
            assert(vstd::pervasive::cloned::<Hop>(v@[i], r@[i]));
        }
    }
    r
}

/// Duplicates the selected yeast, if any; the copy has the same view.
fn dup_yeast(y: &Option<Yeast>) -> (r: Option<Yeast>)
    ensures
        r == *y,
{
    match y {
        Some(yeast) => Some(yeast.clone()),
        None => None,
    }
}

impl Recipe {
    /// A fresh recipe: 23 liter batch volume, no malts, no hops, no yeast.
    pub fn new() -> (r: Recipe)
        ensures
            r@.volume == 23 * SCALE,
            r@.malts == Seq::<MaltAdditionView>::empty(),
            r@.yeast is None,
            r@.hops == Seq::<HopView>::empty(),
    {
        let r = Recipe {
            malts_in_recipe: Vec::new(),
            volume: Qty::new_micros(23_000_000),
            yeast: None,
            hops: Vec::new(),
        };
        proof {
            assert(r@.malts =~= Seq::<MaltAdditionView>::empty());
            assert(r@.hops =~= Seq::<HopView>::empty());
        }
        r
    }

    /// Replaces the batch volume; everything else is carried over.
    pub fn set_volume(&self, value: Qty) -> (r: Recipe)
        ensures
            r@.volume == value@,
            r@.malts == self@.malts,
            r@.yeast == self@.yeast,
            r@.hops == self@.hops,
    {
        Recipe {
            malts_in_recipe: dup_malts(&self.malts_in_recipe),
            volume: value,
            yeast: dup_yeast(&self.yeast),
            hops: dup_hops(&self.hops),
        }
    }

    /// Replaces the mass of the malt addition at `index`; `None` exactly when
    /// `index` is out of range. Every other field is carried over.
    pub fn update_malt_mass(&self, index: usize, new_mass: Qty) -> (r: Option<Recipe>)
        ensures
            r is Some <==> index < self@.malts.len(),
            r is Some ==> {
                let updated = r->0@;
                &&& updated.malts == self@.malts.update(
                    index as int,
                    (MaltAdditionView { malt: self@.malts[index as int].malt, mass: new_mass@ }),
                )
                &&& updated.volume == self@.volume
                &&& updated.yeast == self@.yeast
                &&& updated.hops == self@.hops
            },
    {
        if index >= self.malts_in_recipe.len() {
            return None;
        }
        let mut malts = dup_malts(&self.malts_in_recipe);
        let replacement = MaltAddition { malt: malts[index].malt.clone(), mass: new_mass };
        malts.set(index, replacement);
        let r = Recipe {
            malts_in_recipe: malts,
            volume: self.volume,
            yeast: dup_yeast(&self.yeast),
            hops: dup_hops(&self.hops),
        };
        proof {
            assert(r@.malts =~= self@.malts.update(
                index as int,
                (MaltAdditionView { malt: self@.malts[index as int].malt, mass: new_mass@ }),
            ));
        }
        Some(r)
    }

    /// Looks the identifier up in the malt catalog: a hit appends one new
    /// addition of that malt with mass 0.0; a miss returns a value equal to
    /// the input (a no-op, not a failure).
    pub fn add_malt(&self, malt_id: String) -> (r: Recipe)
        ensures
            match malt_lookup(malt_id@) {
                None => r@ == self@,
                Some(m) => {
                    &&& r@.malts == self@.malts.push(
                        (MaltAdditionView { malt: m, mass: 0 }),
                    )
                    &&& r@.volume == self@.volume
                    &&& r@.yeast == self@.yeast
                    &&& r@.hops == self@.hops
                },
            },
    {
        let mut malts = dup_malts(&self.malts_in_recipe);
        match find_malt(&malt_id) {
            None => {
                let r = Recipe {
                    malts_in_recipe: malts,
                    volume: self.volume,
                    yeast: dup_yeast(&self.yeast),
                    hops: dup_hops(&self.hops),
                };
                proof {
                    assert(r@ =~= self@);
                }
                r
            },
            Some(found_malt) => {
                malts.push(MaltAddition { malt: found_malt, mass: Qty::new_micros(0) });
                let r = Recipe {
                    malts_in_recipe: malts,
                    volume: self.volume,
                    yeast: dup_yeast(&self.yeast),
                    hops: dup_hops(&self.hops),
                };
                proof {
                    assert(r@.malts =~= self@.malts.push(
                        (MaltAdditionView { malt: malt_lookup(malt_id@)->0, mass: 0 }),
                    ));
                }
                r
            },
        }
    }

    /// Appends a new hop addition with alpha-acid, mass and boil time all
    /// 0.0; everything else is carried over.
    pub fn add_hop(&self) -> (r: Recipe)
        ensures
            r@.hops == self@.hops.push((HopView { alpha_acid: 0, mass: 0, boil_time: 0 })),
            r@.malts == self@.malts,
            r@.volume == self@.volume,
            r@.yeast == self@.yeast,
    {
        let mut hops = dup_hops(&self.hops);
        hops.push(Hop {
            alpha_acid: Qty::new_micros(0),
            mass: Qty::new_micros(0),
            boil_time: Qty::new_micros(0),
        });
        let r = Recipe {
            malts_in_recipe: dup_malts(&self.malts_in_recipe),
            volume: self.volume,
            yeast: dup_yeast(&self.yeast),
            hops,
        };
        proof {
            assert(r@.hops =~= self@.hops.push(
                (HopView { alpha_acid: 0, mass: 0, boil_time: 0 }),
            ));
        }
        r
    }

    /// Replaces the mass of the hop addition at `index`; `None` exactly when
    /// `index` is out of range. Every other field is carried over.
    pub fn update_hop_mass(&self, index: usize, new_value: Qty) -> (r: Option<Recipe>)
        ensures
            r is Some <==> index < self@.hops.len(),
            r is Some ==> {
                let updated = r->0@;
                &&& updated.hops == self@.hops.update(
                    index as int,
                    (HopView { mass: new_value@, ..self@.hops[index as int] }),
                )
                &&& updated.malts == self@.malts
                &&& updated.volume == self@.volume
                &&& updated.yeast == self@.yeast
            },
    {
        if index >= self.hops.len() {
            return None;
        }
        let mut hops = dup_hops(&self.hops);
        let replacement = Hop { mass: new_value, ..hops[index] };
        hops.set(index, replacement);
        let r = Recipe {
            malts_in_recipe: dup_malts(&self.malts_in_recipe),
            volume: self.volume,
            yeast: dup_yeast(&self.yeast),
            hops,
        };
        proof {
            assert(r@.hops =~= self@.hops.update(
                index as int,
                (HopView { mass: new_value@, ..self@.hops[index as int] }),
            ));
        }
        Some(r)
    }

    /// Replaces the boil time of the hop addition at `index`; `None` exactly
    /// when `index` is out of range. Every other field is carried over.
    pub fn update_hop_boil(&self, index: usize, new_value: Qty) -> (r: Option<Recipe>)
        ensures
            r is Some <==> index < self@.hops.len(),
            r is Some ==> {
                let updated = r->0@;
                &&& updated.hops == self@.hops.update(
                    index as int,
                    (HopView { boil_time: new_value@, ..self@.hops[index as int] }),
                )
                &&& updated.malts == self@.malts
                &&& updated.volume == self@.volume
                &&& updated.yeast == self@.yeast
            },
    {
        if index >= self.hops.len() {
            return None;
        }
        let mut hops = dup_hops(&self.hops);
        let replacement = Hop { boil_time: new_value, ..hops[index] };
        hops.set(index, replacement);
        let r = Recipe {
            malts_in_recipe: dup_malts(&self.malts_in_recipe),
            volume: self.volume,
            yeast: dup_yeast(&self.yeast),
            hops,
        };
        proof {
            assert(r@.hops =~= self@.hops.update(
                index as int,
                (HopView { boil_time: new_value@, ..self@.hops[index as int] }),
            ));
        }
        Some(r)
    }

    /// Replaces the alpha-acid fraction of the hop addition at `index`;
    /// `None` exactly when `index` is out of range. Every other field is
    /// carried over.
    pub fn update_hop_alpha_acid(&self, index: usize, new_value: Qty) -> (r: Option<Recipe>)
        ensures
            r is Some <==> index < self@.hops.len(),
            r is Some ==> {
                let updated = r->0@;
                &&& updated.hops == self@.hops.update(
                    index as int,
                    (HopView { alpha_acid: new_value@, ..self@.hops[index as int] }),
                )
                &&& updated.malts == self@.malts
                &&& updated.volume == self@.volume
                &&& updated.yeast == self@.yeast
            },
    {
        if index >= self.hops.len() {
            return None;
        }
        let mut hops = dup_hops(&self.hops);
        let replacement = Hop { alpha_acid: new_value, ..hops[index] };
        hops.set(index, replacement);
        let r = Recipe {
            malts_in_recipe: dup_malts(&self.malts_in_recipe),
            volume: self.volume,
            yeast: dup_yeast(&self.yeast),
            hops,
        };
        proof {
            assert(r@.hops =~= self@.hops.update(
                index as int,
                (HopView { alpha_acid: new_value@, ..self@.hops[index as int] }),
            ));
        }
        Some(r)
    }

    /// Looks the identifier up in the yeast catalog: a hit selects that
    /// strain; a miss leaves the previous selection unchanged (still none if
    /// none was selected).
    pub fn change_yeast(&self, yeast_id: String) -> (r: Recipe)
        ensures
            match yeast_lookup(yeast_id@) {
                None => r@ == self@,
                Some(y) => {
                    &&& r@.yeast == Some(y)
                    &&& r@.malts == self@.malts
                    &&& r@.volume == self@.volume
                    &&& r@.hops == self@.hops
                },
            },
    {
        let malts = dup_malts(&self.malts_in_recipe);
        match find_yeast(&yeast_id) {
            None => {
                let r = Recipe {
                    malts_in_recipe: malts,
                    volume: self.volume,
                    yeast: dup_yeast(&self.yeast),
                    hops: dup_hops(&self.hops),
                };
                proof {
                    assert(r@ =~= self@);
                }
                r
            },
            Some(found_yeast) => {
                Recipe {
                    malts_in_recipe: malts,
                    volume: self.volume,
                    yeast: Some(found_yeast),
                    hops: dup_hops(&self.hops),
                }
            },
        }
    }

    /// Batch volume in liters.
    pub fn volume(&self) -> (r: Qty)
        ensures
            r@ == self@.volume,
    {
        self.volume
    }

    /// The selected yeast strain, if any.
    pub fn yeast(&self) -> (r: Option<Yeast>)
        ensures
            match r {
                Some(y) => self@.yeast == Some(y@),
                None => self@.yeast is None,
            },
    {
        dup_yeast(&self.yeast)
    }

    /// Number of malt additions.
    pub fn malt_count(&self) -> (r: usize)
        ensures
            r == self@.malts.len(),
    {
        self.malts_in_recipe.len()
    }

    /// The malt addition at `index`; `None` exactly when out of range.
    pub fn malt_addition(&self, index: usize) -> (r: Option<&MaltAddition>)
        ensures
            r is Some <==> index < self@.malts.len(),
            r is Some ==> r->0@ == self@.malts[index as int],
    {
        if index < self.malts_in_recipe.len() {
            Some(&self.malts_in_recipe[index])
        } else {
            None
        }
    }

    /// Number of hop additions.
    pub fn hop_count(&self) -> (r: usize)
        ensures
            r == self@.hops.len(),
    {
        self.hops.len()
    }

    /// The hop addition at `index`; `None` exactly when out of range.
    pub fn hop_addition(&self, index: usize) -> (r: Option<&Hop>)
        ensures
            r is Some <==> index < self@.hops.len(),
            r is Some ==> r->0@ == self@.hops[index as int],
    {
        if index < self.hops.len() {
            Some(&self.hops[index])
        } else {
            None
        }
    }
}

} // verus!
