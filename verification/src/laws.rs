//! General properties of the metric formulas, proved once for every recipe
//! and equipment value.

use vstd::prelude::*;
use crate::equipment::EquipmentView;
use crate::metrics::fg_den;
use crate::metrics::fg_num;
use crate::metrics::og_den;
use crate::metrics::og_num;
use crate::metrics::yield_sum;
use crate::qty::SCALE;
use crate::recipe::MaltAdditionView;
use crate::recipe::RecipeView;
use crate::catalog::YeastView;

verus! {

proof fn lemma_yield_sum_nonneg(s: Seq<MaltAdditionView>)
    requires
        forall|i: int| 0 <= i < s.len() ==> s[i].mass >= 0 && s[i].malt.max_yield >= 0,
    ensures
        yield_sum(s) >= 0,
    decreases s.len(),
{
    if s.len() > 0 {
        lemma_yield_sum_nonneg(s.drop_last());
        assert(s.last().malt.max_yield * s.last().mass >= 0) by (nonlinear_arith)
            requires
                s.last().malt.max_yield >= 0,
                s.last().mass >= 0,
        ;
    }
}

/// The original gravity is at least 1.000 whenever the batch volume is
/// positive and every malt mass, every max-yield coefficient and the
/// brewhouse efficiency are non-negative: as a rational, the numerator is at
/// least the (positive) denominator. A negative volume is left out: with a
/// positive yield over it the gravity would drop below 1.000.
pub proof fn law_og_at_least_one(r: RecipeView, e: EquipmentView)
    requires
        r.volume > 0,
        e.efficiency >= 0,
        forall|i: int| 0 <= i < r.malts.len() ==> r.malts[i].mass >= 0
            && r.malts[i].malt.max_yield >= 0,
    ensures
        og_den(r) > 0,
        og_num(r, e) >= og_den(r),
{
    lemma_yield_sum_nonneg(r.malts);
    assert(e.efficiency * yield_sum(r.malts) >= 0) by (nonlinear_arith)
        requires
            e.efficiency >= 0,
            yield_sum(r.malts) >= 0,
    ;
}

/// Without a selected yeast the final gravity is the original gravity,
/// exactly: numerator and denominator agree.
pub proof fn law_fg_matches_og_without_yeast(r: RecipeView, e: EquipmentView)
    requires
        r.yeast is None,
    ensures
        fg_num(r, e) == og_num(r, e),
        fg_den(r, e) == og_den(r),
{
}

/// With a selected yeast of attenuation `a` (in micro-units), the final
/// gravity is exactly `OG - (a / SCALE) * (OG - 1)`: over the common
/// denominator `SCALE * og_den`, the numerator is
/// `SCALE * og_num - a * (og_num - og_den)`.
pub proof fn law_fg_attenuation(r: RecipeView, e: EquipmentView, y: YeastView)
    requires
        r.yeast == Some(y),
    ensures
        fg_den(r, e) == SCALE * og_den(r),
        fg_num(r, e) == SCALE * og_num(r, e) - y.attenuation * (og_num(r, e) - og_den(r)),
{
    let ys = e.efficiency * yield_sum(r.malts);
    assert((SCALE - y.attenuation) * ys == SCALE * ys - y.attenuation * ys) by (nonlinear_arith);
    assert(SCALE * og_num(r, e) == SCALE * og_den(r) + SCALE * ys) by (nonlinear_arith)
        requires
            og_num(r, e) == og_den(r) + ys,
    ;
}

} // verus!
