//! The metric engine: pure functions deriving the standard brewing numbers
//! from a recipe and its equipment.
//!
//! Each metric is an exact ratio of integers over the micro-unit fields of
//! the recipe. The two transcendental steps of the classic formulas (the
//! fractional power of the color estimate and the exponential utilization of
//! the bitterness estimate) cannot be computed in integer arithmetic; the
//! caller evaluates them and passes the result back in as a fixed-point
//! quantity, and everything around them is computed and proved here.

use vstd::prelude::*;
use crate::equipment::Equipment;
use crate::equipment::EquipmentView;
use crate::qty::Qty;
use crate::qty::SCALE;
use crate::ratio::Ratio;
use crate::ratio::rat_is;
use crate::recipe::Hop;
use crate::recipe::HopView;
use crate::recipe::MaltAdditionView;
use crate::recipe::Recipe;
use crate::recipe::RecipeView;

verus! {

/// Cap on how many malt or hop additions a metric call accepts; with more
/// the i128 intermediates of the formulas could no longer be proved in
/// range.
pub const MAX_ADDITIONS: usize = 10_000;

/// Denominator factor of the gravity formulas: dividing the yield by the
/// volume and by 1000 scales the micro-unit products by 1000 * SCALE * SCALE.
pub const GRAVITY_FACTOR: i128 = 1_000_000_000_000_000;

/// Denominator of the color and bitterness formulas: SCALE * SCALE.
pub const SQUARE_SCALE: i128 = 1_000_000_000_000;

/// Numerator factor of the Morey color formula, 6.53224 in micro-units.
pub const SRM_COEFFICIENT: i128 = 6_532_240;

/// Largest magnitude of a product of two quantities, in micro-units squared.
const TERM_BOUND: i128 = 1_000_000_000_000_000_000;

/// Largest magnitude of a product of three quantities.
const TRIPLE_BOUND: i128 = 1_000_000_000_000_000_000_000_000_000;

/// Largest magnitude of the efficiency-weighted yield sum.
const ET_BOUND: i128 = 10_000_000_000_000_000_000_000_000_000_000;

/// Largest magnitude of the attenuation-weighted term of the final gravity.
const FET_BOUND: i128 = 10_000_000_000_000_000_000_000_000_000_000_000_000;

/// Sum over the malt bill of max-yield times mass (micro-units squared).
pub open spec fn yield_sum(malts: Seq<MaltAdditionView>) -> int
    decreases malts.len(),
{
    if malts.len() == 0 {
        0
    } else {
        yield_sum(malts.drop_last()) + malts.last().malt.max_yield * malts.last().mass
    }
}

/// Sum over the malt bill of color times mass (micro-units squared).
pub open spec fn color_sum(malts: Seq<MaltAdditionView>) -> int
    decreases malts.len(),
{
    if malts.len() == 0 {
        0
    } else {
        color_sum(malts.drop_last()) + malts.last().malt.color * malts.last().mass
    }
}

/// Sum over the hop schedule of mass times alpha-acid times the matching
/// utilization (micro-units cubed).
pub open spec fn bitter_sum(hops: Seq<HopView>, utils: Seq<int>) -> int
    decreases hops.len(),
{
    if hops.len() == 0 || utils.len() == 0 {
        0
    } else {
        bitter_sum(hops.drop_last(), utils.drop_last()) + hops.last().mass
            * hops.last().alpha_acid * utils.last()
    }
}

/// The views of a sequence of fixed-point quantities.
pub open spec fn qty_views(s: Seq<Qty>) -> Seq<int> {
    s.map_values(|q: Qty| q@)
}

/// Denominator of the original gravity: 1000 * SCALE^2 times the volume.
pub open spec fn og_den(r: RecipeView) -> int {
    GRAVITY_FACTOR * r.volume
}

/// Numerator of the original gravity:
/// `OG = 1 + (efficiency * yield_sum / volume) / 1000`.
pub open spec fn og_num(r: RecipeView, e: EquipmentView) -> int {
    og_den(r) + e.efficiency * yield_sum(r.malts)
}

/// Denominator of the final gravity; carries an extra factor of SCALE when a
/// yeast is selected, for its attenuation fraction.
pub open spec fn fg_den(r: RecipeView, e: EquipmentView) -> int {
    match r.yeast {
        None => og_den(r),
        Some(_) => SCALE * og_den(r),
    }
}

/// Numerator of the final gravity: the original gravity unchanged without a
/// yeast, and `FG = OG - attenuation * (OG - 1)` with one.
pub open spec fn fg_num(r: RecipeView, e: EquipmentView) -> int {
    match r.yeast {
        None => og_num(r, e),
        Some(y) => SCALE * og_den(r) + (SCALE - y.attenuation) * (e.efficiency * yield_sum(
            r.malts,
        )),
    }
}

/// Numerator of the malt color units: the color-weighted mass sum.
pub open spec fn mcu_num(r: RecipeView) -> int {
    color_sum(r.malts)
}

/// Denominator of the malt color units: SCALE times the volume.
pub open spec fn mcu_den(r: RecipeView) -> int {
    SCALE * r.volume
}

proof fn lemma_yield_sum_take_step(s: Seq<MaltAdditionView>, i: int)
    requires
        0 <= i < s.len(),
    ensures
        yield_sum(s.take(i + 1)) == yield_sum(s.take(i)) + s[i].malt.max_yield * s[i].mass,
{
    assert(s.take(i + 1).drop_last() =~= s.take(i));
    assert(s.take(i + 1).last() == s[i]);
}

proof fn lemma_color_sum_take_step(s: Seq<MaltAdditionView>, i: int)
    requires
        0 <= i < s.len(),
    ensures
        color_sum(s.take(i + 1)) == color_sum(s.take(i)) + s[i].malt.color * s[i].mass,
{
    assert(s.take(i + 1).drop_last() =~= s.take(i));
    assert(s.take(i + 1).last() == s[i]);
}

proof fn lemma_bitter_sum_take_step(h: Seq<HopView>, u: Seq<int>, i: int)
    requires
        0 <= i < h.len(),
        h.len() == u.len(),
    ensures
        bitter_sum(h.take(i + 1), u.take(i + 1)) == bitter_sum(h.take(i), u.take(i)) + h[i].mass
            * h[i].alpha_acid * u[i],
{
    assert(h.take(i + 1).drop_last() =~= h.take(i));
    assert(u.take(i + 1).drop_last() =~= u.take(i));
    assert(h.take(i + 1).last() == h[i]);
    assert(u.take(i + 1).last() == u[i]);
}

/// The yield-weighted mass sum of the whole malt bill, exactly.
fn total_yield(recipe: &Recipe) -> (t: i128)
    requires
        recipe@.malts.len() <= MAX_ADDITIONS,
    ensures
        t == yield_sum(recipe@.malts),
        -(recipe@.malts.len() * TERM_BOUND) <= t <= recipe@.malts.len() * TERM_BOUND,
{
    let n = recipe.malt_count();
    let mut t: i128 = 0;
    let mut i: usize = 0;
    while i < n
        invariant
            n == recipe@.malts.len() <= MAX_ADDITIONS,
            0 <= i <= n,
            t == yield_sum(recipe@.malts.take(i as int)),
            -((i as int) * TERM_BOUND) <= t <= (i as int) * TERM_BOUND,
        decreases n - i,
    {
        let a = recipe.malt_addition(i).unwrap();
        let my = a.malt().max_yield().as_micros();
        let mass = a.mass().as_micros();
        proof {
            assert(-TERM_BOUND <= (my as int) * (mass as int) <= TERM_BOUND)
                by (nonlinear_arith)
                requires
                    -1_000_000_000 <= my <= 1_000_000_000,
                    -1_000_000_000 <= mass <= 1_000_000_000,
            ;
            lemma_yield_sum_take_step(recipe@.malts, i as int);
        }
        let term: i128 = (my as i128) * (mass as i128);
        t = t + term;
        i = i + 1;
    }
    proof {
        assert(recipe@.malts.take(n as int) =~= recipe@.malts);
    }
    t
}

/// The color-weighted mass sum of the whole malt bill, exactly.
fn total_color(recipe: &Recipe) -> (t: i128)
    requires
        recipe@.malts.len() <= MAX_ADDITIONS,
    ensures
        t == color_sum(recipe@.malts),
        -(recipe@.malts.len() * TERM_BOUND) <= t <= recipe@.malts.len() * TERM_BOUND,
{
    let n = recipe.malt_count();
    let mut t: i128 = 0;
    let mut i: usize = 0;
    while i < n
        invariant
            n == recipe@.malts.len() <= MAX_ADDITIONS,
            0 <= i <= n,
            t == color_sum(recipe@.malts.take(i as int)),
            -((i as int) * TERM_BOUND) <= t <= (i as int) * TERM_BOUND,
        decreases n - i,
    {
        let a = recipe.malt_addition(i).unwrap();
        let color = a.malt().color().as_micros();
        let mass = a.mass().as_micros();
        proof {
            assert(-TERM_BOUND <= (color as int) * (mass as int) <= TERM_BOUND)
                by (nonlinear_arith)
                requires
                    -1_000_000_000 <= color <= 1_000_000_000,
                    -1_000_000_000 <= mass <= 1_000_000_000,
            ;
            lemma_color_sum_take_step(recipe@.malts, i as int);
        }
        let term: i128 = (color as i128) * (mass as i128);
        t = t + term;
        i = i + 1;
    }
    proof {
        assert(recipe@.malts.take(n as int) =~= recipe@.malts);
    }
    t
}

/// Original gravity, `OG = 1 + (yield / volume) / 1000` with
/// `yield = sum of max_yield * efficiency * mass`, as the exact rational
/// `og_num / og_den`. `None` exactly when the volume is zero (the formula
/// divides by it) or the malt bill is over `MAX_ADDITIONS` entries.
pub fn get_original_gravity(recipe: &Recipe, equipment: &Equipment) -> (r: Option<Ratio>)
    ensures
        r is Some <==> recipe@.volume != 0 && recipe@.malts.len() <= MAX_ADDITIONS,
        r is Some ==> rat_is(r->0@, og_num(recipe@, equipment@), og_den(recipe@)),
{
    if recipe.malt_count() > MAX_ADDITIONS {
        return None;
    }
    let hv = recipe.volume().as_micros();
    if hv == 0 {
        return None;
    }
    let t = total_yield(recipe);
    let e = equipment.efficiency().as_micros();
    proof {
        assert(-ET_BOUND <= (e as int) * (t as int) <= ET_BOUND) by (nonlinear_arith)
            requires
                -1_000_000_000 <= e <= 1_000_000_000,
                -10_000 * TERM_BOUND <= t <= 10_000 * TERM_BOUND,
        ;
    }
    let et: i128 = (e as i128) * t;
    let d: i128 = GRAVITY_FACTOR * (hv as i128);
    Some(Ratio::make(d + et, d))
}

/// Final gravity: the original gravity when no yeast is selected, and
/// `FG = OG - attenuation * (OG - 1)` when one is, as the exact rational
/// `fg_num / fg_den`. `None` exactly when the volume is zero or the malt
/// bill is over `MAX_ADDITIONS` entries.
pub fn get_final_gravity(recipe: &Recipe, equipment: &Equipment) -> (r: Option<Ratio>)
    ensures
        r is Some <==> recipe@.volume != 0 && recipe@.malts.len() <= MAX_ADDITIONS,
        r is Some ==> rat_is(r->0@, fg_num(recipe@, equipment@), fg_den(recipe@, equipment@)),
{
    if recipe.malt_count() > MAX_ADDITIONS {
        return None;
    }
    let hv = recipe.volume().as_micros();
    if hv == 0 {
        return None;
    }
    let t = total_yield(recipe);
    let e = equipment.efficiency().as_micros();
    proof {
        assert(-ET_BOUND <= (e as int) * (t as int) <= ET_BOUND) by (nonlinear_arith)
            requires
                -1_000_000_000 <= e <= 1_000_000_000,
                -10_000 * TERM_BOUND <= t <= 10_000 * TERM_BOUND,
        ;
    }
    let et: i128 = (e as i128) * t;
    let d: i128 = GRAVITY_FACTOR * (hv as i128);
    match recipe.yeast() {
        None => Some(Ratio::make(d + et, d)),
        Some(y) => {
            let att = y.attenuation().as_micros();
            let factor: i128 = (SCALE - att) as i128;
            proof {
                assert(-FET_BOUND <= (factor as int) * (et as int) <= FET_BOUND)
                    by (nonlinear_arith)
                    requires
                        0 <= factor <= 1_000_000,
                        -ET_BOUND <= et <= ET_BOUND,
                ;
            }
            let fet: i128 = factor * et;
            let num: i128 = (SCALE as i128) * d + fet;
            let den: i128 = (SCALE as i128) * d;
            Some(Ratio::make(num, den))
        },
    }
}

/// Malt color units, `mcu = sum of color * mass / volume`, as the exact
/// rational `mcu_num / mcu_den`. `None` exactly when the volume is zero or
/// the malt bill is over `MAX_ADDITIONS` entries. The caller raises this to
/// the power 0.6959 before handing it to `get_color`.
pub fn get_mcu(recipe: &Recipe) -> (r: Option<Ratio>)
    ensures
        r is Some <==> recipe@.volume != 0 && recipe@.malts.len() <= MAX_ADDITIONS,
        r is Some ==> rat_is(r->0@, mcu_num(recipe@), mcu_den(recipe@)),
{
    if recipe.malt_count() > MAX_ADDITIONS {
        return None;
    }
    let hv = recipe.volume().as_micros();
    if hv == 0 {
        return None;
    }
    let c = total_color(recipe);
    let d: i128 = 1_000_000 * (hv as i128);
    proof {
        assert(d == SCALE * recipe@.volume);
    }
    Some(Ratio::make(c, d))
}

/// Color in SRM by the Morey formula, `SRM = 6.53224 * mcu^0.6959`, given
/// the already-raised power `mcu_power = mcu^0.6959` as a fixed-point
/// quantity (the fractional power is not computable in integer arithmetic,
/// so the caller evaluates it from `get_mcu`'s result).
pub fn get_color(mcu_power: Qty) -> (r: Ratio)
    ensures
        rat_is(r@, SRM_COEFFICIENT * mcu_power@, SQUARE_SCALE as int),
{
    let p = mcu_power.as_micros();
    Ratio::make(SRM_COEFFICIENT * (p as i128), SQUARE_SCALE)
}

/// One hop addition's bitterness contribution,
/// `aau * utilization * 11 / volume` with `aau = mass * alpha_acid`, as an
/// exact rational. The Tinseth utilization is exponential in gravity and
/// boil time, so the caller evaluates it and passes it in. `None` exactly
/// when the volume is zero.
pub fn get_hop_bitterness(hop: &Hop, utilization: Qty, volume: Qty) -> (r: Option<Ratio>)
    ensures
        r is Some <==> volume@ != 0,
        r is Some ==> rat_is(
            r->0@,
            11 * (hop@.mass * hop@.alpha_acid * utilization@),
            SQUARE_SCALE * volume@,
        ),
{
    let hv = volume.as_micros();
    if hv == 0 {
        return None;
    }
    let hm = hop.mass().as_micros();
    let ha = hop.alpha_acid().as_micros();
    let hu = utilization.as_micros();
    proof {
        assert(-TRIPLE_BOUND <= (hm as int) * (ha as int) * (hu as int) <= TRIPLE_BOUND
            && -TERM_BOUND <= (hm as int) * (ha as int) <= TERM_BOUND)
            by (nonlinear_arith)
            requires
                -1_000_000_000 <= hm <= 1_000_000_000,
                -1_000_000_000 <= ha <= 1_000_000_000,
                -1_000_000_000 <= hu <= 1_000_000_000,
        ;
    }
    let aau: i128 = (hm as i128) * (ha as i128);
    let num: i128 = 11 * (aau * (hu as i128));
    let den: i128 = SQUARE_SCALE * (hv as i128);
    Some(Ratio::make(num, den))
}

/// Total bitterness in IBU: the sum over the hop schedule of
/// `mass * alpha_acid * utilization * 11 / volume`, as the exact rational
/// `11 * bitter_sum / (SCALE^2 * volume)`. The caller supplies one Tinseth
/// utilization per hop (exponential in gravity and boil time, so not
/// computable here). `None` exactly when the volume is zero, the utilization
/// list does not match the hop schedule, or the schedule is over
/// `MAX_ADDITIONS` entries.
pub fn get_bitterness(recipe: &Recipe, utilizations: &Vec<Qty>) -> (r: Option<Ratio>)
    ensures
        r is Some <==> recipe@.volume != 0 && recipe@.hops.len() <= MAX_ADDITIONS
            && utilizations@.len() == recipe@.hops.len(),
        r is Some ==> rat_is(
            r->0@,
            11 * bitter_sum(recipe@.hops, qty_views(utilizations@)),
            SQUARE_SCALE * recipe@.volume,
        ),
{
    let n = recipe.hop_count();
    if n > MAX_ADDITIONS || utilizations.len() != n {
        return None;
    }
    let hv = recipe.volume().as_micros();
    if hv == 0 {
        return None;
    }
    let mut t: i128 = 0;
    let mut i: usize = 0;
    while i < n
        invariant
            n == recipe@.hops.len() <= MAX_ADDITIONS,
            utilizations@.len() == n,
            0 <= i <= n,
            t == bitter_sum(recipe@.hops.take(i as int), qty_views(utilizations@).take(i as int)),
            -((i as int) * TRIPLE_BOUND) <= t <= (i as int) * TRIPLE_BOUND,
        decreases n - i,
    {
        let h = recipe.hop_addition(i).unwrap();
        let hm = h.mass().as_micros();
        let ha = h.alpha_acid().as_micros();
        let hu = utilizations[i].as_micros();
        proof {
            assert(-TRIPLE_BOUND <= (hm as int) * (ha as int) * (hu as int) <= TRIPLE_BOUND
                && -TERM_BOUND <= (hm as int) * (ha as int) <= TERM_BOUND)
                by (nonlinear_arith)
                requires
                    -1_000_000_000 <= hm <= 1_000_000_000,
                    -1_000_000_000 <= ha <= 1_000_000_000,
                    -1_000_000_000 <= hu <= 1_000_000_000,
            ;
            lemma_bitter_sum_take_step(recipe@.hops, qty_views(utilizations@), i as int);
            assert(qty_views(utilizations@)[i as int] == utilizations@[i as int]@);
        }
        let term: i128 = (hm as i128) * (ha as i128) * (hu as i128);
        t = t + term;
        i = i + 1;
    }
    proof {
        assert(recipe@.hops.take(n as int) =~= recipe@.hops);
        assert(qty_views(utilizations@).take(n as int) =~= qty_views(utilizations@));
    }
    let num: i128 = 11 * t;
    let den: i128 = SQUARE_SCALE * (hv as i128);
    Some(Ratio::make(num, den))
}

} // verus!
