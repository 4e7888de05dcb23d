//! The ingredient catalog: static registries of malts and yeast strains.
//!
//! The registries are fixed at build time and returned in declaration order.
//! Lookups are exact string matches on the identifier; the first match wins,
//! and a miss is reported as `None` (callers treat it as a no-op).

use vstd::prelude::*;
use crate::qty::Qty;
use crate::qty::SCALE;

verus! {

/// The mathematical content of a `Malt` catalog entry.
#[verifier::ext_equal]
pub struct MaltView {
    pub id: Seq<char>,
    pub name: Seq<char>,
    /// Max-yield coefficient (points per kg per liter), in micro-units.
    pub max_yield: int,
    /// Color contribution (Lovibond), in micro-units.
    pub color: int,
}

/// The mathematical content of a `Yeast` catalog entry.
#[verifier::ext_equal]
pub struct YeastView {
    pub id: Seq<char>,
    pub name: Seq<char>,
    /// Attenuation fraction, in micro-units; between 0 and `SCALE`.
    pub attenuation: int,
}

/// A malt sort from the catalog.
#[derive(Debug)]
pub struct Malt {
    id: String,
    name: String,
    max_yield: Qty,
    color: Qty,
}

/// A yeast strain from the catalog.
#[derive(Debug)]
pub struct Yeast {
    id: String,
    name: String,
    attenuation: Qty,
}

impl View for Malt {
    type V = MaltView;

    closed spec fn view(&self) -> MaltView {
        MaltView {
            id: self.id@,
            name: self.name@,
            max_yield: self.max_yield@,
            color: self.color@,
        }
    }
}

impl View for Yeast {
    type V = YeastView;

    closed spec fn view(&self) -> YeastView {
        YeastView { id: self.id@, name: self.name@, attenuation: self.attenuation@ }
    }
}

impl Clone for Malt {
    fn clone(&self) -> (r: Self)
        ensures
            r == *self,
    {
        Malt {
            id: self.id.clone(),
            name: self.name.clone(),
            max_yield: self.max_yield,
            color: self.color,
        }
    }
}

impl Malt {
    /// Identifier, unique within the catalog.
    pub fn id(&self) -> (r: &String)
        ensures
            r@ == self@.id,
    {
        &self.id
    }

    /// Display name.
    pub fn name(&self) -> (r: &String)
        ensures
            r@ == self@.name,
    {
        &self.name
    }

    /// Max-yield coefficient (points per kg per liter).
    pub fn max_yield(&self) -> (r: Qty)
        ensures
            r@ == self@.max_yield,
    {
        self.max_yield
    }

    /// Color contribution (Lovibond).
    pub fn color(&self) -> (r: Qty)
        ensures
            r@ == self@.color,
    {
        self.color
    }
}

impl Yeast {
    /// Every yeast strain's attenuation is a fraction between 0 and 1.
    #[verifier::type_invariant]
    spec fn attenuation_is_fraction(self) -> bool {
        0 <= self.attenuation@ <= SCALE
    }

    /// Identifier, unique within the catalog.
    pub fn id(&self) -> (r: &String)
        ensures
            r@ == self@.id,
    {
        &self.id
    }

    /// Display name.
    pub fn name(&self) -> (r: &String)
        ensures
            r@ == self@.name,
    {
        &self.name
    }

    /// Attenuation fraction (of the gravity above 1.000 that fermentation
    /// consumes); always between 0 and 1.
    pub fn attenuation(&self) -> (r: Qty)
        ensures
            r@ == self@.attenuation,
            0 <= r@ <= SCALE,
    {
        proof {
            use_type_invariant(self);
        }
        self.attenuation
    }
}

impl Clone for Yeast {
    fn clone(&self) -> (r: Self)
        ensures
            r == *self,
    {
        proof {
            use_type_invariant(self);
        }
        Yeast { id: self.id.clone(), name: self.name.clone(), attenuation: self.attenuation }
    }
}

/// The malt registry, in declaration order.
pub open spec fn malt_catalog() -> Seq<MaltView> {
    seq![
        MaltView {
            id: "2-row-barley"@,
            name: "2 Row Barley"@,
            max_yield: 370 * SCALE,
            color: 2 * SCALE,
        },
        MaltView {
            id: "munich"@,
            name: "Munich Malt"@,
            max_yield: 350 * SCALE,
            color: 10 * SCALE,
        },
    ]
}

/// The yeast registry, in declaration order.
pub open spec fn yeast_catalog() -> Seq<YeastView> {
    seq![
        YeastView { id: "w-34/70"@, name: "Saflager W-34/70"@, attenuation: 820_000 },
        YeastView { id: "k-97"@, name: "Safale K-97"@, attenuation: 820_000 },
    ]
}

/// The views of a sequence of malt entries.
pub open spec fn malt_views(s: Seq<Malt>) -> Seq<MaltView> {
    s.map_values(|m: Malt| m@)
}

/// The views of a sequence of yeast entries.
pub open spec fn yeast_views(s: Seq<Yeast>) -> Seq<YeastView> {
    s.map_values(|y: Yeast| y@)
}

/// First catalog malt whose identifier is `id`, if any.
pub open spec fn find_malt_in(s: Seq<MaltView>, id: Seq<char>) -> Option<MaltView>
    decreases s.len(),
{
    if s.len() == 0 {
        None
    } else if s[0].id == id {
        Some(s[0])
    } else {
        find_malt_in(s.drop_first(), id)
    }
}

/// First catalog yeast whose identifier is `id`, if any.
pub open spec fn find_yeast_in(s: Seq<YeastView>, id: Seq<char>) -> Option<YeastView>
    decreases s.len(),
{
    if s.len() == 0 {
        None
    } else if s[0].id == id {
        Some(s[0])
    } else {
        find_yeast_in(s.drop_first(), id)
    }
}

/// What a malt lookup against the full registry yields.
pub open spec fn malt_lookup(id: Seq<char>) -> Option<MaltView> {
    find_malt_in(malt_catalog(), id)
}

/// What a yeast lookup against the full registry yields.
pub open spec fn yeast_lookup(id: Seq<char>) -> Option<YeastView> {
    find_yeast_in(yeast_catalog(), id)
}

/// Catalog identifiers are unique: a lookup finds exactly one entry or none.
pub proof fn lemma_malt_ids_unique()
    ensures
        forall|i: int, j: int|
            0 <= i < j < malt_catalog().len() ==> malt_catalog()[i].id != malt_catalog()[j].id,
{
    reveal_strlit("2-row-barley");
    reveal_strlit("munich");
    assert(malt_catalog()[0].id.len() == 12);
    assert(malt_catalog()[1].id.len() == 6);
}

/// Catalog identifiers are unique: a lookup finds exactly one entry or none.
pub proof fn lemma_yeast_ids_unique()
    ensures
        forall|i: int, j: int|
            0 <= i < j < yeast_catalog().len() ==> yeast_catalog()[i].id != yeast_catalog()[j].id,
{
    reveal_strlit("w-34/70");
    reveal_strlit("k-97");
    assert(yeast_catalog()[0].id.len() == 7);
    assert(yeast_catalog()[1].id.len() == 4);
}

fn make_malt(id: &str, name: &str, max_yield: i64, color: i64) -> (r: Malt)
    requires
        0 <= max_yield <= crate::qty::QTY_LIMIT,
        0 <= color <= crate::qty::QTY_LIMIT,
    ensures
        r@ == (MaltView { id: id@, name: name@, max_yield: max_yield as int, color: color as int }),
{
    Malt {
        id: id.to_owned(),
        name: name.to_owned(),
        max_yield: Qty::new_micros(max_yield),
        color: Qty::new_micros(color),
    }
}

fn make_yeast(id: &str, name: &str, attenuation: i64) -> (r: Yeast)
    requires
        0 <= attenuation <= SCALE,
    ensures
        r@ == (YeastView { id: id@, name: name@, attenuation: attenuation as int }),
{
    Yeast {
        id: id.to_owned(),
        name: name.to_owned(),
        attenuation: Qty::new_micros(attenuation),
    }
}

/// The full malt registry, in fixed declaration order.
pub fn get_available_malts() -> (r: Vec<Malt>)
    ensures
        malt_views(r@) == malt_catalog(),
{
    let mut v: Vec<Malt> = Vec::new();
    v.push(make_malt("2-row-barley", "2 Row Barley", 370_000_000, 2_000_000));
    v.push(make_malt("munich", "Munich Malt", 350_000_000, 10_000_000));
    proof {
        assert(malt_views(v@) =~= malt_catalog());
    }
    v
}

/// The full yeast registry, in fixed declaration order.
pub fn get_available_yeasts() -> (r: Vec<Yeast>)
    ensures
        yeast_views(r@) == yeast_catalog(),
{
    let mut v: Vec<Yeast> = Vec::new();
    v.push(make_yeast("w-34/70", "Saflager W-34/70", 820_000));
    v.push(make_yeast("k-97", "Safale K-97", 820_000));
    proof {
        assert(yeast_views(v@) =~= yeast_catalog());
    }
    v
}

proof fn lemma_find_malt_hit(s: Seq<MaltView>, id: Seq<char>, i: int)
    requires
        0 <= i < s.len(),
        s[i].id == id,
        forall|j: int| 0 <= j < i ==> s[j].id != id,
    ensures
        find_malt_in(s, id) == Some(s[i]),
    decreases i,
{
    if i == 0 {
    } else {
        assert(s[0].id != id);
        lemma_find_malt_hit(s.drop_first(), id, i - 1);
    }
}

proof fn lemma_find_malt_miss(s: Seq<MaltView>, id: Seq<char>)
    requires
        forall|j: int| 0 <= j < s.len() ==> s[j].id != id,
    ensures
        find_malt_in(s, id) is None,
    decreases s.len(),
{
    if s.len() > 0 {
        lemma_find_malt_miss(s.drop_first(), id);
    }
}

proof fn lemma_find_yeast_hit(s: Seq<YeastView>, id: Seq<char>, i: int)
    requires
        0 <= i < s.len(),
        s[i].id == id,
        forall|j: int| 0 <= j < i ==> s[j].id != id,
    ensures
        find_yeast_in(s, id) == Some(s[i]),
    decreases i,
{
    if i == 0 {
    } else {
        assert(s[0].id != id);
        lemma_find_yeast_hit(s.drop_first(), id, i - 1);
    }
}

proof fn lemma_find_yeast_miss(s: Seq<YeastView>, id: Seq<char>)
    requires
        forall|j: int| 0 <= j < s.len() ==> s[j].id != id,
    ensures
        find_yeast_in(s, id) is None,
    decreases s.len(),
{
    if s.len() > 0 {
        lemma_find_yeast_miss(s.drop_first(), id);
    }
}

/// Looks up a malt by identifier: exact string match, first match wins.
pub fn find_malt(id: &String) -> (r: Option<Malt>)
    ensures
        match r {
            Some(m) => malt_lookup(id@) == Some(m@),
            None => malt_lookup(id@) is None,
        },
{
    let malts = get_available_malts();
    let mut i: usize = 0;
    while i < malts.len()
        invariant
            0 <= i <= malts.len(),
            malt_views(malts@) == malt_catalog(),
            forall|j: int| 0 <= j < i ==> malt_catalog()[j].id != id@,
        decreases malts.len() - i,
    {
        if *id == malts[i].id {
            proof {
                lemma_find_malt_hit(malt_catalog(), id@, i as int);
            }
            return Some(malts[i].clone());
        }
        i = i + 1;
    }
    proof {
        lemma_find_malt_miss(malt_catalog(), id@);
    }
    None
}

/// Looks up a yeast strain by identifier: exact string match, first match
/// wins.
pub fn find_yeast(id: &String) -> (r: Option<Yeast>)
    ensures
        match r {
            Some(y) => yeast_lookup(id@) == Some(y@),
            None => yeast_lookup(id@) is None,
        },
{
    let yeasts = get_available_yeasts();
    let mut i: usize = 0;
    while i < yeasts.len()
        invariant
            0 <= i <= yeasts.len(),
            yeast_views(yeasts@) == yeast_catalog(),
            forall|j: int| 0 <= j < i ==> yeast_catalog()[j].id != id@,
        decreases yeasts.len() - i,
    {
        if *id == yeasts[i].id {
            proof {
                lemma_find_yeast_hit(yeast_catalog(), id@, i as int);
            }
            return Some(yeasts[i].clone());
        }
        i = i + 1;
    }
    proof {
        lemma_find_yeast_miss(yeast_catalog(), id@);
    }
    None
}

} // verus!
