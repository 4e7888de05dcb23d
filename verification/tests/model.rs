use brewcalc::Qty;
use brewcalc::Recipe;
use brewcalc::find_malt;
use brewcalc::find_yeast;
use brewcalc::get_available_malts;
use brewcalc::get_available_yeasts;

fn qty(micros: i64) -> Qty {
    Qty::from_micros(micros).unwrap()
}

#[test]
fn qty_accepts_only_the_documented_range() {
    assert_eq!(Qty::from_micros(0).unwrap().as_micros(), 0);
    assert_eq!(Qty::from_micros(1_000_000_000).unwrap().as_micros(), 1_000_000_000);
    assert_eq!(Qty::from_micros(-1_000_000_000).unwrap().as_micros(), -1_000_000_000);
    assert!(Qty::from_micros(1_000_000_001).is_none());
    assert!(Qty::from_micros(-1_000_000_001).is_none());
}

#[test]
fn catalog_lists_two_malts_in_order() {
    let malts = get_available_malts();
    assert_eq!(malts.len(), 2);
    assert_eq!(malts[0].id().as_str(), "2-row-barley");
    assert_eq!(malts[0].name().as_str(), "2 Row Barley");
    assert_eq!(malts[0].max_yield().as_micros(), 370_000_000);
    assert_eq!(malts[0].color().as_micros(), 2_000_000);
    assert_eq!(malts[1].id().as_str(), "munich");
    assert_eq!(malts[1].name().as_str(), "Munich Malt");
    assert_eq!(malts[1].max_yield().as_micros(), 350_000_000);
    assert_eq!(malts[1].color().as_micros(), 10_000_000);
}

#[test]
fn catalog_lists_two_yeasts_in_order() {
    let yeasts = get_available_yeasts();
    assert_eq!(yeasts.len(), 2);
    assert_eq!(yeasts[0].id().as_str(), "w-34/70");
    assert_eq!(yeasts[0].name().as_str(), "Saflager W-34/70");
    assert_eq!(yeasts[0].attenuation().as_micros(), 820_000);
    assert_eq!(yeasts[1].id().as_str(), "k-97");
    assert_eq!(yeasts[1].name().as_str(), "Safale K-97");
    assert_eq!(yeasts[1].attenuation().as_micros(), 820_000);
}

#[test]
fn find_malt_hit_and_miss() {
    let hit = find_malt(&String::from("munich")).unwrap();
    assert_eq!(hit.name().as_str(), "Munich Malt");
    assert_eq!(hit.max_yield().as_micros(), 350_000_000);
    assert!(find_malt(&String::from("amber")).is_none());
    assert!(find_malt(&String::from("")).is_none());
}

#[test]
fn find_yeast_hit_and_miss() {
    let hit = find_yeast(&String::from("k-97")).unwrap();
    assert_eq!(hit.name().as_str(), "Safale K-97");
    assert!(find_yeast(&String::from("us-05")).is_none());
}

#[test]
fn new_recipe_has_the_documented_defaults() {
    let r = Recipe::new();
    assert_eq!(r.volume().as_micros(), 23_000_000);
    assert_eq!(r.malt_count(), 0);
    assert_eq!(r.hop_count(), 0);
    assert!(r.yeast().is_none());
}

#[test]
fn set_volume_replaces_only_the_volume() {
    let r = Recipe::new().add_malt(String::from("munich")).add_hop();
    let r2 = r.set_volume(qty(10_500_000));
    assert_eq!(r2.volume().as_micros(), 10_500_000);
    assert_eq!(r2.malt_count(), 1);
    assert_eq!(r2.malt_addition(0).unwrap().malt().id().as_str(), "munich");
    assert_eq!(r2.hop_count(), 1);
    assert!(r2.yeast().is_none());
    // the old value is untouched
    assert_eq!(r.volume().as_micros(), 23_000_000);
}

#[test]
fn add_malt_appends_a_zero_mass_addition() {
    let r = Recipe::new().add_malt(String::from("2-row-barley"));
    assert_eq!(r.malt_count(), 1);
    let a = r.malt_addition(0).unwrap();
    assert_eq!(a.mass().as_micros(), 0);
    assert_eq!(a.malt().id().as_str(), "2-row-barley");
    assert_eq!(a.malt().max_yield().as_micros(), 370_000_000);
    let r2 = r.add_malt(String::from("munich"));
    assert_eq!(r2.malt_count(), 2);
    assert_eq!(r2.malt_addition(1).unwrap().malt().id().as_str(), "munich");
}

#[test]
fn add_malt_with_unknown_id_is_a_no_op() {
    let r = Recipe::new()
        .add_malt(String::from("munich"))
        .set_volume(qty(20_000_000))
        .add_hop()
        .change_yeast(String::from("k-97"));
    let r2 = r.add_malt(String::from("pilsner"));
    assert_eq!(r2.malt_count(), 1);
    assert_eq!(r2.malt_addition(0).unwrap().malt().id().as_str(), "munich");
    assert_eq!(r2.malt_addition(0).unwrap().mass().as_micros(), 0);
    assert_eq!(r2.volume().as_micros(), 20_000_000);
    assert_eq!(r2.hop_count(), 1);
    assert_eq!(r2.yeast().unwrap().id().as_str(), "k-97");
}

#[test]
fn update_malt_mass_sets_exactly_that_mass() {
    let r = Recipe::new()
        .add_malt(String::from("2-row-barley"))
        .add_malt(String::from("munich"));
    let r2 = r.update_malt_mass(1, qty(5_000_000)).unwrap();
    assert_eq!(r2.malt_addition(1).unwrap().mass().as_micros(), 5_000_000);
    assert_eq!(r2.malt_addition(1).unwrap().malt().id().as_str(), "munich");
    // everything else is unchanged
    assert_eq!(r2.malt_addition(0).unwrap().mass().as_micros(), 0);
    assert_eq!(r2.malt_addition(0).unwrap().malt().id().as_str(), "2-row-barley");
    assert_eq!(r2.volume().as_micros(), 23_000_000);
    assert_eq!(r2.hop_count(), 0);
    assert!(r2.yeast().is_none());
    // and the input recipe kept its old mass
    assert_eq!(r.malt_addition(1).unwrap().mass().as_micros(), 0);
}

#[test]
fn update_malt_mass_out_of_range_fails() {
    let r = Recipe::new().add_malt(String::from("munich"));
    assert!(r.update_malt_mass(1, qty(1_000_000)).is_none());
    assert!(Recipe::new().update_malt_mass(0, qty(1_000_000)).is_none());
}

#[test]
fn add_hop_appends_a_zeroed_addition() {
    let r = Recipe::new().add_hop();
    assert_eq!(r.hop_count(), 1);
    let h = r.hop_addition(0).unwrap();
    assert_eq!(h.alpha_acid().as_micros(), 0);
    assert_eq!(h.mass().as_micros(), 0);
    assert_eq!(h.boil_time().as_micros(), 0);
}

#[test]
fn hop_updates_set_exactly_the_named_field() {
    let r = Recipe::new().add_hop().add_hop();
    let r2 = r
        .update_hop_mass(0, qty(20_000_000))
        .unwrap()
        .update_hop_alpha_acid(0, qty(50_000))
        .unwrap()
        .update_hop_boil(0, qty(60_000_000))
        .unwrap();
    let h = r2.hop_addition(0).unwrap();
    assert_eq!(h.mass().as_micros(), 20_000_000);
    assert_eq!(h.alpha_acid().as_micros(), 50_000);
    assert_eq!(h.boil_time().as_micros(), 60_000_000);
    let other = r2.hop_addition(1).unwrap();
    assert_eq!(other.mass().as_micros(), 0);
    assert_eq!(other.alpha_acid().as_micros(), 0);
    assert_eq!(other.boil_time().as_micros(), 0);
    assert_eq!(r2.malt_count(), 0);
    assert_eq!(r2.volume().as_micros(), 23_000_000);
}

#[test]
fn hop_updates_out_of_range_fail() {
    let r = Recipe::new().add_hop();
    assert!(r.update_hop_mass(1, qty(1)).is_none());
    assert!(r.update_hop_alpha_acid(1, qty(1)).is_none());
    assert!(r.update_hop_boil(1, qty(1)).is_none());
}

#[test]
fn change_yeast_selects_a_known_strain() {
    let r = Recipe::new().change_yeast(String::from("w-34/70"));
    let y = r.yeast().unwrap();
    assert_eq!(y.id().as_str(), "w-34/70");
    assert_eq!(y.name().as_str(), "Saflager W-34/70");
    assert_eq!(y.attenuation().as_micros(), 820_000);
}

#[test]
fn change_yeast_with_unknown_id_keeps_the_selection() {
    let none_before = Recipe::new().change_yeast(String::from("nottingham"));
    assert!(none_before.yeast().is_none());
    let selected = Recipe::new().change_yeast(String::from("w-34/70"));
    let after = selected.change_yeast(String::from("nottingham"));
    let y = after.yeast().unwrap();
    assert_eq!(y.id().as_str(), "w-34/70");
    assert_eq!(y.name().as_str(), "Saflager W-34/70");
    assert_eq!(y.attenuation().as_micros(), 820_000);
}
