use brewcalc::Equipment;
use brewcalc::Qty;
use brewcalc::Ratio;
use brewcalc::Recipe;
use brewcalc::get_bitterness;
use brewcalc::get_color;
use brewcalc::get_final_gravity;
use brewcalc::get_hop_bitterness;
use brewcalc::get_mcu;
use brewcalc::get_original_gravity;

fn qty(micros: i64) -> Qty {
    Qty::from_micros(micros).unwrap()
}

fn as_f64(r: &Ratio) -> f64 {
    r.num() as f64 / r.den() as f64
}

/// 23 liters, 5 kg of 2-row barley (max yield 370, color 2), efficiency 0.7.
fn sample_recipe() -> Recipe {
    Recipe::new()
        .add_malt(String::from("2-row-barley"))
        .update_malt_mass(0, qty(5_000_000))
        .unwrap()
}

#[test]
fn original_gravity_of_the_sample_recipe() {
    let r = sample_recipe();
    let e = Equipment::new();
    let og = get_original_gravity(&r, &e).unwrap();
    // yield = 370 * 0.7 * 5 = 1295; OG = 1 + (1295 / 23) / 1000, exactly
    assert_eq!(og.num(), 24_295_000_000_000_000_000_000);
    assert_eq!(og.den(), 23_000_000_000_000_000_000_000);
    assert!((as_f64(&og) - 1.056304347826087).abs() < 1e-12);
}

#[test]
fn original_gravity_of_an_empty_recipe_is_one() {
    let og = get_original_gravity(&Recipe::new(), &Equipment::new()).unwrap();
    assert_eq!(og.num(), og.den());
}

#[test]
fn original_gravity_scales_with_efficiency() {
    let r = sample_recipe();
    let full = Equipment::new().set_efficiency(qty(1_000_000));
    let og = get_original_gravity(&r, &full).unwrap();
    // yield = 370 * 1.0 * 5 = 1850; OG = 1 + (1850 / 23) / 1000
    assert!((as_f64(&og) - (1.0 + (1850.0 / 23.0) / 1000.0)).abs() < 1e-12);
}

#[test]
fn gravity_with_zero_volume_fails() {
    let r = sample_recipe().set_volume(qty(0));
    let e = Equipment::new();
    assert!(get_original_gravity(&r, &e).is_none());
    assert!(get_final_gravity(&r, &e).is_none());
    assert!(get_mcu(&r).is_none());
    assert!(get_bitterness(&r, &Vec::new()).is_none());
}

#[test]
fn original_gravity_is_at_least_one_for_nonnegative_inputs() {
    let e = Equipment::new();
    let empty = Recipe::new();
    let one = sample_recipe();
    let two = sample_recipe()
        .add_malt(String::from("munich"))
        .update_malt_mass(1, qty(2_500_000))
        .unwrap();
    for r in [&empty, &one, &two] {
        let og = get_original_gravity(r, &e).unwrap();
        assert!(og.num() >= og.den());
        assert!(as_f64(&og) >= 1.0);
    }
}

#[test]
fn final_gravity_without_yeast_equals_original_gravity() {
    let r = sample_recipe();
    let e = Equipment::new();
    let og = get_original_gravity(&r, &e).unwrap();
    let fg = get_final_gravity(&r, &e).unwrap();
    // equal as rationals: cross products agree
    assert_eq!(og.num() * fg.den(), fg.num() * og.den());
}

#[test]
fn final_gravity_of_the_sample_recipe_with_yeast() {
    let r = sample_recipe().change_yeast(String::from("w-34/70"));
    let e = Equipment::new();
    let fg = get_final_gravity(&r, &e).unwrap();
    // FG = OG - 0.82 * (OG - 1), with OG = 1.056304347826087
    assert!((as_f64(&fg) - 1.0101347826086957).abs() < 1e-12);
}

#[test]
fn final_gravity_follows_the_attenuation_formula_exactly() {
    let r = sample_recipe().change_yeast(String::from("w-34/70"));
    let e = Equipment::new();
    let og = get_original_gravity(&r, &e).unwrap();
    let fg = get_final_gravity(&r, &e).unwrap();
    // over the common denominator SCALE * og_den:
    // fg_num = SCALE * og_num - attenuation * (og_num - og_den)
    assert_eq!(fg.den(), 1_000_000 * og.den());
    assert_eq!(fg.num(), 1_000_000 * og.num() - 820_000 * (og.num() - og.den()));
}

#[test]
fn mcu_of_the_sample_recipe() {
    let r = sample_recipe();
    let mcu = get_mcu(&r).unwrap();
    // mcu = 2 * 5 / 23, exactly
    assert_eq!(mcu.num(), 10_000_000_000_000);
    assert_eq!(mcu.den(), 23_000_000_000_000);
    assert!((as_f64(&mcu) - 0.43478260869565216).abs() < 1e-12);
}

#[test]
fn color_applies_the_morey_coefficient() {
    let r = sample_recipe();
    let mcu = as_f64(&get_mcu(&r).unwrap());
    let power = mcu.powf(0.6959);
    let p = qty((power * 1e6).round() as i64);
    let srm = get_color(p);
    // SRM = 6.53224 * mcu^0.6959; the only rounding is the quantization of
    // the power to micro-units
    assert!((as_f64(&srm) - 6.53224 * power).abs() < 1e-5);
    assert!((as_f64(&srm) - 3.6587752416241424).abs() < 1e-4);
}

#[test]
fn color_of_zero_power_is_zero() {
    let srm = get_color(qty(0));
    assert_eq!(srm.num(), 0);
}

fn tinseth_utilization(gravity: f64, boil_minutes: f64) -> f64 {
    1.65 * 0.000125f64.powf(gravity - 1.0) * (1.0 - 2.71828f64.powf(-0.04 * boil_minutes)) / 4.15
}

#[test]
fn bitterness_of_a_single_hop_addition() {
    // 20 g at 5% alpha acid boiled 60 minutes in 23 liters, gravity 1.05
    let r = Recipe::new()
        .add_hop()
        .update_hop_mass(0, qty(20_000_000))
        .unwrap()
        .update_hop_alpha_acid(0, qty(50_000))
        .unwrap()
        .update_hop_boil(0, qty(60_000_000))
        .unwrap();
    let u = tinseth_utilization(1.05, 60.0);
    let u_micros = (u * 1e6).round() as i64;
    let ibu = get_bitterness(&r, &vec![qty(u_micros)]).unwrap();
    // contribution = mass * alpha * utilization * 11 / volume, exactly over
    // the quantized utilization
    let expected_exact = 20.0 * 0.05 * (u_micros as f64 / 1e6) * 11.0 / 23.0;
    assert!((as_f64(&ibu) - expected_exact).abs() < 1e-12);
    // and within quantization error of the full floating-point formula
    assert!((as_f64(&ibu) - 20.0 * 0.05 * u * 11.0 / 23.0).abs() < 1e-5);

    let single = get_hop_bitterness(
        r.hop_addition(0).unwrap(),
        qty(u_micros),
        r.volume(),
    )
    .unwrap();
    assert_eq!(single.num() * ibu.den(), ibu.num() * single.den());
}

#[test]
fn bitterness_sums_over_the_hop_schedule() {
    let r = Recipe::new()
        .add_hop()
        .update_hop_mass(0, qty(20_000_000))
        .unwrap()
        .update_hop_alpha_acid(0, qty(50_000))
        .unwrap()
        .add_hop()
        .update_hop_mass(1, qty(10_000_000))
        .unwrap()
        .update_hop_alpha_acid(1, qty(100_000))
        .unwrap();
    let ibu = get_bitterness(&r, &vec![qty(200_000), qty(100_000)]).unwrap();
    // 20*0.05*0.2*11/23 + 10*0.1*0.1*11/23
    let expected = (20.0 * 0.05 * 0.2 + 10.0 * 0.1 * 0.1) * 11.0 / 23.0;
    assert!((as_f64(&ibu) - expected).abs() < 1e-12);
}

#[test]
fn bitterness_of_an_empty_schedule_is_zero() {
    let ibu = get_bitterness(&Recipe::new(), &Vec::new()).unwrap();
    assert_eq!(ibu.num(), 0);
}

#[test]
fn bitterness_with_mismatched_utilizations_fails() {
    let r = Recipe::new().add_hop();
    assert!(get_bitterness(&r, &Vec::new()).is_none());
    assert!(get_bitterness(&Recipe::new(), &vec![qty(100_000)]).is_none());
}
