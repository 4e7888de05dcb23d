//! Brewing-recipe calculator: an immutable recipe and equipment model with
//! catalog lookups and the standard derived metrics (original gravity, final
//! gravity, color, bitterness).
//!
//! Every scalar quantity (mass, volume, efficiency, ...) is held as a
//! fixed-point number of micro-units, and the derived metrics are returned as
//! exact rationals, so every formula here is proved as stated.

mod catalog;
mod equipment;
mod laws;
mod metrics;
mod qty;
mod recipe;
mod ratio;

pub use catalog::Malt;
pub use catalog::MaltView;
pub use catalog::Yeast;
pub use catalog::YeastView;
pub use catalog::find_malt;
pub use catalog::find_malt_in;
pub use catalog::find_yeast;
pub use catalog::find_yeast_in;
pub use catalog::get_available_malts;
pub use catalog::get_available_yeasts;
pub use catalog::lemma_malt_ids_unique;
pub use catalog::lemma_yeast_ids_unique;
pub use catalog::malt_catalog;
pub use catalog::malt_lookup;
pub use catalog::malt_views;
pub use catalog::yeast_catalog;
pub use catalog::yeast_lookup;
pub use catalog::yeast_views;
pub use equipment::Equipment;
pub use equipment::EquipmentView;
pub use laws::law_fg_attenuation;
pub use laws::law_fg_matches_og_without_yeast;
pub use laws::law_og_at_least_one;
pub use metrics::GRAVITY_FACTOR;
pub use metrics::MAX_ADDITIONS;
pub use metrics::SQUARE_SCALE;
pub use metrics::SRM_COEFFICIENT;
pub use metrics::bitter_sum;
pub use metrics::color_sum;
pub use metrics::fg_den;
pub use metrics::fg_num;
pub use metrics::get_bitterness;
pub use metrics::get_color;
pub use metrics::get_final_gravity;
pub use metrics::get_hop_bitterness;
pub use metrics::get_mcu;
pub use metrics::get_original_gravity;
pub use metrics::mcu_den;
pub use metrics::mcu_num;
pub use metrics::og_den;
pub use metrics::og_num;
pub use metrics::qty_views;
pub use metrics::yield_sum;
pub use qty::Qty;
pub use recipe::Hop;
pub use recipe::HopView;
pub use recipe::MaltAddition;
pub use recipe::MaltAdditionView;
pub use recipe::Recipe;
pub use recipe::RecipeView;
pub use recipe::hop_views;
pub use recipe::malt_addition_views;
pub use ratio::Ratio;
pub use ratio::RatioView;
pub use ratio::rat_is;
pub use qty::QTY_LIMIT;
pub use qty::SCALE;
