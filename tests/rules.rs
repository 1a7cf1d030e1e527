use african_lca_backend::adjustments::{
    climate_adjustment_key, facility_factors, management_factors, production_system_permille, regional_water_scarcity_key,
    seasonal_adjustment_key,
};
use african_lca_backend::categories::{
    impact_categories, impact_unit, processing_impact_categories, processing_impact_unit,
};
use african_lca_backend::inventory::{
    aware_region, conservation_discount_permille, fertilizer_kind, fuel_kind,
    grid_co2_permille_per_kwh, gwp_factor, inventory_key, irrigation_m3_per_ha, is_grid_electricity,
    is_rice_crop, merge_provenance, msa_loss_permille, AwareRegion, EnvironmentalCompartment,
    FertilizerKind, FuelKind, GWP_CH4, GWP_N2O, M2_PER_HA, RICE_CH4_KG_PER_HA,
};
use african_lca_backend::models::{
    ConfidenceLevel, Country, FoodCategory, ProductionSystem, SeasonalFactor, WeightingMethod,
};
use african_lca_backend::pedigree::PedigreeScore;
use african_lca_backend::processing_models::{EquipmentAge, LocationType, MaintenanceFrequency};
use african_lca_backend::quality::{
    classify_source, confidence_level, is_default_estimate, summarize_quality, weights_permille, FactorUse,
    SourceKind,
};
use african_lca_backend::text::{contains, is_blank, is_white_space_char, split_at_char, str_eq};

fn pedigree(a: u8, b: u8, c: u8, d: u8, e: u8) -> PedigreeScore {
    PedigreeScore {
        reliability: a,
        completeness: b,
        temporal_correlation: c,
        geographical_correlation: d,
        technological_correlation: e,
    }
}

#[test]
fn pedigree_quality_bounds() {
    assert_eq!(pedigree(1, 1, 1, 1, 1).quality_twentieths(), 20);
    assert_eq!(pedigree(5, 5, 5, 5, 5).quality_twentieths(), 0);
    assert_eq!(pedigree(2, 3, 1, 4, 2).axis_sum(), 12);
    assert_eq!(pedigree(2, 3, 1, 4, 2).quality_twentieths(), 13);
    assert_eq!(pedigree(1, 1, 1, 1, 1).quality_twentieths() as f64 / 20.0, 1.0);
}

#[test]
fn pedigree_quality_falls_with_any_axis() {
    let base = pedigree(2, 2, 2, 2, 2);
    let q = base.quality_twentieths();
    assert!(pedigree(3, 2, 2, 2, 2).quality_twentieths() < q);
    assert!(pedigree(2, 3, 2, 2, 2).quality_twentieths() < q);
    assert!(pedigree(2, 2, 3, 2, 2).quality_twentieths() < q);
    assert!(pedigree(2, 2, 2, 3, 2).quality_twentieths() < q);
    assert!(pedigree(2, 2, 2, 2, 3).quality_twentieths() < q);
}

#[test]
fn pedigree_validity_and_uncertainty_factors() {
    assert!(pedigree(1, 5, 3, 2, 4).check_valid());
    assert!(!pedigree(0, 5, 3, 2, 4).check_valid());
    assert!(!pedigree(1, 6, 3, 2, 4).check_valid());
    assert_eq!(pedigree(1, 5, 3, 2, 4).uncertainty_factors_e2(), [100, 120, 110, 101, 150]);
    assert_eq!(pedigree(5, 5, 5, 5, 5).uncertainty_factors_e2(), [150, 120, 150, 150, 200]);
    assert_eq!(pedigree(2, 2, 2, 2, 2).uncertainty_factors_e2(), [105, 102, 103, 101, 105]);
    assert_eq!(pedigree(1, 1, 1, 1, 1).uncertainty_factors_e2(), [100; 5]);
    assert_eq!(pedigree(2, 1, 1, 1, 1).uncertainty_factors_e2()[0] as f64 / 100.0, 1.05);
}

#[test]
fn urea_nitrogen_and_direct_n2o() {
    // 100 kg/ha of urea on 10 ha, once a season.
    let kind = fertilizer_kind("Urea");
    assert_eq!(kind, FertilizerKind::Urea);
    let fraction_n = kind.nitrogen_permille() as f64 / 1000.0;
    assert_eq!(fraction_n, 0.46);
    let n_applied = 100.0 * fraction_n * 10.0 * 1.0;
    assert!((n_applied - 460.0).abs() < 1e-9);
    let n2o_n = n_applied * 0.01;
    assert!((n2o_n - 4.6).abs() < 1e-9);
    let n2o = n2o_n * (44.0 / 28.0);
    assert!((n2o - 7.229).abs() < 1e-3);
}

#[test]
fn fertilizer_kinds() {
    assert_eq!(fertilizer_kind("DAP"), FertilizerKind::DiammoniumPhosphate);
    assert_eq!(fertilizer_kind("Diammonium Phosphate (DAP)"), FertilizerKind::DiammoniumPhosphate);
    assert_eq!(fertilizer_kind("NPK"), FertilizerKind::NpkCompound);
    assert_eq!(fertilizer_kind("NPK Compound"), FertilizerKind::NpkCompound);
    assert_eq!(fertilizer_kind("CAN"), FertilizerKind::CalciumAmmoniumNitrate);
    assert_eq!(fertilizer_kind("Ammonium Sulfate"), FertilizerKind::AmmoniumSulfate);
    assert_eq!(fertilizer_kind("Manure"), FertilizerKind::Other);
    assert_eq!(FertilizerKind::Other.nitrogen_permille(), 100);
    assert_eq!(FertilizerKind::NpkCompound.nitrogen_permille(), 150);
    assert_eq!(FertilizerKind::Urea.production_co2_permille(), 1200);
    assert_eq!(FertilizerKind::NpkCompound.production_co2_permille(), 1500);
    assert_eq!(FertilizerKind::DiammoniumPhosphate.production_co2_permille(), 1000);
    assert!(FertilizerKind::NpkCompound.depletes_minerals());
    assert!(!FertilizerKind::Urea.depletes_minerals());
}

#[test]
fn npk_ratios_split_into_three() {
    assert_eq!(split_at_char("15-15-15", '-'), vec!["15", "15", "15"]);
    assert_eq!(split_at_char("20-10-10", '-')[1], "10");
    assert_eq!(split_at_char("46", '-'), vec!["46"]);
    assert_eq!(split_at_char("", '-'), vec![""]);
    assert_eq!(split_at_char("a--b-", '-'), vec!["a", "", "b", ""]);
}

#[test]
fn rice_paddies_emit_methane() {
    assert!(is_rice_crop("Paddy Rice"));
    assert!(is_rice_crop("RICE"));
    assert!(is_rice_crop("brown rice"));
    assert!(!is_rice_crop("Maize"));
    assert_eq!(2.0 * RICE_CH4_KG_PER_HA as f64, 400.0);
}

#[test]
fn inventory_keys_and_provenance() {
    assert_eq!(inventory_key("Methane (CH4)", EnvironmentalCompartment::Air), "Methane (CH4)_Air");
    assert_eq!(inventory_key("Water", EnvironmentalCompartment::Resource), "Water_Resource");
    assert_eq!(merge_provenance("urea", "diesel"), "urea, diesel");
    assert_eq!(merge_provenance("a", "a"), "a, a");
    assert_eq!(M2_PER_HA, 10000);
    assert_eq!((GWP_N2O, GWP_CH4), (273, 28));
}

#[test]
fn fuels_grid_and_irrigation() {
    assert_eq!(fuel_kind("Diesel"), FuelKind::Diesel);
    assert_eq!(fuel_kind("Petrol/Gasoline"), FuelKind::Petrol);
    assert_eq!(fuel_kind("Kerosene"), FuelKind::Other);
    assert_eq!(FuelKind::Diesel.co2_permille_per_litre(), 2680);
    assert_eq!(FuelKind::Other.co2_permille_per_litre(), 2500);
    assert_eq!(grid_co2_permille_per_kwh(Country::Nigeria), 580);
    assert_eq!(grid_co2_permille_per_kwh(Country::Global), 500);
    assert!(is_grid_electricity("Grid power"));
    assert!(is_grid_electricity("Solar Electricity"));
    assert!(!is_grid_electricity("Diesel"));
    assert_eq!(irrigation_m3_per_ha(Some("Drip irrigation")), 3000);
    assert_eq!(irrigation_m3_per_ha(Some("Sprinkler System")), 5000);
    assert_eq!(irrigation_m3_per_ha(Some("Furrow irrigation")), 8000);
    assert_eq!(irrigation_m3_per_ha(Some("None (Rainfed)")), 0);
    assert_eq!(irrigation_m3_per_ha(None), 0);
    assert_eq!(irrigation_m3_per_ha(Some("Centre pivot")), 4000);
}

#[test]
fn water_scarcity_regions() {
    assert_eq!(aware_region(Country::Ghana, Some("Upper East")), AwareRegion::GhanaNorth);
    assert_eq!(aware_region(Country::Ghana, Some("Ashanti")), AwareRegion::GhanaSouth);
    assert_eq!(aware_region(Country::Ghana, None), AwareRegion::GhanaSouth);
    assert_eq!(aware_region(Country::Nigeria, Some("Kano State")), AwareRegion::NigeriaNorth);
    assert_eq!(aware_region(Country::Nigeria, Some("Lagos")), AwareRegion::NigeriaSouth);
    assert_eq!(aware_region(Country::Global, Some("Northern")), AwareRegion::Global);
    assert_eq!(AwareRegion::NigeriaNorth.factor(), 35);
    assert_eq!(AwareRegion::Global.factor(), 20);
}

#[test]
fn biodiversity_rates() {
    assert_eq!(msa_loss_permille(Some(ProductionSystem::Intensive)), 300);
    assert_eq!(msa_loss_permille(Some(ProductionSystem::Agroforestry)), 50);
    assert_eq!(msa_loss_permille(None), 250);
    assert_eq!(msa_loss_permille(Some(ProductionSystem::Rainfed)), 250);
    assert_eq!(conservation_discount_permille(Some(3)), 800);
    assert_eq!(conservation_discount_permille(Some(1)), 900);
    assert_eq!(conservation_discount_permille(Some(0)), 1000);
    assert_eq!(conservation_discount_permille(None), 1000);
}

#[test]
fn production_system_adjustments() {
    assert_eq!(production_system_permille(Some(ProductionSystem::Intensive)), 1200);
    assert_eq!(production_system_permille(Some(ProductionSystem::Extensive)), 1500);
    assert_eq!(production_system_permille(Some(ProductionSystem::Agroforestry)), 800);
    assert_eq!(production_system_permille(Some(ProductionSystem::Organic)), 900);
    assert_eq!(production_system_permille(Some(ProductionSystem::Smallholder)), 1000);
    assert_eq!(production_system_permille(None), 1000);
    assert_eq!(production_system_permille(Some(ProductionSystem::Intensive)) as f64 / 1000.0, 1.2);
}

#[test]
fn management_practice_factors() {
    let f = management_factors(3, true, true, true, Some("Drip irrigation"), 1, 0, true);
    assert_eq!(f.soil_conservation, 850);
    assert_eq!(f.compost_carbon, 920);
    assert_eq!(f.fertilizer_n2o, 800);
    assert_eq!(f.nutrient_runoff, 700);
    assert_eq!(f.irrigation_efficiency, 700);
    assert_eq!(f.water_conservation, 800);
    assert_eq!(f.pesticide_use, 900);
    assert_eq!(f.integrated_pest_management, 900);
    let g = management_factors(0, false, false, false, None, 0, 6, false);
    assert_eq!(
        (g.soil_conservation, g.compost_carbon, g.fertilizer_n2o, g.nutrient_runoff),
        (1000, 1000, 1200, 1300)
    );
    assert_eq!((g.irrigation_efficiency, g.water_conservation, g.pesticide_use, g.integrated_pest_management), (500, 1000, 1200, 1000));
    let h = management_factors(1, false, true, false, Some("Sprinkler"), 0, 2, false);
    assert_eq!((h.soil_conservation, h.fertilizer_n2o, h.irrigation_efficiency, h.pesticide_use), (920, 900, 850, 950));
    assert_eq!(management_factors(0, false, false, false, Some("Canal"), 0, 5, false).irrigation_efficiency, 900);
    assert_eq!(management_factors(0, false, false, false, Some("Canal"), 0, 5, false).pesticide_use, 1000);
}

#[test]
fn impact_categories_and_units() {
    let cats = impact_categories();
    assert_eq!(cats.len(), 13);
    assert_eq!(cats[0], "Global warming");
    assert_eq!(cats[12], "Photochemical oxidation");
    assert_eq!(impact_unit("Global warming"), "kg CO2-eq");
    assert_eq!(impact_unit("Land use"), "m2a crop-eq");
    assert_eq!(impact_unit("Noise"), "Unknown");
    let p = processing_impact_categories();
    assert_eq!(p.len(), 14);
    assert_eq!(p[13], "Raw material depletion");
    assert_eq!(processing_impact_unit("Energy consumption"), "kWh");
    assert_eq!(processing_impact_unit("Land use"), "m2a");
    assert_eq!(processing_impact_unit("Mineral depletion"), "Unknown");
}

#[test]
fn confidence_bands() {
    assert_eq!(confidence_level(15, 1), ConfidenceLevel::High);
    assert_eq!(confidence_level(14, 1), ConfidenceLevel::Medium);
    assert_eq!(confidence_level(11, 1), ConfidenceLevel::Medium);
    assert_eq!(confidence_level(10, 1), ConfidenceLevel::Low);
    assert_eq!(confidence_level(6, 1), ConfidenceLevel::VeryLow);
    assert_eq!(confidence_level(0, 0), ConfidenceLevel::VeryLow);
    assert_eq!(confidence_level(29, 2), ConfidenceLevel::High);
}

#[test]
fn sources_and_weights() {
    assert_eq!(classify_source("Ghana MoFA 2020"), SourceKind::CountrySpecific);
    assert_eq!(classify_source("West Africa survey"), SourceKind::Regional);
    assert_eq!(classify_source("Default estimate - high uncertainty"), SourceKind::Estimated);
    assert_eq!(classify_source("Poore & Nemecek 2018"), SourceKind::Global);
    assert!(is_default_estimate("Default estimate - high uncertainty"));
    assert!(!is_default_estimate("Default"));
    assert_eq!(weights_permille(Some(WeightingMethod::AfricanPriorities)), [400, 350, 250]);
    assert_eq!(weights_permille(Some(WeightingMethod::EqualWeights)), [333, 333, 334]);
    assert_eq!(weights_permille(None), [333, 333, 334]);
}

#[test]
fn text_helpers() {
    assert!(str_eq("abc", "abc"));
    assert!(!str_eq("abc", "abd"));
    assert!(!str_eq("ab", "abc"));
    assert!(contains("Grid electricity", "electricity"));
    assert!(contains("abc", ""));
    assert!(!contains("ab", "abc"));
    assert!(is_blank(""));
    assert!(is_blank(" \t"));
    assert!(!is_blank(" x "));
}

#[test]
fn climate_seasonal_and_regional_keys() {
    assert_eq!(climate_adjustment_key("Global warming", FoodCategory::Meat), Some("methane_emission_factor"));
    assert_eq!(climate_adjustment_key("Global warming", FoodCategory::Fruits), None);
    assert_eq!(climate_adjustment_key("Soil degradation", FoodCategory::Fruits), Some("tropical_decomposition_factor"));
    assert_eq!(climate_adjustment_key("Land use", FoodCategory::Cereals), None);
    assert_eq!(seasonal_adjustment_key(Some(SeasonalFactor::WetSeason)), Some("wet_season_factor"));
    assert_eq!(seasonal_adjustment_key(Some(SeasonalFactor::DrySeason)), Some("dry_season_factor"));
    assert_eq!(seasonal_adjustment_key(Some(SeasonalFactor::YearRound)), None);
    assert_eq!(seasonal_adjustment_key(None), None);
    assert_eq!(regional_water_scarcity_key(Country::Ghana, None), Some(("Ghana_water_scarcity", 20)));
    assert_eq!(regional_water_scarcity_key(Country::Nigeria, Some("Northern")), Some(("Nigeria_north_water_scarcity", 30)));
    assert_eq!(regional_water_scarcity_key(Country::Nigeria, Some("Lagos")), Some(("Nigeria_south_water_scarcity", 15)));
    assert_eq!(regional_water_scarcity_key(Country::Global, Some("Northern")), None);
}

#[test]
fn facility_profile_factors() {
    let f = facility_factors(Some(2020), LocationType::Rural, EquipmentAge::VeryOld, MaintenanceFrequency::Weekly, 2);
    assert_eq!((f.facility_age, f.location, f.equipment_age, f.maintenance, f.water_conservation), (900, 1100, 1300, 950, 900));
    let g = facility_factors(Some(1990), LocationType::Industrial, EquipmentAge::Mature, MaintenanceFrequency::Irregular, 9);
    assert_eq!((g.facility_age, g.location, g.equipment_age, g.maintenance, g.water_conservation), (1200, 950, 1000, 1100, 700));
    assert_eq!(facility_factors(Some(2010), LocationType::Urban, EquipmentAge::New, MaintenanceFrequency::Quarterly, 0).facility_age, 1000);
    assert_eq!(facility_factors(Some(2000), LocationType::Urban, EquipmentAge::New, MaintenanceFrequency::Quarterly, 0).facility_age, 1100);
    assert_eq!(facility_factors(None, LocationType::Urban, EquipmentAge::New, MaintenanceFrequency::Monthly, 0).facility_age, 1000);
    // A year after the reference year counts as a new facility.
    assert_eq!(facility_factors(Some(2030), LocationType::Urban, EquipmentAge::New, MaintenanceFrequency::Monthly, 0).facility_age, 900);
    assert_eq!(facility_factors(Some(2030), LocationType::Urban, EquipmentAge::New, MaintenanceFrequency::Monthly, 0).water_conservation, 1000);
}

#[test]
fn quality_summary_skips_defaults_and_lists_gaps() {
    let uses = vec![
        FactorUse { source: "Ghana MoFA".to_string(), pedigree: pedigree(1, 1, 1, 1, 1) },
        FactorUse { source: "Default estimate - high uncertainty".to_string(), pedigree: PedigreeScore::worst() },
        FactorUse { source: "Poore & Nemecek".to_string(), pedigree: pedigree(4, 4, 3, 3, 3) },
        FactorUse { source: "Default estimate - high uncertainty".to_string(), pedigree: PedigreeScore::worst() },
    ];
    let s = summarize_quality(&uses);
    assert_eq!(s.total_twentieths, 20 + 8);
    assert_eq!(s.counted, 2);
    assert_eq!(s.data_gaps, vec![1, 3]);
    assert_eq!(s.low_quality, vec![2]);
    // An average of exactly 0.7 is not above 0.7.
    assert_eq!(confidence_level(s.total_twentieths, s.counted), ConfidenceLevel::Medium);
    let empty = summarize_quality(&Vec::new());
    assert_eq!((empty.total_twentieths, empty.counted), (0, 0));
    assert!(empty.data_gaps.is_empty());
}

#[test]
fn warming_potentials_of_substances() {
    assert_eq!(gwp_factor("Carbon dioxide (CO2)"), Some(1));
    assert_eq!(gwp_factor("Carbon dioxide (CO2) equivalent"), Some(1));
    assert_eq!(gwp_factor("Dinitrogen monoxide (N2O) - indirect"), Some(273));
    assert_eq!(gwp_factor("Methane (CH4)"), Some(28));
    assert_eq!(gwp_factor("Nitrate (NO3-)"), None);
    assert_eq!(gwp_factor("Water"), None);
}

#[test]
fn white_space_characters() {
    for c in [' ', '\t', '\n', '\r', '\u{85}', '\u{a0}', '\u{1680}', '\u{2003}', '\u{2028}', '\u{3000}'] {
        assert!(is_white_space_char(c), "{:?}", c);
        assert_eq!(is_white_space_char(c), c.is_whitespace());
    }
    for c in ['a', 'Z', '0', '_', '\u{200b}', '\u{feff}'] {
        assert!(!is_white_space_char(c), "{:?}", c);
        assert_eq!(is_white_space_char(c), c.is_whitespace());
    }
    for u in 0..0x3100u32 {
        if let Some(c) = char::from_u32(u) {
            assert_eq!(is_white_space_char(c), c.is_whitespace(), "{:x}", u);
        }
    }
}
