use african_lca_backend::factors::{
    benchmark_key, build_lookup_hierarchy, create_factor_key, create_processing_factor_key,
    default_estimate_source, default_impact_factor_e4, default_processing_impact_e2, find_best_factor,
    find_factor_or_default, FactorTable,
};
use african_lca_backend::models::{Country, FoodCategory};
use african_lca_backend::pedigree::PedigreeScore;
use african_lca_backend::processing_models::{CapacityRange, ProcessingFacilityType, ProductType};

#[test]
fn factor_keys_join_their_dimensions() {
    assert_eq!(
        create_factor_key(FoodCategory::Cereals, Country::Ghana, Some("Rice"), "Global warming"),
        "Cereals_Ghana_Rice_Global warming"
    );
    assert_eq!(
        create_factor_key(FoodCategory::Legumes, Country::Global, None, "Land use"),
        "Legumes_Global_Land use"
    );
    assert_eq!(
        create_processing_factor_key(ProcessingFacilityType::Mill, &ProductType::FlourMaize, Country::Ghana, "Water consumption"),
        "Mill_FlourMaize_Ghana_Water consumption"
    );
    assert_eq!(
        benchmark_key(ProcessingFacilityType::Bakery, CapacityRange::Small, Country::Nigeria),
        "Bakery_Small_Nigeria"
    );
}

#[test]
fn hierarchy_runs_from_specific_to_global() {
    let h = build_lookup_hierarchy(FoodCategory::Cereals, Country::Ghana, Some("Rice"));
    assert_eq!(h, vec!["Cereals_Ghana_Rice", "Cereals_Ghana", "Cereals_Global_Rice", "Cereals_Global"]);
    let h = build_lookup_hierarchy(FoodCategory::Fish, Country::Nigeria, None);
    assert_eq!(h, vec!["Fish_Nigeria", "Fish_Global"]);
}

#[test]
fn table_keeps_the_last_value_per_key() {
    let mut t: FactorTable<u32> = FactorTable::new();
    assert_eq!(t.get("a"), None);
    t.insert("a".to_string(), 1);
    t.insert("b".to_string(), 2);
    t.insert("a".to_string(), 3);
    assert_eq!(t.get("a"), Some(&3));
    assert_eq!(t.get("b"), Some(&2));
    assert_eq!(t.get("c"), None);
}

#[test]
fn country_and_crop_factor_is_selected_first() {
    let mut t: FactorTable<&str> = FactorTable::new();
    t.insert(create_factor_key(FoodCategory::Cereals, Country::Ghana, None, "Global warming"), "ghana");
    t.insert(create_factor_key(FoodCategory::Cereals, Country::Global, Some("Rice"), "Global warming"), "global rice");
    t.insert(create_factor_key(FoodCategory::Cereals, Country::Ghana, Some("Rice"), "Global warming"), "ghana rice");
    let h = build_lookup_hierarchy(FoodCategory::Cereals, Country::Ghana, Some("Rice"));
    assert_eq!(find_best_factor(&t, &h, "Global warming"), Some(&"ghana rice"));
    let h = build_lookup_hierarchy(FoodCategory::Cereals, Country::Ghana, Some("Maize"));
    assert_eq!(find_best_factor(&t, &h, "Global warming"), Some(&"ghana"));
    let h = build_lookup_hierarchy(FoodCategory::Cereals, Country::Nigeria, Some("Rice"));
    assert_eq!(find_best_factor(&t, &h, "Global warming"), Some(&"global rice"));
    let h = build_lookup_hierarchy(FoodCategory::Cereals, Country::Nigeria, None);
    assert_eq!(find_best_factor(&t, &h, "Global warming"), None);
    assert_eq!(find_best_factor(&t, &h, "Land use"), None);
}

#[test]
fn default_estimates_are_marked() {
    let source = default_estimate_source();
    assert!(source.contains("Default estimate"));
    let p = PedigreeScore::worst();
    assert_eq!(
        (p.reliability, p.completeness, p.temporal_correlation, p.geographical_correlation, p.technological_correlation),
        (5, 5, 5, 5, 5)
    );
    assert_eq!(p.quality_twentieths(), 0);
}

#[test]
fn default_factor_table_values() {
    assert_eq!(default_impact_factor_e4(FoodCategory::Cereals, "Global warming"), 14000);
    assert_eq!(default_impact_factor_e4(FoodCategory::Meat, "Global warming"), 250000);
    assert_eq!(default_impact_factor_e4(FoodCategory::Roots, "Mineral depletion"), 2);
    assert_eq!(default_impact_factor_e4(FoodCategory::Legumes, "Mineral depletion"), 8);
    // A group without its own row takes the cereal averages.
    assert_eq!(default_impact_factor_e4(FoodCategory::Other, "Land use"), 28000);
    // A category outside every row takes 0.1.
    assert_eq!(default_impact_factor_e4(FoodCategory::Cereals, "Water scarcity"), 1000);
    assert_eq!(default_impact_factor_e4(FoodCategory::Meat, "Noise"), 1000);
    assert_eq!(default_impact_factor_e4(FoodCategory::Cereals, "Global warming") as f64 / 10000.0, 1.4);
}

#[test]
fn processing_default_table_values() {
    assert_eq!(default_processing_impact_e2(ProcessingFacilityType::Mill, &ProductType::FlourMaize, "Global warming"), 15);
    assert_eq!(default_processing_impact_e2(ProcessingFacilityType::FishProcessing, &ProductType::ProcessedFish, "Energy consumption"), 40000);
    assert_eq!(default_processing_impact_e2(ProcessingFacilityType::Bakery, &ProductType::BakedGoods, "Water consumption"), 150);
    // A pair without its own row takes the generic defaults.
    assert_eq!(default_processing_impact_e2(ProcessingFacilityType::Mill, &ProductType::PalmOil, "Global warming"), 50);
    assert_eq!(default_processing_impact_e2(ProcessingFacilityType::General, &ProductType::Other("Gari".to_string()), "Solid waste generation"), 5000);
    assert_eq!(default_processing_impact_e2(ProcessingFacilityType::Mill, &ProductType::FlourMaize, "Land use"), 10);
    assert_eq!(default_processing_impact_e2(ProcessingFacilityType::Mill, &ProductType::FlourMaize, "Global warming") as f64 / 100.0, 0.15);
}

#[test]
fn loading_keeps_the_last_of_each_key_and_reloading_changes_nothing() {
    let entries = || vec![("a".to_string(), 1), ("b".to_string(), 2), ("a".to_string(), 3)];
    let mut t: FactorTable<u32> = FactorTable::new();
    t.insert("c".to_string(), 9);
    t.load(entries());
    assert_eq!((t.get("a"), t.get("b"), t.get("c")), (Some(&3), Some(&2), Some(&9)));
    t.load(entries());
    assert_eq!((t.get("a"), t.get("b"), t.get("c")), (Some(&3), Some(&2), Some(&9)));
    t.load(Vec::new());
    assert_eq!(t.get("a"), Some(&3));
}

#[test]
fn missed_lookup_gives_marked_default() {
    let mut t: FactorTable<&str> = FactorTable::new();
    t.insert(create_factor_key(FoodCategory::Meat, Country::Global, None, "Global warming"), "global meat");
    let h = build_lookup_hierarchy(FoodCategory::Meat, Country::Ghana, Some("Beef"));
    assert_eq!(find_factor_or_default(&t, &h, FoodCategory::Meat, "Global warming").unwrap(), &"global meat");
    let d = find_factor_or_default(&t, &h, FoodCategory::Meat, "Land use").unwrap_err();
    assert_eq!(d.value_e4, 200000);
    assert!(d.source.starts_with("Default estimate"));
    assert_eq!(d.pedigree, PedigreeScore::worst());
    assert_eq!(d.pedigree.quality_twentieths(), 0);
}
