use african_lca_backend::error::{validate_company_name, LCAError};
use african_lca_backend::models::{
    parse_confidence, parse_country, parse_cropping_pattern, parse_farm_type, parse_farming_system,
    parse_food_category, parse_production_system, parse_soil_type, ConfidenceLevel, Country,
    CroppingPattern, Currency, FarmType, FarmingSystem, FoodCategory, NormalizationMethod,
    ProductionSystem, SoilType, WeightingMethod,
};
use african_lca_backend::processing_models::{
    parse_facility_type, parse_location_type, parse_market_destination, parse_product_type,
    parse_quality_grade, LocationType, MarketDestination, ProcessingFacilityType, ProductType,
    QualityGrade, WaterTreatment,
};

#[test]
fn food_categories_parse_by_name() {
    assert_eq!(parse_food_category("Cereals").unwrap(), FoodCategory::Cereals);
    assert_eq!(parse_food_category("Roots").unwrap(), FoodCategory::Roots);
    assert_eq!(parse_food_category("Other").unwrap(), FoodCategory::Other);
    let e = parse_food_category("Grain").unwrap_err();
    assert_eq!(e.message, "Unknown food category: Grain");
    assert!(parse_food_category("cereals").is_err());
    assert!(parse_food_category("").is_err());
}

#[test]
fn farm_enums_parse_by_name() {
    assert_eq!(parse_farm_type("MixedLivestock").unwrap(), FarmType::MixedLivestock);
    assert_eq!(parse_farm_type("Estate").unwrap_err().message, "Unknown farm type: Estate");
    assert_eq!(parse_farming_system("IntegratedFarming").unwrap(), FarmingSystem::IntegratedFarming);
    assert_eq!(parse_farming_system("x").unwrap_err().message, "Unknown farming system: x");
    assert_eq!(parse_production_system("Rainfed").unwrap(), ProductionSystem::Rainfed);
    assert_eq!(parse_production_system("Wild").unwrap_err().message, "Unknown production system: Wild");
    assert_eq!(parse_cropping_pattern("RelayCropping").unwrap(), CroppingPattern::RelayCropping);
    assert_eq!(parse_cropping_pattern("Fallow").unwrap_err().message, "Unknown cropping pattern: Fallow");
    assert_eq!(parse_soil_type("SiltLoam").unwrap(), SoilType::SiltLoam);
    assert_eq!(parse_soil_type("Peat").unwrap_err().message, "Unknown soil type: Peat");
}

#[test]
fn countries_and_confidence_parse() {
    assert_eq!(parse_country("Nigeria").unwrap(), Country::Nigeria);
    assert_eq!(parse_country("Kenya").unwrap_err().message, "Unknown country: Kenya");
    assert_eq!(parse_confidence("Medium").unwrap(), ConfidenceLevel::Medium);
    assert_eq!(parse_confidence("VeryLow").unwrap_err().message, "Unknown confidence level: VeryLow");
}

#[test]
fn processing_enums_parse() {
    assert_eq!(parse_facility_type("PalmOilMill").unwrap(), ProcessingFacilityType::PalmOilMill);
    assert_eq!(parse_facility_type("Brewery").unwrap_err().message, "Unknown facility type: Brewery");
    assert_eq!(parse_location_type("PeriUrban").unwrap(), LocationType::PeriUrban);
    assert_eq!(parse_location_type("Coastal").unwrap_err().message, "Unknown location type: Coastal");
    assert_eq!(parse_quality_grade("Premium").unwrap(), QualityGrade::Premium);
    assert_eq!(parse_quality_grade("Industrial").unwrap(), QualityGrade::Industrial);
    assert_eq!(parse_quality_grade("Gold").unwrap_err().message, "Unknown quality grade: Gold");
    assert_eq!(parse_market_destination("Export").unwrap(), MarketDestination::Export);
    assert_eq!(parse_market_destination("Mixed").unwrap(), MarketDestination::Mixed);
    assert_eq!(parse_market_destination("Moon").unwrap_err().message, "Unknown market destination: Moon");
}

#[test]
fn product_types_keep_unknown_names() {
    assert!(matches!(parse_product_type("PalmOil").unwrap(), ProductType::PalmOil));
    match parse_product_type("Shea Butter").unwrap() {
        ProductType::Other(s) => assert_eq!(s, "Shea Butter"),
        _ => panic!("expected Other"),
    }
    assert_eq!(parse_product_type("Gari").unwrap().name(), "Gari");
    assert_eq!(ProductType::CocoaButter.name(), "CocoaButter");
}

#[test]
fn names_of_renamed_variants_stay_none() {
    assert_eq!(NormalizationMethod::NoNormalization.name(), "None");
    assert_eq!(WeightingMethod::NoWeighting.name(), "None");
    assert_eq!(WaterTreatment::NoTreatment.name(), "None");
}

#[test]
fn currencies_follow_countries() {
    assert_eq!(Country::Ghana.currency_code(), "GHS");
    assert_eq!(Country::Nigeria.currency_symbol(), "₦");
    assert_eq!(Country::Global.currency_symbol(), "$");
    assert_eq!(Currency::from_country(&Country::Nigeria), Currency::NGN);
    assert_eq!(Currency::from_country(&Country::Ghana).symbol(), "GH₵");
    assert_eq!(Currency::USD.code(), "USD");
    for c in [Country::Ghana, Country::Nigeria, Country::Global] {
        assert_eq!(Currency::from_country(&c).code(), c.currency_code());
    }
}

#[test]
fn errors_carry_their_message() {
    let e = LCAError::new("bad input");
    assert_eq!(e.message, "bad input");
    assert_eq!(e.to_string(), "LCA Error: bad input");
}

#[test]
fn company_names_are_checked() {
    assert!(validate_company_name("Accra Farms Ltd").is_ok());
    assert!(validate_company_name("Acme Farms").is_ok());
    assert_eq!(validate_company_name("   ").unwrap_err().message, "Company name cannot be empty");
    assert_eq!(validate_company_name("").unwrap_err().message, "Company name cannot be empty");
    assert_eq!(validate_company_name(" \t\n ").unwrap_err().message, "Company name cannot be empty");
    let long = "a".repeat(201);
    assert_eq!(
        validate_company_name(&long).unwrap_err().message,
        "Company name too long (max 200 characters)"
    );
    assert!(validate_company_name(&"a".repeat(200)).is_ok());
    // 100 two-byte characters are 200 bytes; one more is too long.
    assert!(validate_company_name(&"é".repeat(100)).is_ok());
    assert!(validate_company_name(&"é".repeat(101)).is_err());
}
