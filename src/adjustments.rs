//! The multiplicative adjustments applied to midpoint values, held as exact
//! thousandths. They are applied in a fixed order: climate, season,
//! production system, regional water scarcity, management practices.
use vstd::prelude::*;
use crate::models::{Country, FoodCategory, ProductionSystem, SeasonalFactor};
use crate::processing_models::{EquipmentAge, LocationType, MaintenanceFrequency};
use crate::text::str_eq;

verus! {

/// The production-system adjustment, in thousandths: intensive 1200,
/// extensive 1500, agroforestry 800, organic 900, any other (or none given)
/// 1000, which leaves the value as it is.
pub fn production_system_permille(system: Option<ProductionSystem>) -> (r: u32)
    ensures
        r == match system {
            Some(ProductionSystem::Intensive) => 1200u32,
            Some(ProductionSystem::Extensive) => 1500,
            Some(ProductionSystem::Agroforestry) => 800,
            Some(ProductionSystem::Organic) => 900,
            _ => 1000,
        },
{
    match system {
        Some(ProductionSystem::Intensive) => 1200,
        Some(ProductionSystem::Extensive) => 1500,
        Some(ProductionSystem::Agroforestry) => 800,
        Some(ProductionSystem::Organic) => 900,
        _ => 1000,
    }
}

/// What a farm's management practices do to its midpoint values, each
/// factor in thousandths (1000 leaves a value as it is). They are applied
/// one after the other, in the order of the fields.
#[derive(Debug, Clone, Copy, PartialEq, Eq, Structural)]
pub struct ManagementFactors {
    /// On soil degradation (value and range), for soil-conservation
    /// practices.
    pub soil_conservation: u32,
    /// On global warming (value and range), for carbon held by compost.
    pub compost_carbon: u32,
    /// On global warming, for how fertilizer is planned.
    pub fertilizer_n2o: u32,
    /// On freshwater and marine eutrophication, for nutrient planning.
    pub nutrient_runoff: u32,
    /// On water consumption and water scarcity, for the irrigation system.
    pub irrigation_efficiency: u32,
    /// On soil degradation, for water-conservation practices.
    pub water_conservation: u32,
    /// On biodiversity loss, for the number of pesticides used.
    pub pesticide_use: u32,
    /// On biodiversity loss, terrestrial acidification and both
    /// eutrophication categories, for integrated pest management.
    pub integrated_pest_management: u32,
}

pub open spec fn spec_irrigation_efficiency(system: Option<Seq<char>>) -> u32 {
    match system {
        None => 500,
        Some(s) => if s == "Drip irrigation"@ || s == "Micro-sprinkler"@ {
            700
        } else if s == "Sprinkler"@ {
            850
        } else if s == "Flood irrigation"@ || s == "Furrow irrigation"@ {
            1000
        } else {
            900
        },
    }
}

/// The management factors of a farm:
/// - soil conservation: 850 for more than two practices, 920 for one or
///   two, else 1000;
/// - compost: 920 where compost is used, else 1000;
/// - fertilizer: 800 where application follows both soil tests and a
///   nutrient plan, 900 for one of the two, 1200 for neither;
/// - runoff: 700 with a nutrient plan, else 1300;
/// - irrigation: 700 for drip or micro-sprinkler, 850 for sprinkler, 1000
///   for flood or furrow, 500 where none is named (rainfed), else 900;
/// - water conservation: 800 where any practice is recorded, else 1000;
/// - pesticides: 900 for none, 950 for up to two, 1000 for up to five,
///   1200 for more;
/// - integrated pest management: 900 where it is used, else 1000.
pub fn management_factors(
    conservation_practices: usize,
    uses_compost: bool,
    soil_test_based: bool,
    follows_nutrient_plan: bool,
    irrigation_system: Option<&str>,
    water_conservation_practices: usize,
    pesticides_used: usize,
    uses_ipm: bool,
) -> (r: ManagementFactors)
    ensures
        r.soil_conservation == if conservation_practices > 2 { 850u32 } else if conservation_practices > 0 { 920 } else { 1000 },
        r.compost_carbon == if uses_compost { 920u32 } else { 1000 },
        r.fertilizer_n2o == if soil_test_based && follows_nutrient_plan { 800u32 }
            else if soil_test_based || follows_nutrient_plan { 900 } else { 1200 },
        r.nutrient_runoff == if follows_nutrient_plan { 700u32 } else { 1300 },
        r.irrigation_efficiency == spec_irrigation_efficiency(match irrigation_system {
            Some(s) => Some(s@),
            None => None,
        }),
        r.water_conservation == if water_conservation_practices > 0 { 800u32 } else { 1000 },
        r.pesticide_use == if pesticides_used == 0 { 900u32 } else if pesticides_used <= 2 { 950 }
            else if pesticides_used <= 5 { 1000 } else { 1200 },
        r.integrated_pest_management == if uses_ipm { 900u32 } else { 1000 },
{
    let irrigation_efficiency = match irrigation_system {
        None => 500,
        Some(s) => if str_eq(s, "Drip irrigation") || str_eq(s, "Micro-sprinkler") {
            700
        } else if str_eq(s, "Sprinkler") {
            850
        } else if str_eq(s, "Flood irrigation") || str_eq(s, "Furrow irrigation") {
            1000
        } else {
            900
        },
    };
    ManagementFactors {
        soil_conservation: if conservation_practices > 2 { 850 } else if conservation_practices > 0 { 920 } else { 1000 },
        compost_carbon: if uses_compost { 920 } else { 1000 },
        fertilizer_n2o: if soil_test_based && follows_nutrient_plan { 800 }
            else if soil_test_based || follows_nutrient_plan { 900 } else { 1200 },
        nutrient_runoff: if follows_nutrient_plan { 700 } else { 1300 },
        irrigation_efficiency,
        water_conservation: if water_conservation_practices > 0 { 800 } else { 1000 },
        pesticide_use: if pesticides_used == 0 { 900 } else if pesticides_used <= 2 { 950 }
            else if pesticides_used <= 5 { 1000 } else { 1200 },
        integrated_pest_management: if uses_ipm { 900 } else { 1000 },
    }
}

pub open spec fn opt_str_view(o: Option<&str>) -> Option<Seq<char>> {
    match o {
        Some(s) => Some(s@),
        None => None,
    }
}

pub open spec fn spec_climate_adjustment_key(category: Seq<char>, food: FoodCategory) -> Option<Seq<char>> {
    if category == "Global warming"@ {
        if food == FoodCategory::Cereals || food == FoodCategory::Meat {
            Some("methane_emission_factor"@)
        } else {
            None
        }
    } else if category == "Soil degradation"@ {
        Some("tropical_decomposition_factor"@)
    } else {
        None
    }
}

/// The configured climate multiplier that applies to an impact category of
/// a food group in tropical conditions: methane for the global warming of
/// cereals and meat, faster decomposition for soil degradation, none
/// otherwise.
pub fn climate_adjustment_key(category: &str, food: FoodCategory) -> (r: Option<&'static str>)
    ensures
        opt_str_view(r) == spec_climate_adjustment_key(category@, food),
{
    if str_eq(category, "Global warming") {
        if food == FoodCategory::Cereals || food == FoodCategory::Meat {
            Some("methane_emission_factor")
        } else {
            None
        }
    } else if str_eq(category, "Soil degradation") {
        Some("tropical_decomposition_factor")
    } else {
        None
    }
}

/// The configured seasonal multiplier for an item's season: wet and dry
/// seasons have one each; year-round production, or none given, has none.
pub fn seasonal_adjustment_key(season: Option<SeasonalFactor>) -> (r: Option<&'static str>)
    ensures
        opt_str_view(r) == match season {
            Some(SeasonalFactor::WetSeason) => Some("wet_season_factor"@),
            Some(SeasonalFactor::DrySeason) => Some("dry_season_factor"@),
            _ => None::<Seq<char>>,
        },
{
    match season {
        Some(SeasonalFactor::WetSeason) => Some("wet_season_factor"),
        Some(SeasonalFactor::DrySeason) => Some("dry_season_factor"),
        _ => None,
    }
}

/// The configured water-scarcity factor that turns an assessment's water
/// consumption into water scarcity, with its fallback value: Ghana 20, the
/// north of Nigeria (region `Northern`) 30, the rest of Nigeria 15. `None`
/// leaves water as it is (a factor of 1).
pub fn regional_water_scarcity_key(country: Country, region: Option<&str>) -> (r: Option<(&'static str, u32)>)
    ensures
        match r {
            Some((k, v)) => match country {
                Country::Ghana => k@ == "Ghana_water_scarcity"@ && v == 20,
                Country::Nigeria => if opt_str_view(region) == Some("Northern"@) {
                    k@ == "Nigeria_north_water_scarcity"@ && v == 30
                } else {
                    k@ == "Nigeria_south_water_scarcity"@ && v == 15
                },
                Country::Global => false,
            },
            None => country == Country::Global,
        },
{
    match country {
        Country::Ghana => Some(("Ghana_water_scarcity", 20)),
        Country::Nigeria => match region {
            Some(r) => if str_eq(r, "Northern") {
                Some(("Nigeria_north_water_scarcity", 30))
            } else {
                Some(("Nigeria_south_water_scarcity", 15))
            },
            None => Some(("Nigeria_south_water_scarcity", 15)),
        },
        Country::Global => None,
    }
}

/// The year against which a facility's age is counted.
pub const REFERENCE_YEAR: u32 = 2024;

/// What a processing facility's profile does to its impacts, each factor
/// in thousandths, applied one after the other in the order of the fields.
#[derive(Debug, Clone, Copy, PartialEq, Eq, Structural)]
pub struct FacilityFactors {
    /// For the facility's age.
    pub facility_age: u32,
    /// For where the facility stands.
    pub location: u32,
    /// For the age of its equipment.
    pub equipment_age: u32,
    /// For how often its equipment is serviced.
    pub maintenance: u32,
    /// For its water-conservation measures; applies to water consumption and
    /// water scarcity only.
    pub water_conservation: u32,
}

pub open spec fn spec_facility_age_permille(established_year: Option<u32>) -> u32 {
    match established_year {
        None => 1000,
        Some(y) => {
            let age = if y >= REFERENCE_YEAR { 0 } else { REFERENCE_YEAR - y };
            if age <= 5 { 900 } else if age <= 15 { 1000 } else if age <= 30 { 1100 } else { 1200 }
        },
    }
}

/// The factors of a facility:
/// - age, counted to the reference year (a later year counts as new): 900
///   up to 5 years, 1000 up to 15, 1100 up to 30, 1200 beyond, 1000 where
///   the year is not known;
/// - location: industrial 950, urban 1000, peri-urban 1050, rural 1100;
/// - equipment: new 900, recent 950, mature 1000, old 1150, very old 1300;
/// - maintenance: daily or weekly 950, monthly 1000, quarterly 1050, less
///   often 1100;
/// - water conservation: 50 less for each measure, down to 700.
pub fn facility_factors(
    established_year: Option<u32>,
    location: LocationType,
    equipment_age: EquipmentAge,
    maintenance: MaintenanceFrequency,
    water_conservation_measures: usize,
) -> (r: FacilityFactors)
    ensures
        r.facility_age == spec_facility_age_permille(established_year),
        r.location == match location {
            LocationType::Industrial => 950u32,
            LocationType::Urban => 1000,
            LocationType::PeriUrban => 1050,
            LocationType::Rural => 1100,
        },
        r.equipment_age == match equipment_age {
            EquipmentAge::New => 900u32,
            EquipmentAge::Recent => 950,
            EquipmentAge::Mature => 1000,
            EquipmentAge::Old => 1150,
            EquipmentAge::VeryOld => 1300,
        },
        r.maintenance == match maintenance {
            MaintenanceFrequency::Daily | MaintenanceFrequency::Weekly => 950u32,
            MaintenanceFrequency::Monthly => 1000,
            MaintenanceFrequency::Quarterly => 1050,
            _ => 1100,
        },
        r.water_conservation == if water_conservation_measures >= 6 { 700 } else {
            (1000 - 50 * water_conservation_measures) as u32
        },
{
    let facility_age = match established_year {
        None => 1000,
        Some(y) => {
            let age: u32 = if y >= REFERENCE_YEAR { 0 } else { REFERENCE_YEAR - y };
            if age <= 5 { 900 } else if age <= 15 { 1000 } else if age <= 30 { 1100 } else { 1200 }
        },
    };
    let location = match location {
        LocationType::Industrial => 950,
        LocationType::Urban => 1000,
        LocationType::PeriUrban => 1050,
        LocationType::Rural => 1100,
    };
    let equipment_age = match equipment_age {
        EquipmentAge::New => 900,
        EquipmentAge::Recent => 950,
        EquipmentAge::Mature => 1000,
        EquipmentAge::Old => 1150,
        EquipmentAge::VeryOld => 1300,
    };
    let maintenance = match maintenance {
        MaintenanceFrequency::Daily | MaintenanceFrequency::Weekly => 950,
        MaintenanceFrequency::Monthly => 1000,
        MaintenanceFrequency::Quarterly => 1050,
        _ => 1100,
    };
    let water_conservation: u32 = if water_conservation_measures >= 6 {
        700
    } else {
        (1000 - 50 * water_conservation_measures) as u32
    };
    FacilityFactors { facility_age, location, equipment_age, maintenance, water_conservation }
}

} // verus!
