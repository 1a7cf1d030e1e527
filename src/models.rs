//! The production-side data model: what is grown, how, where, and the
//! methodology an assessment follows.
use vstd::prelude::*;
use crate::error::{LCAError, error_with};
use crate::text::str_eq;

verus! {

/// The broad food group an item belongs to.
#[derive(Debug, Clone, Copy, PartialEq, Eq, Structural)]
pub enum FoodCategory {
    Cereals,
    Legumes,
    Vegetables,
    Fruits,
    Meat,
    Poultry,
    Fish,
    Dairy,
    Eggs,
    Oils,
    Nuts,
    Roots,
    Other,
}

impl FoodCategory {
    pub open spec fn spec_name(self) -> Seq<char> {
        match self {
            FoodCategory::Cereals => "Cereals"@,
            FoodCategory::Legumes => "Legumes"@,
            FoodCategory::Vegetables => "Vegetables"@,
            FoodCategory::Fruits => "Fruits"@,
            FoodCategory::Meat => "Meat"@,
            FoodCategory::Poultry => "Poultry"@,
            FoodCategory::Fish => "Fish"@,
            FoodCategory::Dairy => "Dairy"@,
            FoodCategory::Eggs => "Eggs"@,
            FoodCategory::Oils => "Oils"@,
            FoodCategory::Nuts => "Nuts"@,
            FoodCategory::Roots => "Roots"@,
            FoodCategory::Other => "Other"@,
        }
    }

    /// The variant's name, as written in input documents and keys.
    pub fn name(&self) -> (r: &'static str)
        ensures
            r@ == self.spec_name(),
    {
        match self {
            FoodCategory::Cereals => "Cereals",
            FoodCategory::Legumes => "Legumes",
            FoodCategory::Vegetables => "Vegetables",
            FoodCategory::Fruits => "Fruits",
            FoodCategory::Meat => "Meat",
            FoodCategory::Poultry => "Poultry",
            FoodCategory::Fish => "Fish",
            FoodCategory::Dairy => "Dairy",
            FoodCategory::Eggs => "Eggs",
            FoodCategory::Oils => "Oils",
            FoodCategory::Nuts => "Nuts",
            FoodCategory::Roots => "Roots",
            FoodCategory::Other => "Other",
        }
    }
}

/// How an item is produced.
#[derive(Debug, Clone, Copy, PartialEq, Eq, Structural)]
pub enum ProductionSystem {
    Intensive,
    Extensive,
    Smallholder,
    Agroforestry,
    Irrigated,
    Rainfed,
    Organic,
    Conventional,
}

impl ProductionSystem {
    pub open spec fn spec_name(self) -> Seq<char> {
        match self {
            ProductionSystem::Intensive => "Intensive"@,
            ProductionSystem::Extensive => "Extensive"@,
            ProductionSystem::Smallholder => "Smallholder"@,
            ProductionSystem::Agroforestry => "Agroforestry"@,
            ProductionSystem::Irrigated => "Irrigated"@,
            ProductionSystem::Rainfed => "Rainfed"@,
            ProductionSystem::Organic => "Organic"@,
            ProductionSystem::Conventional => "Conventional"@,
        }
    }

    /// The variant's name, as written in input documents and keys.
    pub fn name(&self) -> (r: &'static str)
        ensures
            r@ == self.spec_name(),
    {
        match self {
            ProductionSystem::Intensive => "Intensive",
            ProductionSystem::Extensive => "Extensive",
            ProductionSystem::Smallholder => "Smallholder",
            ProductionSystem::Agroforestry => "Agroforestry",
            ProductionSystem::Irrigated => "Irrigated",
            ProductionSystem::Rainfed => "Rainfed",
            ProductionSystem::Organic => "Organic",
            ProductionSystem::Conventional => "Conventional",
        }
    }
}

/// The season in which an item is produced.
#[derive(Debug, Clone, Copy, PartialEq, Eq, Structural)]
pub enum SeasonalFactor {
    WetSeason,
    DrySeason,
    YearRound,
}

impl SeasonalFactor {
    pub open spec fn spec_name(self) -> Seq<char> {
        match self {
            SeasonalFactor::WetSeason => "WetSeason"@,
            SeasonalFactor::DrySeason => "DrySeason"@,
            SeasonalFactor::YearRound => "YearRound"@,
        }
    }

    /// The variant's name, as written in input documents and keys.
    pub fn name(&self) -> (r: &'static str)
        ensures
            r@ == self.spec_name(),
    {
        match self {
            SeasonalFactor::WetSeason => "WetSeason",
            SeasonalFactor::DrySeason => "DrySeason",
            SeasonalFactor::YearRound => "YearRound",
        }
    }
}

/// How crops share a field.
#[derive(Debug, Clone, Copy, PartialEq, Eq, Structural)]
pub enum CroppingPattern {
    Monoculture,
    Intercropping,
    RelayCropping,
    Agroforestry,
    CropRotation,
}

impl CroppingPattern {
    pub open spec fn spec_name(self) -> Seq<char> {
        match self {
            CroppingPattern::Monoculture => "Monoculture"@,
            CroppingPattern::Intercropping => "Intercropping"@,
            CroppingPattern::RelayCropping => "RelayCropping"@,
            CroppingPattern::Agroforestry => "Agroforestry"@,
            CroppingPattern::CropRotation => "CropRotation"@,
        }
    }

    /// The variant's name, as written in input documents and keys.
    pub fn name(&self) -> (r: &'static str)
        ensures
            r@ == self.spec_name(),
    {
        match self {
            CroppingPattern::Monoculture => "Monoculture",
            CroppingPattern::Intercropping => "Intercropping",
            CroppingPattern::RelayCropping => "RelayCropping",
            CroppingPattern::Agroforestry => "Agroforestry",
            CroppingPattern::CropRotation => "CropRotation",
        }
    }
}

/// The scale and kind of a farm.
#[derive(Debug, Clone, Copy, PartialEq, Eq, Structural)]
pub enum FarmType {
    Smallholder,
    SmallScale,
    MediumScale,
    Commercial,
    Cooperative,
    MixedLivestock,
}

impl FarmType {
    pub open spec fn spec_name(self) -> Seq<char> {
        match self {
            FarmType::Smallholder => "Smallholder"@,
            FarmType::SmallScale => "SmallScale"@,
            FarmType::MediumScale => "MediumScale"@,
            FarmType::Commercial => "Commercial"@,
            FarmType::Cooperative => "Cooperative"@,
            FarmType::MixedLivestock => "MixedLivestock"@,
        }
    }

    /// The variant's name, as written in input documents and keys.
    pub fn name(&self) -> (r: &'static str)
        ensures
            r@ == self.spec_name(),
    {
        match self {
            FarmType::Smallholder => "Smallholder",
            FarmType::SmallScale => "SmallScale",
            FarmType::MediumScale => "MediumScale",
            FarmType::Commercial => "Commercial",
            FarmType::Cooperative => "Cooperative",
            FarmType::MixedLivestock => "MixedLivestock",
        }
    }
}

/// A farm's primary farming system.
#[derive(Debug, Clone, Copy, PartialEq, Eq, Structural)]
pub enum FarmingSystem {
    Subsistence,
    SemiCommercial,
    Commercial,
    Organic,
    Agroecological,
    Conventional,
    IntegratedFarming,
}

impl FarmingSystem {
    pub open spec fn spec_name(self) -> Seq<char> {
        match self {
            FarmingSystem::Subsistence => "Subsistence"@,
            FarmingSystem::SemiCommercial => "SemiCommercial"@,
            FarmingSystem::Commercial => "Commercial"@,
            FarmingSystem::Organic => "Organic"@,
            FarmingSystem::Agroecological => "Agroecological"@,
            FarmingSystem::Conventional => "Conventional"@,
            FarmingSystem::IntegratedFarming => "IntegratedFarming"@,
        }
    }

    /// The variant's name, as written in input documents and keys.
    pub fn name(&self) -> (r: &'static str)
        ensures
            r@ == self.spec_name(),
    {
        match self {
            FarmingSystem::Subsistence => "Subsistence",
            FarmingSystem::SemiCommercial => "SemiCommercial",
            FarmingSystem::Commercial => "Commercial",
            FarmingSystem::Organic => "Organic",
            FarmingSystem::Agroecological => "Agroecological",
            FarmingSystem::Conventional => "Conventional",
            FarmingSystem::IntegratedFarming => "IntegratedFarming",
        }
    }
}

/// The dominant soil of a farm.
#[derive(Debug, Clone, Copy, PartialEq, Eq, Structural)]
pub enum SoilType {
    Sandy,
    Clay,
    Loam,
    SandyLoam,
    ClayLoam,
    SiltLoam,
    Lateritic,
    Volcanic,
}

impl SoilType {
    pub open spec fn spec_name(self) -> Seq<char> {
        match self {
            SoilType::Sandy => "Sandy"@,
            SoilType::Clay => "Clay"@,
            SoilType::Loam => "Loam"@,
            SoilType::SandyLoam => "SandyLoam"@,
            SoilType::ClayLoam => "ClayLoam"@,
            SoilType::SiltLoam => "SiltLoam"@,
            SoilType::Lateritic => "Lateritic"@,
            SoilType::Volcanic => "Volcanic"@,
        }
    }

    /// The variant's name, as written in input documents and keys.
    pub fn name(&self) -> (r: &'static str)
        ensures
            r@ == self.spec_name(),
    {
        match self {
            SoilType::Sandy => "Sandy",
            SoilType::Clay => "Clay",
            SoilType::Loam => "Loam",
            SoilType::SandyLoam => "SandyLoam",
            SoilType::ClayLoam => "ClayLoam",
            SoilType::SiltLoam => "SiltLoam",
            SoilType::Lateritic => "Lateritic",
            SoilType::Volcanic => "Volcanic",
        }
    }
}

/// Which life-cycle stages an assessment covers.
#[derive(Debug, Clone, Copy, PartialEq, Eq, Structural)]
pub enum SystemBoundary {
    CradleToGate,
    CradleToGrave,
    GateToGate,
    FarmToFork,
}

impl SystemBoundary {
    pub open spec fn spec_name(self) -> Seq<char> {
        match self {
            SystemBoundary::CradleToGate => "CradleToGate"@,
            SystemBoundary::CradleToGrave => "CradleToGrave"@,
            SystemBoundary::GateToGate => "GateToGate"@,
            SystemBoundary::FarmToFork => "FarmToFork"@,
        }
    }

    /// The variant's name, as written in input documents and keys.
    pub fn name(&self) -> (r: &'static str)
        ensures
            r@ == self.spec_name(),
    {
        match self {
            SystemBoundary::CradleToGate => "CradleToGate",
            SystemBoundary::CradleToGrave => "CradleToGrave",
            SystemBoundary::GateToGate => "GateToGate",
            SystemBoundary::FarmToFork => "FarmToFork",
        }
    }
}

/// How burdens are shared among co-products.
#[derive(Debug, Clone, Copy, PartialEq, Eq, Structural)]
pub enum AllocationMethod {
    Mass,
    Economic,
    SystemExpansion,
    Causal,
}

impl AllocationMethod {
    pub open spec fn spec_name(self) -> Seq<char> {
        match self {
            AllocationMethod::Mass => "Mass"@,
            AllocationMethod::Economic => "Economic"@,
            AllocationMethod::SystemExpansion => "SystemExpansion"@,
            AllocationMethod::Causal => "Causal"@,
        }
    }

    /// The variant's name, as written in input documents and keys.
    pub fn name(&self) -> (r: &'static str)
        ensures
            r@ == self.spec_name(),
    {
        match self {
            AllocationMethod::Mass => "Mass",
            AllocationMethod::Economic => "Economic",
            AllocationMethod::SystemExpansion => "SystemExpansion",
            AllocationMethod::Causal => "Causal",
        }
    }
}

/// The characterization method of the midpoint stage.
#[derive(Debug, Clone, Copy, PartialEq, Eq, Structural)]
pub enum CharacterizationMethod {
    IpccAr6,
    IpccAr5,
    ReCiPe2016,
    ReCiPe2008,
    TRACI,
    CML,
}

impl CharacterizationMethod {
    pub open spec fn spec_name(self) -> Seq<char> {
        match self {
            CharacterizationMethod::IpccAr6 => "IpccAr6"@,
            CharacterizationMethod::IpccAr5 => "IpccAr5"@,
            CharacterizationMethod::ReCiPe2016 => "ReCiPe2016"@,
            CharacterizationMethod::ReCiPe2008 => "ReCiPe2008"@,
            CharacterizationMethod::TRACI => "TRACI"@,
            CharacterizationMethod::CML => "CML"@,
        }
    }

    /// The variant's name, as written in input documents and keys.
    pub fn name(&self) -> (r: &'static str)
        ensures
            r@ == self.spec_name(),
    {
        match self {
            CharacterizationMethod::IpccAr6 => "IpccAr6",
            CharacterizationMethod::IpccAr5 => "IpccAr5",
            CharacterizationMethod::ReCiPe2016 => "ReCiPe2016",
            CharacterizationMethod::ReCiPe2008 => "ReCiPe2008",
            CharacterizationMethod::TRACI => "TRACI",
            CharacterizationMethod::CML => "CML",
        }
    }
}

/// The reference against which endpoint results are normalized.
#[derive(Debug, Clone, Copy, PartialEq, Eq, Structural)]
pub enum NormalizationMethod {
    AfricanContext,
    GlobalContext,
    EuropeanContext,
    NoNormalization,
}

impl NormalizationMethod {
    pub open spec fn spec_name(self) -> Seq<char> {
        match self {
            NormalizationMethod::AfricanContext => "AfricanContext"@,
            NormalizationMethod::GlobalContext => "GlobalContext"@,
            NormalizationMethod::EuropeanContext => "EuropeanContext"@,
            NormalizationMethod::NoNormalization => "None"@,
        }
    }

    /// The variant's name, as written in input documents and keys.
    pub fn name(&self) -> (r: &'static str)
        ensures
            r@ == self.spec_name(),
    {
        match self {
            NormalizationMethod::AfricanContext => "AfricanContext",
            NormalizationMethod::GlobalContext => "GlobalContext",
            NormalizationMethod::EuropeanContext => "EuropeanContext",
            NormalizationMethod::NoNormalization => "None",
        }
    }
}

/// The weighting set of the single score.
#[derive(Debug, Clone, Copy, PartialEq, Eq, Structural)]
pub enum WeightingMethod {
    AfricanPriorities,
    EqualWeights,
    ExpertJudgment,
    SocialPreferences,
    NoWeighting,
}

impl WeightingMethod {
    pub open spec fn spec_name(self) -> Seq<char> {
        match self {
            WeightingMethod::AfricanPriorities => "AfricanPriorities"@,
            WeightingMethod::EqualWeights => "EqualWeights"@,
            WeightingMethod::ExpertJudgment => "ExpertJudgment"@,
            WeightingMethod::SocialPreferences => "SocialPreferences"@,
            WeightingMethod::NoWeighting => "None"@,
        }
    }

    /// The variant's name, as written in input documents and keys.
    pub fn name(&self) -> (r: &'static str)
        ensures
            r@ == self.spec_name(),
    {
        match self {
            WeightingMethod::AfricanPriorities => "AfricanPriorities",
            WeightingMethod::EqualWeights => "EqualWeights",
            WeightingMethod::ExpertJudgment => "ExpertJudgment",
            WeightingMethod::SocialPreferences => "SocialPreferences",
            WeightingMethod::NoWeighting => "None",
        }
    }
}

/// The country an assessment, or a factor, applies to.
#[derive(Debug, Clone, Copy, PartialEq, Eq, Structural)]
pub enum Country {
    Ghana,
    Nigeria,
    Global,
}

impl Country {
    pub open spec fn spec_name(self) -> Seq<char> {
        match self {
            Country::Ghana => "Ghana"@,
            Country::Nigeria => "Nigeria"@,
            Country::Global => "Global"@,
        }
    }

    /// The variant's name, as written in input documents and keys.
    pub fn name(&self) -> (r: &'static str)
        ensures
            r@ == self.spec_name(),
    {
        match self {
            Country::Ghana => "Ghana",
            Country::Nigeria => "Nigeria",
            Country::Global => "Global",
        }
    }
}

/// The currencies in which costs are stated.
#[derive(Debug, Clone, Copy, PartialEq, Eq, Structural)]
pub enum Currency {
    GHS,
    NGN,
    USD,
}

impl Currency {
    pub open spec fn spec_name(self) -> Seq<char> {
        match self {
            Currency::GHS => "GHS"@,
            Currency::NGN => "NGN"@,
            Currency::USD => "USD"@,
        }
    }

    /// The variant's name, as written in input documents and keys.
    pub fn name(&self) -> (r: &'static str)
        ensures
            r@ == self.spec_name(),
    {
        match self {
            Currency::GHS => "GHS",
            Currency::NGN => "NGN",
            Currency::USD => "USD",
        }
    }
}

/// How far a result can be trusted.
#[derive(Debug, Clone, Copy, PartialEq, Eq, Structural)]
pub enum ConfidenceLevel {
    High,
    Medium,
    Low,
    VeryLow,
}

impl ConfidenceLevel {
    pub open spec fn spec_name(self) -> Seq<char> {
        match self {
            ConfidenceLevel::High => "High"@,
            ConfidenceLevel::Medium => "Medium"@,
            ConfidenceLevel::Low => "Low"@,
            ConfidenceLevel::VeryLow => "VeryLow"@,
        }
    }

    /// The variant's name, as written in input documents and keys.
    pub fn name(&self) -> (r: &'static str)
        ensures
            r@ == self.spec_name(),
    {
        match self {
            ConfidenceLevel::High => "High",
            ConfidenceLevel::Medium => "Medium",
            ConfidenceLevel::Low => "Low",
            ConfidenceLevel::VeryLow => "VeryLow",
        }
    }
}

/// The area of practice a recommendation addresses.
#[derive(Debug, Clone, Copy, PartialEq, Eq, Structural)]
pub enum RecommendationCategory {
    SoilManagement,
    WaterManagement,
    FertilizerOptimization,
    PestManagement,
    EnergyEfficiency,
    PostHarvest,
    CropSelection,
    SystemDesign,
}

impl RecommendationCategory {
    pub open spec fn spec_name(self) -> Seq<char> {
        match self {
            RecommendationCategory::SoilManagement => "SoilManagement"@,
            RecommendationCategory::WaterManagement => "WaterManagement"@,
            RecommendationCategory::FertilizerOptimization => "FertilizerOptimization"@,
            RecommendationCategory::PestManagement => "PestManagement"@,
            RecommendationCategory::EnergyEfficiency => "EnergyEfficiency"@,
            RecommendationCategory::PostHarvest => "PostHarvest"@,
            RecommendationCategory::CropSelection => "CropSelection"@,
            RecommendationCategory::SystemDesign => "SystemDesign"@,
        }
    }

    /// The variant's name, as written in input documents and keys.
    pub fn name(&self) -> (r: &'static str)
        ensures
            r@ == self.spec_name(),
    {
        match self {
            RecommendationCategory::SoilManagement => "SoilManagement",
            RecommendationCategory::WaterManagement => "WaterManagement",
            RecommendationCategory::FertilizerOptimization => "FertilizerOptimization",
            RecommendationCategory::PestManagement => "PestManagement",
            RecommendationCategory::EnergyEfficiency => "EnergyEfficiency",
            RecommendationCategory::PostHarvest => "PostHarvest",
            RecommendationCategory::CropSelection => "CropSelection",
            RecommendationCategory::SystemDesign => "SystemDesign",
        }
    }
}

/// How hard a practice is to put in place.
#[derive(Debug, Clone, Copy, PartialEq, Eq, Structural)]
pub enum DifficultyLevel {
    Low,
    Medium,
    High,
}

impl DifficultyLevel {
    pub open spec fn spec_name(self) -> Seq<char> {
        match self {
            DifficultyLevel::Low => "Low"@,
            DifficultyLevel::Medium => "Medium"@,
            DifficultyLevel::High => "High"@,
        }
    }

    /// The variant's name, as written in input documents and keys.
    pub fn name(&self) -> (r: &'static str)
        ensures
            r@ == self.spec_name(),
    {
        match self {
            DifficultyLevel::Low => "Low",
            DifficultyLevel::Medium => "Medium",
            DifficultyLevel::High => "High",
        }
    }
}

/// What a practice costs to put in place.
#[derive(Debug, Clone, Copy, PartialEq, Eq, Structural)]
pub enum CostCategory {
    NoCost,
    LowCost,
    MediumCost,
    HighCost,
}

impl CostCategory {
    pub open spec fn spec_name(self) -> Seq<char> {
        match self {
            CostCategory::NoCost => "NoCost"@,
            CostCategory::LowCost => "LowCost"@,
            CostCategory::MediumCost => "MediumCost"@,
            CostCategory::HighCost => "HighCost"@,
        }
    }

    /// The variant's name, as written in input documents and keys.
    pub fn name(&self) -> (r: &'static str)
        ensures
            r@ == self.spec_name(),
    {
        match self {
            CostCategory::NoCost => "NoCost",
            CostCategory::LowCost => "LowCost",
            CostCategory::MediumCost => "MediumCost",
            CostCategory::HighCost => "HighCost",
        }
    }
}

/// How urgent a recommendation is.
#[derive(Debug, Clone, Copy, PartialEq, Eq, Structural)]
pub enum Priority {
    High,
    Medium,
    Low,
}

impl Priority {
    pub open spec fn spec_name(self) -> Seq<char> {
        match self {
            Priority::High => "High"@,
            Priority::Medium => "Medium"@,
            Priority::Low => "Low"@,
        }
    }

    /// The variant's name, as written in input documents and keys.
    pub fn name(&self) -> (r: &'static str)
        ensures
            r@ == self.spec_name(),
    {
        match self {
            Priority::High => "High",
            Priority::Medium => "Medium",
            Priority::Low => "Low",
        }
    }
}

/// Where a result stands against a benchmark.
#[derive(Debug, Clone, Copy, PartialEq, Eq, Structural)]
pub enum PerformanceCategory {
    Excellent,
    Good,
    Average,
    BelowAverage,
    Poor,
}

impl PerformanceCategory {
    pub open spec fn spec_name(self) -> Seq<char> {
        match self {
            PerformanceCategory::Excellent => "Excellent"@,
            PerformanceCategory::Good => "Good"@,
            PerformanceCategory::Average => "Average"@,
            PerformanceCategory::BelowAverage => "BelowAverage"@,
            PerformanceCategory::Poor => "Poor"@,
        }
    }

    /// The variant's name, as written in input documents and keys.
    pub fn name(&self) -> (r: &'static str)
        ensures
            r@ == self.spec_name(),
    {
        match self {
            PerformanceCategory::Excellent => "Excellent",
            PerformanceCategory::Good => "Good",
            PerformanceCategory::Average => "Average",
            PerformanceCategory::BelowAverage => "BelowAverage",
            PerformanceCategory::Poor => "Poor",
        }
    }
}

impl Country {
    pub open spec fn spec_currency_code(self) -> Seq<char> {
        match self {
            Country::Ghana => "GHS"@,
            Country::Nigeria => "NGN"@,
            Country::Global => "USD"@,
        }
    }

    pub open spec fn spec_currency_symbol(self) -> Seq<char> {
        match self {
            Country::Ghana => "GH₵"@,
            Country::Nigeria => "₦"@,
            Country::Global => "$"@,
        }
    }

    /// The country's name as shown to a user.
    pub fn to_string(&self) -> (r: String)
        ensures
            r@ == self.spec_name(),
    {
        String::from_str(self.name())
    }

    /// The code of the currency in use in this country.
    pub fn currency_code(&self) -> (r: &str)
        ensures
            r@ == self.spec_currency_code(),
    {
        match self {
            Country::Ghana => "GHS",
            Country::Nigeria => "NGN",
            Country::Global => "USD",
        }
    }

    /// The symbol of the currency in use in this country.
    pub fn currency_symbol(&self) -> (r: &str)
        ensures
            r@ == self.spec_currency_symbol(),
    {
        match self {
            Country::Ghana => "GH₵",
            Country::Nigeria => "₦",
            Country::Global => "$",
        }
    }
}

impl Currency {
    pub open spec fn spec_symbol(self) -> Seq<char> {
        match self {
            Currency::GHS => "GH₵"@,
            Currency::NGN => "₦"@,
            Currency::USD => "$"@,
        }
    }

    pub open spec fn spec_from_country(country: Country) -> Currency {
        match country {
            Country::Ghana => Currency::GHS,
            Country::Nigeria => Currency::NGN,
            Country::Global => Currency::USD,
        }
    }

    /// The currency's three-letter code.
    pub fn code(&self) -> (r: &str)
        ensures
            r@ == self.spec_name(),
    {
        self.name()
    }

    /// The currency's symbol.
    pub fn symbol(&self) -> (r: &str)
        ensures
            r@ == self.spec_symbol(),
    {
        match self {
            Currency::GHS => "GH₵",
            Currency::NGN => "₦",
            Currency::USD => "$",
        }
    }

    /// The currency in use in `country`; its code and symbol are the
    /// country's own.
    pub fn from_country(country: &Country) -> (r: Currency)
        ensures
            r == Currency::spec_from_country(*country),
            r.spec_name() == country.spec_currency_code(),
            r.spec_symbol() == country.spec_currency_symbol(),
    {
        match country {
            Country::Ghana => Currency::GHS,
            Country::Nigeria => Currency::NGN,
            Country::Global => Currency::USD,
        }
    }
}

/// The origin of the data behind a result.
#[derive(Debug, Clone)]
pub enum DataSource {
    CountrySpecific(Country),
    Regional(String),
    Global,
    Hybrid,
    Estimated,
}

/// The methodological choices an assessment is made under.
#[derive(Debug, Clone)]
pub struct LCAMethodology {
    pub functional_unit: String,
    pub system_boundary: SystemBoundary,
    pub allocation_method: AllocationMethod,
    pub characterization_method: CharacterizationMethod,
    pub normalization_method: Option<NormalizationMethod>,
    pub weighting_method: Option<WeightingMethod>,
}

/// How a farm looks after its soil.
#[derive(Debug, Clone)]
pub struct SoilManagement {
    pub soil_type: Option<SoilType>,
    pub uses_compost: bool,
    pub compost_source: Option<String>,
    pub conservation_practices: Vec<String>,
    pub soil_testing_frequency: Option<String>,
}

/// Reads a food category from its name; any other text is refused.
pub fn parse_food_category(s: &str) -> (r: Result<FoodCategory, LCAError>)
    ensures
        match r {
            Ok(c) => c.spec_name() == s@,
            Err(e) => (forall|c: FoodCategory| c.spec_name() != s@)
                && e.message@ == "Unknown food category: "@ + s@,
        },
{
    let all = [FoodCategory::Cereals, FoodCategory::Legumes, FoodCategory::Vegetables, FoodCategory::Fruits, FoodCategory::Meat, FoodCategory::Poultry, FoodCategory::Fish, FoodCategory::Dairy, FoodCategory::Eggs, FoodCategory::Oils, FoodCategory::Nuts, FoodCategory::Roots, FoodCategory::Other];
    let mut i: usize = 0;
    while i < 13
        invariant
            0 <= i <= 13,
            all@.len() == 13,
            forall|c: FoodCategory| all@.contains(c),
            forall|j: int| 0 <= j < i ==> all@[j].spec_name() != s@,
        decreases 13 - i,
    {
        if str_eq(all[i].name(), s) {
            return Ok(all[i]);
        }
        i = i + 1;
    }
    Err(error_with("Unknown food category: ", s))
}

/// Reads a farm type from its name; any other text is refused.
pub fn parse_farm_type(s: &str) -> (r: Result<FarmType, LCAError>)
    ensures
        match r {
            Ok(c) => c.spec_name() == s@,
            Err(e) => (forall|c: FarmType| c.spec_name() != s@)
                && e.message@ == "Unknown farm type: "@ + s@,
        },
{
    let all = [FarmType::Smallholder, FarmType::SmallScale, FarmType::MediumScale, FarmType::Commercial, FarmType::Cooperative, FarmType::MixedLivestock];
    let mut i: usize = 0;
    while i < 6
        invariant
            0 <= i <= 6,
            all@.len() == 6,
            forall|c: FarmType| all@.contains(c),
            forall|j: int| 0 <= j < i ==> all@[j].spec_name() != s@,
        decreases 6 - i,
    {
        if str_eq(all[i].name(), s) {
            return Ok(all[i]);
        }
        i = i + 1;
    }
    Err(error_with("Unknown farm type: ", s))
}

/// Reads a farming system from its name; any other text is refused.
pub fn parse_farming_system(s: &str) -> (r: Result<FarmingSystem, LCAError>)
    ensures
        match r {
            Ok(c) => c.spec_name() == s@,
            Err(e) => (forall|c: FarmingSystem| c.spec_name() != s@)
                && e.message@ == "Unknown farming system: "@ + s@,
        },
{
    let all = [FarmingSystem::Subsistence, FarmingSystem::SemiCommercial, FarmingSystem::Commercial, FarmingSystem::Organic, FarmingSystem::Agroecological, FarmingSystem::Conventional, FarmingSystem::IntegratedFarming];
    let mut i: usize = 0;
    while i < 7
        invariant
            0 <= i <= 7,
            all@.len() == 7,
            forall|c: FarmingSystem| all@.contains(c),
            forall|j: int| 0 <= j < i ==> all@[j].spec_name() != s@,
        decreases 7 - i,
    {
        if str_eq(all[i].name(), s) {
            return Ok(all[i]);
        }
        i = i + 1;
    }
    Err(error_with("Unknown farming system: ", s))
}

/// Reads a production system from its name; any other text is refused.
pub fn parse_production_system(s: &str) -> (r: Result<ProductionSystem, LCAError>)
    ensures
        match r {
            Ok(c) => c.spec_name() == s@,
            Err(e) => (forall|c: ProductionSystem| c.spec_name() != s@)
                && e.message@ == "Unknown production system: "@ + s@,
        },
{
    let all = [ProductionSystem::Intensive, ProductionSystem::Extensive, ProductionSystem::Smallholder, ProductionSystem::Agroforestry, ProductionSystem::Irrigated, ProductionSystem::Rainfed, ProductionSystem::Organic, ProductionSystem::Conventional];
    let mut i: usize = 0;
    while i < 8
        invariant
            0 <= i <= 8,
            all@.len() == 8,
            forall|c: ProductionSystem| all@.contains(c),
            forall|j: int| 0 <= j < i ==> all@[j].spec_name() != s@,
        decreases 8 - i,
    {
        if str_eq(all[i].name(), s) {
            return Ok(all[i]);
        }
        i = i + 1;
    }
    Err(error_with("Unknown production system: ", s))
}

/// Reads a cropping pattern from its name; any other text is refused.
pub fn parse_cropping_pattern(s: &str) -> (r: Result<CroppingPattern, LCAError>)
    ensures
        match r {
            Ok(c) => c.spec_name() == s@,
            Err(e) => (forall|c: CroppingPattern| c.spec_name() != s@)
                && e.message@ == "Unknown cropping pattern: "@ + s@,
        },
{
    let all = [CroppingPattern::Monoculture, CroppingPattern::Intercropping, CroppingPattern::RelayCropping, CroppingPattern::Agroforestry, CroppingPattern::CropRotation];
    let mut i: usize = 0;
    while i < 5
        invariant
            0 <= i <= 5,
            all@.len() == 5,
            forall|c: CroppingPattern| all@.contains(c),
            forall|j: int| 0 <= j < i ==> all@[j].spec_name() != s@,
        decreases 5 - i,
    {
        if str_eq(all[i].name(), s) {
            return Ok(all[i]);
        }
        i = i + 1;
    }
    Err(error_with("Unknown cropping pattern: ", s))
}

/// Reads a soil type from its name; any other text is refused.
pub fn parse_soil_type(s: &str) -> (r: Result<SoilType, LCAError>)
    ensures
        match r {
            Ok(c) => c.spec_name() == s@,
            Err(e) => (forall|c: SoilType| c.spec_name() != s@)
                && e.message@ == "Unknown soil type: "@ + s@,
        },
{
    let all = [SoilType::Sandy, SoilType::Clay, SoilType::Loam, SoilType::SandyLoam, SoilType::ClayLoam, SoilType::SiltLoam, SoilType::Lateritic, SoilType::Volcanic];
    let mut i: usize = 0;
    while i < 8
        invariant
            0 <= i <= 8,
            all@.len() == 8,
            forall|c: SoilType| all@.contains(c),
            forall|j: int| 0 <= j < i ==> all@[j].spec_name() != s@,
        decreases 8 - i,
    {
        if str_eq(all[i].name(), s) {
            return Ok(all[i]);
        }
        i = i + 1;
    }
    Err(error_with("Unknown soil type: ", s))
}

/// Reads a country from its name; any other text is refused.
pub fn parse_country(s: &str) -> (r: Result<Country, LCAError>)
    ensures
        match r {
            Ok(c) => c.spec_name() == s@,
            Err(e) => (forall|c: Country| c.spec_name() != s@)
                && e.message@ == "Unknown country: "@ + s@,
        },
{
    let all = [Country::Ghana, Country::Nigeria, Country::Global];
    let mut i: usize = 0;
    while i < 3
        invariant
            0 <= i <= 3,
            all@.len() == 3,
            forall|c: Country| all@.contains(c),
            forall|j: int| 0 <= j < i ==> all@[j].spec_name() != s@,
        decreases 3 - i,
    {
        if str_eq(all[i].name(), s) {
            return Ok(all[i]);
        }
        i = i + 1;
    }
    Err(error_with("Unknown country: ", s))
}
/// Reads the confidence label of a factor record: `High`, `Medium` or
/// `Low`. `VeryLow` is a verdict of the assessment, never an input.
pub fn parse_confidence(s: &str) -> (r: Result<ConfidenceLevel, LCAError>)
    ensures
        match r {
            Ok(c) => c.spec_name() == s@ && c != ConfidenceLevel::VeryLow,
            Err(e) => (forall|c: ConfidenceLevel| c != ConfidenceLevel::VeryLow ==> c.spec_name() != s@)
                && e.message@ == "Unknown confidence level: "@ + s@,
        },
{
    if str_eq("High", s) {
        Ok(ConfidenceLevel::High)
    } else if str_eq("Medium", s) {
        Ok(ConfidenceLevel::Medium)
    } else if str_eq("Low", s) {
        Ok(ConfidenceLevel::Low)
    } else {
        Err(error_with("Unknown confidence level: ", s))
    }
}

} // verus!
