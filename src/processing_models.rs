//! The processing-side data model: facilities, their operations and what
//! they produce.
use vstd::prelude::*;
use crate::error::{LCAError, error_with};
use crate::text::str_eq;

verus! {

/// The kind of a processing facility.
#[derive(Debug, Clone, Copy, PartialEq, Eq, Structural)]
pub enum ProcessingFacilityType {
    Mill,
    Bakery,
    CassivaProcessing,
    RiceProcessing,
    PalmOilMill,
    CocoaProcessing,
    FishProcessing,
    MeatProcessing,
    DairyProcessing,
    FruitProcessing,
    VegetableProcessing,
    General,
}

impl ProcessingFacilityType {
    pub open spec fn spec_name(self) -> Seq<char> {
        match self {
            ProcessingFacilityType::Mill => "Mill"@,
            ProcessingFacilityType::Bakery => "Bakery"@,
            ProcessingFacilityType::CassivaProcessing => "CassivaProcessing"@,
            ProcessingFacilityType::RiceProcessing => "RiceProcessing"@,
            ProcessingFacilityType::PalmOilMill => "PalmOilMill"@,
            ProcessingFacilityType::CocoaProcessing => "CocoaProcessing"@,
            ProcessingFacilityType::FishProcessing => "FishProcessing"@,
            ProcessingFacilityType::MeatProcessing => "MeatProcessing"@,
            ProcessingFacilityType::DairyProcessing => "DairyProcessing"@,
            ProcessingFacilityType::FruitProcessing => "FruitProcessing"@,
            ProcessingFacilityType::VegetableProcessing => "VegetableProcessing"@,
            ProcessingFacilityType::General => "General"@,
        }
    }

    /// The variant's name, as written in input documents and keys.
    pub fn name(&self) -> (r: &'static str)
        ensures
            r@ == self.spec_name(),
    {
        match self {
            ProcessingFacilityType::Mill => "Mill",
            ProcessingFacilityType::Bakery => "Bakery",
            ProcessingFacilityType::CassivaProcessing => "CassivaProcessing",
            ProcessingFacilityType::RiceProcessing => "RiceProcessing",
            ProcessingFacilityType::PalmOilMill => "PalmOilMill",
            ProcessingFacilityType::CocoaProcessing => "CocoaProcessing",
            ProcessingFacilityType::FishProcessing => "FishProcessing",
            ProcessingFacilityType::MeatProcessing => "MeatProcessing",
            ProcessingFacilityType::DairyProcessing => "DairyProcessing",
            ProcessingFacilityType::FruitProcessing => "FruitProcessing",
            ProcessingFacilityType::VegetableProcessing => "VegetableProcessing",
            ProcessingFacilityType::General => "General",
        }
    }
}

/// Where a facility stands.
#[derive(Debug, Clone, Copy, PartialEq, Eq, Structural)]
pub enum LocationType {
    Urban,
    PeriUrban,
    Rural,
    Industrial,
}

impl LocationType {
    pub open spec fn spec_name(self) -> Seq<char> {
        match self {
            LocationType::Urban => "Urban"@,
            LocationType::PeriUrban => "PeriUrban"@,
            LocationType::Rural => "Rural"@,
            LocationType::Industrial => "Industrial"@,
        }
    }

    /// The variant's name, as written in input documents and keys.
    pub fn name(&self) -> (r: &'static str)
        ensures
            r@ == self.spec_name(),
    {
        match self {
            LocationType::Urban => "Urban",
            LocationType::PeriUrban => "PeriUrban",
            LocationType::Rural => "Rural",
            LocationType::Industrial => "Industrial",
        }
    }
}

/// A source of energy for a facility.
#[derive(Debug, Clone, Copy, PartialEq, Eq, Structural)]
pub enum EnergySource {
    GridElectricity,
    DieselGenerator,
    SolarPower,
    Biomass,
    LPG,
    NaturalGas,
    HydroElectricity,
    WindPower,
    Mixed,
}

impl EnergySource {
    pub open spec fn spec_name(self) -> Seq<char> {
        match self {
            EnergySource::GridElectricity => "GridElectricity"@,
            EnergySource::DieselGenerator => "DieselGenerator"@,
            EnergySource::SolarPower => "SolarPower"@,
            EnergySource::Biomass => "Biomass"@,
            EnergySource::LPG => "LPG"@,
            EnergySource::NaturalGas => "NaturalGas"@,
            EnergySource::HydroElectricity => "HydroElectricity"@,
            EnergySource::WindPower => "WindPower"@,
            EnergySource::Mixed => "Mixed"@,
        }
    }

    /// The variant's name, as written in input documents and keys.
    pub fn name(&self) -> (r: &'static str)
        ensures
            r@ == self.spec_name(),
    {
        match self {
            EnergySource::GridElectricity => "GridElectricity",
            EnergySource::DieselGenerator => "DieselGenerator",
            EnergySource::SolarPower => "SolarPower",
            EnergySource::Biomass => "Biomass",
            EnergySource::LPG => "LPG",
            EnergySource::NaturalGas => "NaturalGas",
            EnergySource::HydroElectricity => "HydroElectricity",
            EnergySource::WindPower => "WindPower",
            EnergySource::Mixed => "Mixed",
        }
    }
}

/// How a facility treats its intake water.
#[derive(Debug, Clone, Copy, PartialEq, Eq, Structural)]
pub enum WaterTreatment {
    NoTreatment,
    BasicFiltration,
    ChemicalTreatment,
    ReverseOsmosis,
    Comprehensive,
}

impl WaterTreatment {
    pub open spec fn spec_name(self) -> Seq<char> {
        match self {
            WaterTreatment::NoTreatment => "None"@,
            WaterTreatment::BasicFiltration => "BasicFiltration"@,
            WaterTreatment::ChemicalTreatment => "ChemicalTreatment"@,
            WaterTreatment::ReverseOsmosis => "ReverseOsmosis"@,
            WaterTreatment::Comprehensive => "Comprehensive"@,
        }
    }

    /// The variant's name, as written in input documents and keys.
    pub fn name(&self) -> (r: &'static str)
        ensures
            r@ == self.spec_name(),
    {
        match self {
            WaterTreatment::NoTreatment => "None",
            WaterTreatment::BasicFiltration => "BasicFiltration",
            WaterTreatment::ChemicalTreatment => "ChemicalTreatment",
            WaterTreatment::ReverseOsmosis => "ReverseOsmosis",
            WaterTreatment::Comprehensive => "Comprehensive",
        }
    }
}

/// How a facility treats its wastewater.
#[derive(Debug, Clone, Copy, PartialEq, Eq, Structural)]
pub enum WastewaterTreatment {
    NoTreatment,
    BasicSedimentation,
    BiologicalTreatment,
    ChemicalTreatment,
    Advanced,
}

impl WastewaterTreatment {
    pub open spec fn spec_name(self) -> Seq<char> {
        match self {
            WastewaterTreatment::NoTreatment => "None"@,
            WastewaterTreatment::BasicSedimentation => "BasicSedimentation"@,
            WastewaterTreatment::BiologicalTreatment => "BiologicalTreatment"@,
            WastewaterTreatment::ChemicalTreatment => "ChemicalTreatment"@,
            WastewaterTreatment::Advanced => "Advanced"@,
        }
    }

    /// The variant's name, as written in input documents and keys.
    pub fn name(&self) -> (r: &'static str)
        ensures
            r@ == self.spec_name(),
    {
        match self {
            WastewaterTreatment::NoTreatment => "None",
            WastewaterTreatment::BasicSedimentation => "BasicSedimentation",
            WastewaterTreatment::BiologicalTreatment => "BiologicalTreatment",
            WastewaterTreatment::ChemicalTreatment => "ChemicalTreatment",
            WastewaterTreatment::Advanced => "Advanced",
        }
    }
}

/// Where a facility's solid waste goes.
#[derive(Debug, Clone, Copy, PartialEq, Eq, Structural)]
pub enum WasteDisposalMethod {
    Landfill,
    Incineration,
    Composting,
    AnaerobicDigestion,
    Recycling,
    Mixed,
}

impl WasteDisposalMethod {
    pub open spec fn spec_name(self) -> Seq<char> {
        match self {
            WasteDisposalMethod::Landfill => "Landfill"@,
            WasteDisposalMethod::Incineration => "Incineration"@,
            WasteDisposalMethod::Composting => "Composting"@,
            WasteDisposalMethod::AnaerobicDigestion => "AnaerobicDigestion"@,
            WasteDisposalMethod::Recycling => "Recycling"@,
            WasteDisposalMethod::Mixed => "Mixed"@,
        }
    }

    /// The variant's name, as written in input documents and keys.
    pub fn name(&self) -> (r: &'static str)
        ensures
            r@ == self.spec_name(),
    {
        match self {
            WasteDisposalMethod::Landfill => "Landfill",
            WasteDisposalMethod::Incineration => "Incineration",
            WasteDisposalMethod::Composting => "Composting",
            WasteDisposalMethod::AnaerobicDigestion => "AnaerobicDigestion",
            WasteDisposalMethod::Recycling => "Recycling",
            WasteDisposalMethod::Mixed => "Mixed",
        }
    }
}

/// How raw materials reach a facility.
#[derive(Debug, Clone, Copy, PartialEq, Eq, Structural)]
pub enum TransportMode {
    Truck,
    Rail,
    Ship,
    Mixed,
}

impl TransportMode {
    pub open spec fn spec_name(self) -> Seq<char> {
        match self {
            TransportMode::Truck => "Truck"@,
            TransportMode::Rail => "Rail"@,
            TransportMode::Ship => "Ship"@,
            TransportMode::Mixed => "Mixed"@,
        }
    }

    /// The variant's name, as written in input documents and keys.
    pub fn name(&self) -> (r: &'static str)
        ensures
            r@ == self.spec_name(),
    {
        match self {
            TransportMode::Truck => "Truck",
            TransportMode::Rail => "Rail",
            TransportMode::Ship => "Ship",
            TransportMode::Mixed => "Mixed",
        }
    }
}

/// The age band of a facility's equipment: under 2, 2 to 5, 5 to 10, 10 to 20 and over 20 years.
#[derive(Debug, Clone, Copy, PartialEq, Eq, Structural)]
pub enum EquipmentAge {
    New,
    Recent,
    Mature,
    Old,
    VeryOld,
}

impl EquipmentAge {
    pub open spec fn spec_name(self) -> Seq<char> {
        match self {
            EquipmentAge::New => "New"@,
            EquipmentAge::Recent => "Recent"@,
            EquipmentAge::Mature => "Mature"@,
            EquipmentAge::Old => "Old"@,
            EquipmentAge::VeryOld => "VeryOld"@,
        }
    }

    /// The variant's name, as written in input documents and keys.
    pub fn name(&self) -> (r: &'static str)
        ensures
            r@ == self.spec_name(),
    {
        match self {
            EquipmentAge::New => "New",
            EquipmentAge::Recent => "Recent",
            EquipmentAge::Mature => "Mature",
            EquipmentAge::Old => "Old",
            EquipmentAge::VeryOld => "VeryOld",
        }
    }
}

/// How often equipment is serviced.
#[derive(Debug, Clone, Copy, PartialEq, Eq, Structural)]
pub enum MaintenanceFrequency {
    Daily,
    Weekly,
    Monthly,
    Quarterly,
    Biannual,
    Annual,
    Irregular,
}

impl MaintenanceFrequency {
    pub open spec fn spec_name(self) -> Seq<char> {
        match self {
            MaintenanceFrequency::Daily => "Daily"@,
            MaintenanceFrequency::Weekly => "Weekly"@,
            MaintenanceFrequency::Monthly => "Monthly"@,
            MaintenanceFrequency::Quarterly => "Quarterly"@,
            MaintenanceFrequency::Biannual => "Biannual"@,
            MaintenanceFrequency::Annual => "Annual"@,
            MaintenanceFrequency::Irregular => "Irregular"@,
        }
    }

    /// The variant's name, as written in input documents and keys.
    pub fn name(&self) -> (r: &'static str)
        ensures
            r@ == self.spec_name(),
    {
        match self {
            MaintenanceFrequency::Daily => "Daily",
            MaintenanceFrequency::Weekly => "Weekly",
            MaintenanceFrequency::Monthly => "Monthly",
            MaintenanceFrequency::Quarterly => "Quarterly",
            MaintenanceFrequency::Biannual => "Biannual",
            MaintenanceFrequency::Annual => "Annual",
            MaintenanceFrequency::Irregular => "Irregular",
        }
    }
}

/// How far a facility is automated.
#[derive(Debug, Clone, Copy, PartialEq, Eq, Structural)]
pub enum AutomationLevel {
    Manual,
    SemiAutomated,
    HighlyAutomated,
    FullyAutomated,
}

impl AutomationLevel {
    pub open spec fn spec_name(self) -> Seq<char> {
        match self {
            AutomationLevel::Manual => "Manual"@,
            AutomationLevel::SemiAutomated => "SemiAutomated"@,
            AutomationLevel::HighlyAutomated => "HighlyAutomated"@,
            AutomationLevel::FullyAutomated => "FullyAutomated"@,
        }
    }

    /// The variant's name, as written in input documents and keys.
    pub fn name(&self) -> (r: &'static str)
        ensures
            r@ == self.spec_name(),
    {
        match self {
            AutomationLevel::Manual => "Manual",
            AutomationLevel::SemiAutomated => "SemiAutomated",
            AutomationLevel::HighlyAutomated => "HighlyAutomated",
            AutomationLevel::FullyAutomated => "FullyAutomated",
        }
    }
}

/// What a product is packed in.
#[derive(Debug, Clone, Copy, PartialEq, Eq, Structural)]
pub enum PackagingMaterial {
    PlasticBag,
    PaperBag,
    Jute,
    Polypropylene,
    Cardboard,
    Metal,
    Glass,
    Composite,
}

impl PackagingMaterial {
    pub open spec fn spec_name(self) -> Seq<char> {
        match self {
            PackagingMaterial::PlasticBag => "PlasticBag"@,
            PackagingMaterial::PaperBag => "PaperBag"@,
            PackagingMaterial::Jute => "Jute"@,
            PackagingMaterial::Polypropylene => "Polypropylene"@,
            PackagingMaterial::Cardboard => "Cardboard"@,
            PackagingMaterial::Metal => "Metal"@,
            PackagingMaterial::Glass => "Glass"@,
            PackagingMaterial::Composite => "Composite"@,
        }
    }

    /// The variant's name, as written in input documents and keys.
    pub fn name(&self) -> (r: &'static str)
        ensures
            r@ == self.spec_name(),
    {
        match self {
            PackagingMaterial::PlasticBag => "PlasticBag",
            PackagingMaterial::PaperBag => "PaperBag",
            PackagingMaterial::Jute => "Jute",
            PackagingMaterial::Polypropylene => "Polypropylene",
            PackagingMaterial::Cardboard => "Cardboard",
            PackagingMaterial::Metal => "Metal",
            PackagingMaterial::Glass => "Glass",
            PackagingMaterial::Composite => "Composite",
        }
    }
}

/// The grade a product is sold at.
#[derive(Debug, Clone, Copy, PartialEq, Eq, Structural)]
pub enum QualityGrade {
    Premium,
    Standard,
    Basic,
    Industrial,
}

impl QualityGrade {
    pub open spec fn spec_name(self) -> Seq<char> {
        match self {
            QualityGrade::Premium => "Premium"@,
            QualityGrade::Standard => "Standard"@,
            QualityGrade::Basic => "Basic"@,
            QualityGrade::Industrial => "Industrial"@,
        }
    }

    /// The variant's name, as written in input documents and keys.
    pub fn name(&self) -> (r: &'static str)
        ensures
            r@ == self.spec_name(),
    {
        match self {
            QualityGrade::Premium => "Premium",
            QualityGrade::Standard => "Standard",
            QualityGrade::Basic => "Basic",
            QualityGrade::Industrial => "Industrial",
        }
    }
}

/// Where a product is sold.
#[derive(Debug, Clone, Copy, PartialEq, Eq, Structural)]
pub enum MarketDestination {
    Local,
    Regional,
    National,
    Export,
    Mixed,
}

impl MarketDestination {
    pub open spec fn spec_name(self) -> Seq<char> {
        match self {
            MarketDestination::Local => "Local"@,
            MarketDestination::Regional => "Regional"@,
            MarketDestination::National => "National"@,
            MarketDestination::Export => "Export"@,
            MarketDestination::Mixed => "Mixed"@,
        }
    }

    /// The variant's name, as written in input documents and keys.
    pub fn name(&self) -> (r: &'static str)
        ensures
            r@ == self.spec_name(),
    {
        match self {
            MarketDestination::Local => "Local",
            MarketDestination::Regional => "Regional",
            MarketDestination::National => "National",
            MarketDestination::Export => "Export",
            MarketDestination::Mixed => "Mixed",
        }
    }
}

/// A facility's throughput band: under 10, 10 to 100, 100 to 1000 and over 1000 tonnes a day.
#[derive(Debug, Clone, Copy, PartialEq, Eq, Structural)]
pub enum CapacityRange {
    Small,
    Medium,
    Large,
    VeryLarge,
}

impl CapacityRange {
    pub open spec fn spec_name(self) -> Seq<char> {
        match self {
            CapacityRange::Small => "Small"@,
            CapacityRange::Medium => "Medium"@,
            CapacityRange::Large => "Large"@,
            CapacityRange::VeryLarge => "VeryLarge"@,
        }
    }

    /// The variant's name, as written in input documents and keys.
    pub fn name(&self) -> (r: &'static str)
        ensures
            r@ == self.spec_name(),
    {
        match self {
            CapacityRange::Small => "Small",
            CapacityRange::Medium => "Medium",
            CapacityRange::Large => "Large",
            CapacityRange::VeryLarge => "VeryLarge",
        }
    }
}

/// The area of operation a processing recommendation addresses.
#[derive(Debug, Clone, Copy, PartialEq, Eq, Structural)]
pub enum ProcessingRecommendationCategory {
    EnergyEfficiency,
    WaterConservation,
    WasteReduction,
    ProcessOptimization,
    RawMaterialSourcing,
    EquipmentUpgrade,
    RenewableEnergy,
    WasteToEnergy,
}

impl ProcessingRecommendationCategory {
    pub open spec fn spec_name(self) -> Seq<char> {
        match self {
            ProcessingRecommendationCategory::EnergyEfficiency => "EnergyEfficiency"@,
            ProcessingRecommendationCategory::WaterConservation => "WaterConservation"@,
            ProcessingRecommendationCategory::WasteReduction => "WasteReduction"@,
            ProcessingRecommendationCategory::ProcessOptimization => "ProcessOptimization"@,
            ProcessingRecommendationCategory::RawMaterialSourcing => "RawMaterialSourcing"@,
            ProcessingRecommendationCategory::EquipmentUpgrade => "EquipmentUpgrade"@,
            ProcessingRecommendationCategory::RenewableEnergy => "RenewableEnergy"@,
            ProcessingRecommendationCategory::WasteToEnergy => "WasteToEnergy"@,
        }
    }

    /// The variant's name, as written in input documents and keys.
    pub fn name(&self) -> (r: &'static str)
        ensures
            r@ == self.spec_name(),
    {
        match self {
            ProcessingRecommendationCategory::EnergyEfficiency => "EnergyEfficiency",
            ProcessingRecommendationCategory::WaterConservation => "WaterConservation",
            ProcessingRecommendationCategory::WasteReduction => "WasteReduction",
            ProcessingRecommendationCategory::ProcessOptimization => "ProcessOptimization",
            ProcessingRecommendationCategory::RawMaterialSourcing => "RawMaterialSourcing",
            ProcessingRecommendationCategory::EquipmentUpgrade => "EquipmentUpgrade",
            ProcessingRecommendationCategory::RenewableEnergy => "RenewableEnergy",
            ProcessingRecommendationCategory::WasteToEnergy => "WasteToEnergy",
        }
    }
}

/// What a measure costs: under 1,000, up to 10,000, up to 100,000 and over 100,000 US dollars.
#[derive(Debug, Clone, Copy, PartialEq, Eq, Structural)]
pub enum ImplementationCost {
    Low,
    Medium,
    High,
    VeryHigh,
}

impl ImplementationCost {
    pub open spec fn spec_name(self) -> Seq<char> {
        match self {
            ImplementationCost::Low => "Low"@,
            ImplementationCost::Medium => "Medium"@,
            ImplementationCost::High => "High"@,
            ImplementationCost::VeryHigh => "VeryHigh"@,
        }
    }

    /// The variant's name, as written in input documents and keys.
    pub fn name(&self) -> (r: &'static str)
        ensures
            r@ == self.spec_name(),
    {
        match self {
            ImplementationCost::Low => "Low",
            ImplementationCost::Medium => "Medium",
            ImplementationCost::High => "High",
            ImplementationCost::VeryHigh => "VeryHigh",
        }
    }
}

/// How hard a measure is to carry out.
#[derive(Debug, Clone, Copy, PartialEq, Eq, Structural)]
pub enum ComplexityLevel {
    Simple,
    Moderate,
    Complex,
    VeryComplex,
}

impl ComplexityLevel {
    pub open spec fn spec_name(self) -> Seq<char> {
        match self {
            ComplexityLevel::Simple => "Simple"@,
            ComplexityLevel::Moderate => "Moderate"@,
            ComplexityLevel::Complex => "Complex"@,
            ComplexityLevel::VeryComplex => "VeryComplex"@,
        }
    }

    /// The variant's name, as written in input documents and keys.
    pub fn name(&self) -> (r: &'static str)
        ensures
            r@ == self.spec_name(),
    {
        match self {
            ComplexityLevel::Simple => "Simple",
            ComplexityLevel::Moderate => "Moderate",
            ComplexityLevel::Complex => "Complex",
            ComplexityLevel::VeryComplex => "VeryComplex",
        }
    }
}

/// How urgent a processing recommendation is.
#[derive(Debug, Clone, Copy, PartialEq, Eq, Structural)]
pub enum Priority {
    Critical,
    High,
    Medium,
    Low,
}

impl Priority {
    pub open spec fn spec_name(self) -> Seq<char> {
        match self {
            Priority::Critical => "Critical"@,
            Priority::High => "High"@,
            Priority::Medium => "Medium"@,
            Priority::Low => "Low"@,
        }
    }

    /// The variant's name, as written in input documents and keys.
    pub fn name(&self) -> (r: &'static str)
        ensures
            r@ == self.spec_name(),
    {
        match self {
            Priority::Critical => "Critical",
            Priority::High => "High",
            Priority::Medium => "Medium",
            Priority::Low => "Low",
        }
    }
}
/// What a facility turns out. `Other` holds the name of a product outside
/// the known list.
#[derive(Debug, Clone)]
pub enum ProductType {
    FlourMaize,
    FlourWheat,
    FlourCassava,
    FlourPlantain,
    RiceProcessed,
    PalmOil,
    CocoaPowder,
    CocoaButter,
    BakedGoods,
    ProcessedFish,
    ProcessedMeat,
    Dairy,
    FruitJuice,
    DriedFruits,
    Other(String),
}

impl ProductType {
    pub open spec fn spec_name(self) -> Seq<char> {
        match self {
            ProductType::FlourMaize => "FlourMaize"@,
            ProductType::FlourWheat => "FlourWheat"@,
            ProductType::FlourCassava => "FlourCassava"@,
            ProductType::FlourPlantain => "FlourPlantain"@,
            ProductType::RiceProcessed => "RiceProcessed"@,
            ProductType::PalmOil => "PalmOil"@,
            ProductType::CocoaPowder => "CocoaPowder"@,
            ProductType::CocoaButter => "CocoaButter"@,
            ProductType::BakedGoods => "BakedGoods"@,
            ProductType::ProcessedFish => "ProcessedFish"@,
            ProductType::ProcessedMeat => "ProcessedMeat"@,
            ProductType::Dairy => "Dairy"@,
            ProductType::FruitJuice => "FruitJuice"@,
            ProductType::DriedFruits => "DriedFruits"@,
            ProductType::Other(s) => s@,
        }
    }

    /// The product's name: the variant's name, or the text `Other` holds.
    pub fn name(&self) -> (r: &str)
        ensures
            r@ == self.spec_name(),
    {
        match self {
            ProductType::FlourMaize => "FlourMaize",
            ProductType::FlourWheat => "FlourWheat",
            ProductType::FlourCassava => "FlourCassava",
            ProductType::FlourPlantain => "FlourPlantain",
            ProductType::RiceProcessed => "RiceProcessed",
            ProductType::PalmOil => "PalmOil",
            ProductType::CocoaPowder => "CocoaPowder",
            ProductType::CocoaButter => "CocoaButter",
            ProductType::BakedGoods => "BakedGoods",
            ProductType::ProcessedFish => "ProcessedFish",
            ProductType::ProcessedMeat => "ProcessedMeat",
            ProductType::Dairy => "Dairy",
            ProductType::FruitJuice => "FruitJuice",
            ProductType::DriedFruits => "DriedFruits",
            ProductType::Other(s) => s.as_str(),
        }
    }
}

/// Reads a product type from its name. A name outside the known list is
/// kept, as `Other`.
pub fn parse_product_type(s: &str) -> (r: Result<ProductType, LCAError>)
    ensures
        r is Ok,
        r->Ok_0.spec_name() == s@,
        (r->Ok_0 is Other) == (forall|k: ProductType| !(k is Other) ==> k.spec_name() != s@),
{
    if str_eq(s, "FlourMaize") {
        proof {
            assert(ProductType::FlourMaize.spec_name() == s@);
        }
        Ok(ProductType::FlourMaize)
    } else if str_eq(s, "FlourWheat") {
        proof {
            assert(ProductType::FlourWheat.spec_name() == s@);
        }
        Ok(ProductType::FlourWheat)
    } else if str_eq(s, "FlourCassava") {
        proof {
            assert(ProductType::FlourCassava.spec_name() == s@);
        }
        Ok(ProductType::FlourCassava)
    } else if str_eq(s, "FlourPlantain") {
        proof {
            assert(ProductType::FlourPlantain.spec_name() == s@);
        }
        Ok(ProductType::FlourPlantain)
    } else if str_eq(s, "RiceProcessed") {
        proof {
            assert(ProductType::RiceProcessed.spec_name() == s@);
        }
        Ok(ProductType::RiceProcessed)
    } else if str_eq(s, "PalmOil") {
        proof {
            assert(ProductType::PalmOil.spec_name() == s@);
        }
        Ok(ProductType::PalmOil)
    } else if str_eq(s, "CocoaPowder") {
        proof {
            assert(ProductType::CocoaPowder.spec_name() == s@);
        }
        Ok(ProductType::CocoaPowder)
    } else if str_eq(s, "CocoaButter") {
        proof {
            assert(ProductType::CocoaButter.spec_name() == s@);
        }
        Ok(ProductType::CocoaButter)
    } else if str_eq(s, "BakedGoods") {
        proof {
            assert(ProductType::BakedGoods.spec_name() == s@);
        }
        Ok(ProductType::BakedGoods)
    } else if str_eq(s, "ProcessedFish") {
        proof {
            assert(ProductType::ProcessedFish.spec_name() == s@);
        }
        Ok(ProductType::ProcessedFish)
    } else if str_eq(s, "ProcessedMeat") {
        proof {
            assert(ProductType::ProcessedMeat.spec_name() == s@);
        }
        Ok(ProductType::ProcessedMeat)
    } else if str_eq(s, "Dairy") {
        proof {
            assert(ProductType::Dairy.spec_name() == s@);
        }
        Ok(ProductType::Dairy)
    } else if str_eq(s, "FruitJuice") {
        proof {
            assert(ProductType::FruitJuice.spec_name() == s@);
        }
        Ok(ProductType::FruitJuice)
    } else if str_eq(s, "DriedFruits") {
        proof {
            assert(ProductType::DriedFruits.spec_name() == s@);
        }
        Ok(ProductType::DriedFruits)
    } else {
        proof {
            assert forall|k: ProductType| !(k is Other) implies k.spec_name() != s@ by {
                match k {
                    ProductType::Other(_) => {},
                    _ => {},
                }
            }
        }
        Ok(ProductType::Other(String::from_str(s)))
    }
}
/// Reads a facility type from its name; any other text is refused.
pub fn parse_facility_type(s: &str) -> (r: Result<ProcessingFacilityType, LCAError>)
    ensures
        match r {
            Ok(c) => c.spec_name() == s@,
            Err(e) => (forall|c: ProcessingFacilityType| c.spec_name() != s@)
                && e.message@ == "Unknown facility type: "@ + s@,
        },
{
    let all = [ProcessingFacilityType::Mill, ProcessingFacilityType::Bakery, ProcessingFacilityType::CassivaProcessing, ProcessingFacilityType::RiceProcessing, ProcessingFacilityType::PalmOilMill, ProcessingFacilityType::CocoaProcessing, ProcessingFacilityType::FishProcessing, ProcessingFacilityType::MeatProcessing, ProcessingFacilityType::DairyProcessing, ProcessingFacilityType::FruitProcessing, ProcessingFacilityType::VegetableProcessing, ProcessingFacilityType::General];
    let mut i: usize = 0;
    while i < 12
        invariant
            0 <= i <= 12,
            all@.len() == 12,
            forall|c: ProcessingFacilityType| all@.contains(c),
            forall|j: int| 0 <= j < i ==> all@[j].spec_name() != s@,
        decreases 12 - i,
    {
        if str_eq(all[i].name(), s) {
            return Ok(all[i]);
        }
        i = i + 1;
    }
    Err(error_with("Unknown facility type: ", s))
}

/// Reads a location type from its name; any other text is refused.
pub fn parse_location_type(s: &str) -> (r: Result<LocationType, LCAError>)
    ensures
        match r {
            Ok(c) => c.spec_name() == s@,
            Err(e) => (forall|c: LocationType| c.spec_name() != s@)
                && e.message@ == "Unknown location type: "@ + s@,
        },
{
    let all = [LocationType::Urban, LocationType::PeriUrban, LocationType::Rural, LocationType::Industrial];
    let mut i: usize = 0;
    while i < 4
        invariant
            0 <= i <= 4,
            all@.len() == 4,
            forall|c: LocationType| all@.contains(c),
            forall|j: int| 0 <= j < i ==> all@[j].spec_name() != s@,
        decreases 4 - i,
    {
        if str_eq(all[i].name(), s) {
            return Ok(all[i]);
        }
        i = i + 1;
    }
    Err(error_with("Unknown location type: ", s))
}

/// Reads a quality grade from its name; any other text is refused.
pub fn parse_quality_grade(s: &str) -> (r: Result<QualityGrade, LCAError>)
    ensures
        match r {
            Ok(c) => c.spec_name() == s@,
            Err(e) => (forall|c: QualityGrade| c.spec_name() != s@)
                && e.message@ == "Unknown quality grade: "@ + s@,
        },
{
    let all = [QualityGrade::Premium, QualityGrade::Standard, QualityGrade::Basic, QualityGrade::Industrial];
    let mut i: usize = 0;
    while i < 4
        invariant
            0 <= i <= 4,
            all@.len() == 4,
            forall|c: QualityGrade| all@.contains(c),
            forall|j: int| 0 <= j < i ==> all@[j].spec_name() != s@,
        decreases 4 - i,
    {
        if str_eq(all[i].name(), s) {
            return Ok(all[i]);
        }
        i = i + 1;
    }
    Err(error_with("Unknown quality grade: ", s))
}

/// Reads a market destination from its name; any other text is refused.
pub fn parse_market_destination(s: &str) -> (r: Result<MarketDestination, LCAError>)
    ensures
        match r {
            Ok(c) => c.spec_name() == s@,
            Err(e) => (forall|c: MarketDestination| c.spec_name() != s@)
                && e.message@ == "Unknown market destination: "@ + s@,
        },
{
    let all = [MarketDestination::Local, MarketDestination::Regional, MarketDestination::National, MarketDestination::Export, MarketDestination::Mixed];
    let mut i: usize = 0;
    while i < 5
        invariant
            0 <= i <= 5,
            all@.len() == 5,
            forall|c: MarketDestination| all@.contains(c),
            forall|j: int| 0 <= j < i ==> all@[j].spec_name() != s@,
        decreases 5 - i,
    {
        if str_eq(all[i].name(), s) {
            return Ok(all[i]);
        }
        i = i + 1;
    }
    Err(error_with("Unknown market destination: ", s))
}

} // verus!
