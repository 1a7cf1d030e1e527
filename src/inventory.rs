//! The bookkeeping and the classification rules of the life-cycle
//! inventory: how flows are keyed and merged, which fertilizer or fuel an
//! input names, how much irrigation water a system draws, which crops are
//! paddy rice, and which water-scarcity region a site lies in.
//!
//! The emission arithmetic on these classes is floating-point and lies
//! outside this library.
use vstd::prelude::*;
use crate::models::{Country, ProductionSystem};
use crate::text::{contains, join3, lowercase, lower_of, spec_contains, str_eq};

verus! {

/// Where an elementary flow goes to, or comes from.
#[derive(Debug, Clone, Copy, PartialEq, Eq, Structural)]
pub enum EnvironmentalCompartment {
    Air,
    Water,
    Soil,
    Resource,
}

impl EnvironmentalCompartment {
    pub open spec fn spec_name(self) -> Seq<char> {
        match self {
            EnvironmentalCompartment::Air => "Air"@,
            EnvironmentalCompartment::Water => "Water"@,
            EnvironmentalCompartment::Soil => "Soil"@,
            EnvironmentalCompartment::Resource => "Resource"@,
        }
    }

    /// The compartment's name, as written in inventory keys.
    pub fn name(&self) -> (r: &'static str)
        ensures
            r@ == self.spec_name(),
    {
        match self {
            EnvironmentalCompartment::Air => "Air",
            EnvironmentalCompartment::Water => "Water",
            EnvironmentalCompartment::Soil => "Soil",
            EnvironmentalCompartment::Resource => "Resource",
        }
    }
}

/// The key under which a flow is summed: its substance and compartment.
pub fn inventory_key(substance: &str, compartment: EnvironmentalCompartment) -> (r: String)
    ensures
        r@ == substance@ + "_"@ + compartment.spec_name(),
{
    join3(substance, "_", compartment.name())
}

/// The provenance of two merged flows: both texts, in order, separated by a
/// comma. Nothing is dropped or deduplicated.
pub fn merge_provenance(existing: &str, addition: &str) -> (r: String)
    ensures
        r@ == existing@ + ", "@ + addition@,
{
    join3(existing, ", ", addition)
}

/// The fertilizer a type name denotes.
#[derive(Debug, Clone, Copy, PartialEq, Eq, Structural)]
pub enum FertilizerKind {
    Urea,
    DiammoniumPhosphate,
    NpkCompound,
    AmmoniumSulfate,
    CalciumAmmoniumNitrate,
    Other,
}

pub open spec fn spec_fertilizer_kind(t: Seq<char>) -> FertilizerKind {
    if t == "Urea"@ {
        FertilizerKind::Urea
    } else if t == "Diammonium Phosphate (DAP)"@ || t == "DAP"@ {
        FertilizerKind::DiammoniumPhosphate
    } else if t == "NPK Compound"@ || t == "NPK"@ {
        FertilizerKind::NpkCompound
    } else if t == "Ammonium Sulfate"@ {
        FertilizerKind::AmmoniumSulfate
    } else if t == "Calcium Ammonium Nitrate"@ || t == "CAN"@ {
        FertilizerKind::CalciumAmmoniumNitrate
    } else {
        FertilizerKind::Other
    }
}

/// Reads a fertilizer type name. Each kind has its full name and, for some,
/// an abbreviation (`DAP`, `NPK`, `CAN`); any other name is `Other`.
pub fn fertilizer_kind(t: &str) -> (r: FertilizerKind)
    ensures
        r == spec_fertilizer_kind(t@),
{
    if str_eq(t, "Urea") {
        FertilizerKind::Urea
    } else if str_eq(t, "Diammonium Phosphate (DAP)") || str_eq(t, "DAP") {
        FertilizerKind::DiammoniumPhosphate
    } else if str_eq(t, "NPK Compound") || str_eq(t, "NPK") {
        FertilizerKind::NpkCompound
    } else if str_eq(t, "Ammonium Sulfate") {
        FertilizerKind::AmmoniumSulfate
    } else if str_eq(t, "Calcium Ammonium Nitrate") || str_eq(t, "CAN") {
        FertilizerKind::CalciumAmmoniumNitrate
    } else {
        FertilizerKind::Other
    }
}

impl FertilizerKind {
    /// Only compound N-P-K fertilizers draw on phosphate rock and potash.
    pub fn depletes_minerals(&self) -> (r: bool)
        ensures
            r == (*self == FertilizerKind::NpkCompound),
    {
        match self {
            FertilizerKind::NpkCompound => true,
            _ => false,
        }
    }
}

/// The fuel a fuel type name denotes.
#[derive(Debug, Clone, Copy, PartialEq, Eq, Structural)]
pub enum FuelKind {
    Diesel,
    Petrol,
    Other,
}

pub open spec fn spec_fuel_kind(t: Seq<char>) -> FuelKind {
    if t == "Diesel"@ {
        FuelKind::Diesel
    } else if t == "Petrol"@ || t == "Petrol/Gasoline"@ || t == "Gasoline"@ {
        FuelKind::Petrol
    } else {
        FuelKind::Other
    }
}

/// Reads a fuel type name: `Diesel`; `Petrol`, `Petrol/Gasoline` or
/// `Gasoline`; anything else is `Other`.
pub fn fuel_kind(t: &str) -> (r: FuelKind)
    ensures
        r == spec_fuel_kind(t@),
{
    if str_eq(t, "Diesel") {
        FuelKind::Diesel
    } else if str_eq(t, "Petrol") || str_eq(t, "Petrol/Gasoline") || str_eq(t, "Gasoline") {
        FuelKind::Petrol
    } else {
        FuelKind::Other
    }
}

/// Whether an energy type is drawn from the grid: its name mentions
/// `Electricity` or `Grid`.
pub fn is_grid_electricity(energy_type: &str) -> (r: bool)
    ensures
        r == (spec_contains(energy_type@, "Electricity"@) || spec_contains(energy_type@, "Grid"@)),
{
    contains(energy_type, "Electricity") || contains(energy_type, "Grid")
}

pub open spec fn spec_irrigation_m3_per_ha(system: Option<Seq<char>>) -> u32 {
    match system {
        None => 0,
        Some(s) => if s == "Drip irrigation"@ || s == "Drip Irrigation"@ {
            3000
        } else if s == "Sprinkler"@ || s == "Sprinkler System"@ {
            5000
        } else if s == "Flood irrigation"@ || s == "Furrow irrigation"@ {
            8000
        } else if s == "None (Rainfed)"@ {
            0
        } else {
            4000
        },
    }
}

/// Irrigation water drawn per hectare, in cubic metres, by system: drip
/// 3000, sprinkler 5000, flood or furrow 8000, none (rainfed) 0, and 4000
/// for a system not in this list.
pub fn irrigation_m3_per_ha(system: Option<&str>) -> (r: u32)
    ensures
        r == spec_irrigation_m3_per_ha(match system {
            Some(s) => Some(s@),
            None => None,
        }),
{
    match system {
        None => 0,
        Some(s) => if str_eq(s, "Drip irrigation") || str_eq(s, "Drip Irrigation") {
            3000
        } else if str_eq(s, "Sprinkler") || str_eq(s, "Sprinkler System") {
            5000
        } else if str_eq(s, "Flood irrigation") || str_eq(s, "Furrow irrigation") {
            8000
        } else if str_eq(s, "None (Rainfed)") {
            0
        } else {
            4000
        },
    }
}

/// Whether a crop is paddy rice, which emits methane: its name, in lower
/// case, mentions `rice`.
pub fn is_rice_crop(name: &str) -> (r: bool)
    ensures
        r == spec_contains(lower_of(name@), "rice"@),
{
    let lowered = lowercase(name);
    contains(lowered.as_str(), "rice")
}

/// The water-scarcity (AWARE) region of a site.
#[derive(Debug, Clone, Copy, PartialEq, Eq, Structural)]
pub enum AwareRegion {
    GhanaNorth,
    GhanaSouth,
    NigeriaNorth,
    NigeriaSouth,
    Global,
}

pub open spec fn spec_aware_region(country: Country, region: Option<Seq<char>>) -> AwareRegion {
    match country {
        Country::Ghana => if region matches Some(r) && (spec_contains(r, "Northern"@) || spec_contains(r, "Upper"@)) {
            AwareRegion::GhanaNorth
        } else {
            AwareRegion::GhanaSouth
        },
        Country::Nigeria => if region matches Some(r) && (spec_contains(r, "Northern"@)
            || spec_contains(r, "Sokoto"@) || spec_contains(r, "Kano"@)) {
            AwareRegion::NigeriaNorth
        } else {
            AwareRegion::NigeriaSouth
        },
        Country::Global => AwareRegion::Global,
    }
}

/// The water-scarcity region of a site: the drier north of Ghana (a region
/// that mentions `Northern` or `Upper`) or Nigeria (`Northern`, `Sokoto` or
/// `Kano`), the rest of either country, or the global average.
pub fn aware_region(country: Country, region: Option<&str>) -> (r: AwareRegion)
    ensures
        r == spec_aware_region(country, match region {
            Some(s) => Some(s@),
            None => None,
        }),
{
    match country {
        Country::Ghana => match region {
            Some(r) => if contains(r, "Northern") || contains(r, "Upper") {
                AwareRegion::GhanaNorth
            } else {
                AwareRegion::GhanaSouth
            },
            None => AwareRegion::GhanaSouth,
        },
        Country::Nigeria => match region {
            Some(r) => if contains(r, "Northern") || contains(r, "Sokoto") || contains(r, "Kano") {
                AwareRegion::NigeriaNorth
            } else {
                AwareRegion::NigeriaSouth
            },
            None => AwareRegion::NigeriaSouth,
        },
        Country::Global => AwareRegion::Global,
    }
}

/// Methane from flooded rice paddies, kg CH4 per hectare and season.
pub const RICE_CH4_KG_PER_HA: u32 = 200;

/// Diesel assumed per hectare and year where no fuel use is metered, litres.
pub const ESTIMATED_DIESEL_L_PER_HA: u32 = 80;

/// Electricity assumed per hectare and year where none is metered, kWh.
pub const ESTIMATED_ELECTRICITY_KWH_PER_HA: u32 = 200;

/// Square metres in a hectare.
pub const M2_PER_HA: u32 = 10000;

/// 100-year warming potential of N2O, kg CO2-eq per kg.
pub const GWP_N2O: u32 = 273;

/// 100-year warming potential of CH4, kg CO2-eq per kg.
pub const GWP_CH4: u32 = 28;

impl FertilizerKind {
    /// Nitrogen per kg of fertilizer, in thousandths: urea 460, DAP 180,
    /// ammonium sulfate 210, calcium ammonium nitrate 270, any other 100. For
    /// an N-P-K compound the ratio's first figure decides; 150 stands for a
    /// compound whose ratio cannot be read.
    pub fn nitrogen_permille(&self) -> (r: u32)
        ensures
            r == match *self {
                FertilizerKind::Urea => 460u32,
                FertilizerKind::DiammoniumPhosphate => 180,
                FertilizerKind::NpkCompound => 150,
                FertilizerKind::AmmoniumSulfate => 210,
                FertilizerKind::CalciumAmmoniumNitrate => 270,
                FertilizerKind::Other => 100,
            },
    {
        match self {
            FertilizerKind::Urea => 460,
            FertilizerKind::DiammoniumPhosphate => 180,
            FertilizerKind::NpkCompound => 150,
            FertilizerKind::AmmoniumSulfate => 210,
            FertilizerKind::CalciumAmmoniumNitrate => 270,
            FertilizerKind::Other => 100,
        }
    }

    /// CO2 from making and carrying the fertilizer, in thousandths of a kg
    /// per kg: urea 1200, N-P-K compounds 1500, any other 1000.
    pub fn production_co2_permille(&self) -> (r: u32)
        ensures
            r == match *self {
                FertilizerKind::Urea => 1200u32,
                FertilizerKind::NpkCompound => 1500,
                _ => 1000,
            },
    {
        match self {
            FertilizerKind::Urea => 1200,
            FertilizerKind::NpkCompound => 1500,
            _ => 1000,
        }
    }
}

impl FuelKind {
    /// CO2 from burning a litre, in thousandths of a kg: diesel 2680, petrol
    /// 2310, any other fuel 2500.
    pub fn co2_permille_per_litre(&self) -> (r: u32)
        ensures
            r == match *self {
                FuelKind::Diesel => 2680u32,
                FuelKind::Petrol => 2310,
                FuelKind::Other => 2500,
            },
    {
        match self {
            FuelKind::Diesel => 2680,
            FuelKind::Petrol => 2310,
            FuelKind::Other => 2500,
        }
    }
}

/// CO2 of a kWh from the national grid, in thousandths of a kg: Ghana 450,
/// Nigeria 580, elsewhere 500.
pub fn grid_co2_permille_per_kwh(country: Country) -> (r: u32)
    ensures
        r == match country {
            Country::Ghana => 450u32,
            Country::Nigeria => 580,
            Country::Global => 500,
        },
{
    match country {
        Country::Ghana => 450,
        Country::Nigeria => 580,
        Country::Global => 500,
    }
}

impl AwareRegion {
    /// The region's water-scarcity factor, m3 H2O-eq per m3 consumed.
    pub fn factor(&self) -> (r: u32)
        ensures
            r == match *self {
                AwareRegion::GhanaNorth => 30u32,
                AwareRegion::GhanaSouth => 15,
                AwareRegion::NigeriaNorth => 35,
                AwareRegion::NigeriaSouth => 18,
                AwareRegion::Global => 20,
            },
    {
        match self {
            AwareRegion::GhanaNorth => 30,
            AwareRegion::GhanaSouth => 15,
            AwareRegion::NigeriaNorth => 35,
            AwareRegion::NigeriaSouth => 18,
            AwareRegion::Global => 20,
        }
    }
}

/// The share of species abundance lost on land under a production system,
/// in thousandths: intensive 300, organic 100, agroforestry 50, extensive
/// 200, any other (or none given) 250.
pub fn msa_loss_permille(system: Option<ProductionSystem>) -> (r: u32)
    ensures
        r == match system {
            Some(ProductionSystem::Intensive) => 300u32,
            Some(ProductionSystem::Organic) => 100,
            Some(ProductionSystem::Agroforestry) => 50,
            Some(ProductionSystem::Extensive) => 200,
            _ => 250,
        },
{
    match system {
        Some(ProductionSystem::Intensive) => 300,
        Some(ProductionSystem::Organic) => 100,
        Some(ProductionSystem::Agroforestry) => 50,
        Some(ProductionSystem::Extensive) => 200,
        _ => 250,
    }
}

/// The discount on biodiversity loss for soil-conservation practices, in
/// thousandths: 800 for more than two practices, 900 for one or two, 1000
/// for none or where no practices are recorded.
pub fn conservation_discount_permille(practices: Option<usize>) -> (r: u32)
    ensures
        r == match practices {
            Some(n) => if n > 2 { 800u32 } else if n > 0 { 900 } else { 1000 },
            None => 1000,
        },
{
    match practices {
        Some(n) => if n > 2 { 800 } else if n > 0 { 900 } else { 1000 },
        None => 1000,
    }
}

/// Some practice in `practices` mentions `a` or `b`.
pub open spec fn spec_any_mentions(practices: Seq<Seq<char>>, a: Seq<char>, b: Seq<char>) -> bool {
    exists|i: int| 0 <= i < practices.len() && (spec_contains(practices[i], a) || spec_contains(practices[i], b))
}

/// Whether some practice in `practices` mentions `a` or `b`.
pub(crate) fn any_mentions(practices: &Vec<String>, a: &str, b: &str) -> (r: bool)
    ensures
        r == spec_any_mentions(practices@.map_values(|p: String| p@), a@, b@),
{
    let ghost ps = practices@.map_values(|p: String| p@);
    let mut i: usize = 0;
    while i < practices.len()
        invariant
            ps == practices@.map_values(|p: String| p@),
            0 <= i <= practices@.len(),
            forall|j: int| 0 <= j < i ==> !(spec_contains(#[trigger] ps[j], a@) || spec_contains(ps[j], b@)),
        decreases practices@.len() - i,
    {
        if contains(practices[i].as_str(), a) || contains(practices[i].as_str(), b) {
            assert(ps[i as int] == practices@[i as int]@);
            return true;
        }
        assert(ps[i as int] == practices@[i as int]@);
        i = i + 1;
    }
    false
}

/// The share of the base erosion rate left by soil-conservation practices,
/// in thousandths: 300 where one mentions no-till or minimum tillage, else
/// 500 where one mentions contour ploughing or terraces, else 700 where any
/// practice is recorded, and 1000 for none.
pub fn erosion_factor_permille(practices: &Vec<String>) -> (r: u32)
    ensures
        r == if spec_any_mentions(practices@.map_values(|p: String| p@), "No-till"@, "Minimum"@) {
            300u32
        } else if spec_any_mentions(practices@.map_values(|p: String| p@), "Contour"@, "Terrac"@) {
            500
        } else if practices@.len() > 0 {
            700
        } else {
            1000
        },
{
    if any_mentions(practices, "No-till", "Minimum") {
        300
    } else if any_mentions(practices, "Contour", "Terrac") {
        500
    } else if practices.len() > 0 {
        700
    } else {
        1000
    }
}

pub open spec fn spec_gwp_factor(substance: Seq<char>) -> Option<u32> {
    if substance == "Carbon dioxide (CO2)"@ || substance == "Carbon dioxide (CO2) equivalent"@ {
        Some(1)
    } else if spec_contains(substance, "N2O"@) {
        Some(GWP_N2O)
    } else if substance == "Methane (CH4)"@ {
        Some(GWP_CH4)
    } else {
        None
    }
}

/// Whether an inventory substance counts toward global warming, and with
/// what 100-year warming potential in kg CO2-eq per kg: 1 for carbon
/// dioxide (and amounts already in CO2-eq), 273 for any N2O flow, 28 for
/// methane; `None` for anything else.
pub fn gwp_factor(substance: &str) -> (r: Option<u32>)
    ensures
        r == spec_gwp_factor(substance@),
{
    if str_eq(substance, "Carbon dioxide (CO2)") || str_eq(substance, "Carbon dioxide (CO2) equivalent") {
        Some(1)
    } else if contains(substance, "N2O") {
        Some(GWP_N2O)
    } else if str_eq(substance, "Methane (CH4)") {
        Some(GWP_CH4)
    } else {
        None
    }
}

} // verus!
