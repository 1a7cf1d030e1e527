//! The impact categories of the midpoint stage and the units they are
//! reported in, for farm production and for food processing.
use vstd::prelude::*;
use crate::text::str_eq;

verus! {

/// The production impact categories, in reporting order.
pub open spec fn spec_impact_categories() -> Seq<Seq<char>> {
    seq![
        "Global warming"@,
        "Water consumption"@,
        "Water scarcity"@,
        "Land use"@,
        "Biodiversity loss"@,
        "Soil degradation"@,
        "Terrestrial acidification"@,
        "Freshwater eutrophication"@,
        "Marine eutrophication"@,
        "Fossil depletion"@,
        "Mineral depletion"@,
        "Particulate matter formation"@,
        "Photochemical oxidation"@,
    ]
}

/// The unit of each production impact category; `Unknown` for any other name.
pub open spec fn spec_impact_unit(category: Seq<char>) -> Seq<char> {
    if category == "Global warming"@ {
        "kg CO2-eq"@
    } else if category == "Water consumption"@ {
        "m3"@
    } else if category == "Water scarcity"@ {
        "m3 H2O-eq"@
    } else if category == "Land use"@ {
        "m2a crop-eq"@
    } else if category == "Biodiversity loss"@ {
        "MSA*m2*yr"@
    } else if category == "Soil degradation"@ {
        "kg soil-eq"@
    } else if category == "Terrestrial acidification"@ {
        "kg SO2-eq"@
    } else if category == "Freshwater eutrophication"@ {
        "kg P-eq"@
    } else if category == "Marine eutrophication"@ {
        "kg N-eq"@
    } else if category == "Fossil depletion"@ {
        "kg oil-eq"@
    } else if category == "Mineral depletion"@ {
        "kg Fe-eq"@
    } else if category == "Particulate matter formation"@ {
        "PM2.5-eq"@
    } else if category == "Photochemical oxidation"@ {
        "kg NMVOC-eq"@
    } else {
        "Unknown"@
    }
}

/// The production impact categories, in reporting order.
pub fn impact_categories() -> (r: Vec<String>)
    ensures
        r@.map_values(|s: String| s@) == spec_impact_categories(),
{
    let mut r: Vec<String> = Vec::new();
    r.push(String::from_str("Global warming"));
    r.push(String::from_str("Water consumption"));
    r.push(String::from_str("Water scarcity"));
    r.push(String::from_str("Land use"));
    r.push(String::from_str("Biodiversity loss"));
    r.push(String::from_str("Soil degradation"));
    r.push(String::from_str("Terrestrial acidification"));
    r.push(String::from_str("Freshwater eutrophication"));
    r.push(String::from_str("Marine eutrophication"));
    r.push(String::from_str("Fossil depletion"));
    r.push(String::from_str("Mineral depletion"));
    r.push(String::from_str("Particulate matter formation"));
    r.push(String::from_str("Photochemical oxidation"));
    assert(r@.map_values(|s: String| s@) =~= spec_impact_categories());
    r
}

/// The unit a production impact category is reported in.
pub fn impact_unit(category: &str) -> (r: String)
    ensures
        r@ == spec_impact_unit(category@),
{
    if str_eq(category, "Global warming") {
        String::from_str("kg CO2-eq")
    } else if str_eq(category, "Water consumption") {
        String::from_str("m3")
    } else if str_eq(category, "Water scarcity") {
        String::from_str("m3 H2O-eq")
    } else if str_eq(category, "Land use") {
        String::from_str("m2a crop-eq")
    } else if str_eq(category, "Biodiversity loss") {
        String::from_str("MSA*m2*yr")
    } else if str_eq(category, "Soil degradation") {
        String::from_str("kg soil-eq")
    } else if str_eq(category, "Terrestrial acidification") {
        String::from_str("kg SO2-eq")
    } else if str_eq(category, "Freshwater eutrophication") {
        String::from_str("kg P-eq")
    } else if str_eq(category, "Marine eutrophication") {
        String::from_str("kg N-eq")
    } else if str_eq(category, "Fossil depletion") {
        String::from_str("kg oil-eq")
    } else if str_eq(category, "Mineral depletion") {
        String::from_str("kg Fe-eq")
    } else if str_eq(category, "Particulate matter formation") {
        String::from_str("PM2.5-eq")
    } else if str_eq(category, "Photochemical oxidation") {
        String::from_str("kg NMVOC-eq")
    } else {
        String::from_str("Unknown")
    }
}

/// The processing impact categories, in reporting order.
pub open spec fn spec_processing_impact_categories() -> Seq<Seq<char>> {
    seq![
        "Global warming"@,
        "Energy consumption"@,
        "Water consumption"@,
        "Water scarcity"@,
        "Wastewater generation"@,
        "Solid waste generation"@,
        "Air pollution"@,
        "Land use"@,
        "Terrestrial acidification"@,
        "Freshwater eutrophication"@,
        "Marine eutrophication"@,
        "Fossil depletion"@,
        "Particulate matter formation"@,
        "Raw material depletion"@,
    ]
}

/// The unit of each processing impact category; `Unknown` for any other name.
pub open spec fn spec_processing_impact_unit(category: Seq<char>) -> Seq<char> {
    if category == "Global warming"@ {
        "kg CO2-eq"@
    } else if category == "Energy consumption"@ {
        "kWh"@
    } else if category == "Water consumption"@ {
        "m3"@
    } else if category == "Water scarcity"@ {
        "m3 H2O-eq"@
    } else if category == "Wastewater generation"@ {
        "m3"@
    } else if category == "Solid waste generation"@ {
        "kg"@
    } else if category == "Air pollution"@ {
        "kg PM2.5-eq"@
    } else if category == "Land use"@ {
        "m2a"@
    } else if category == "Terrestrial acidification"@ {
        "kg SO2-eq"@
    } else if category == "Freshwater eutrophication"@ {
        "kg P-eq"@
    } else if category == "Marine eutrophication"@ {
        "kg N-eq"@
    } else if category == "Fossil depletion"@ {
        "kg oil-eq"@
    } else if category == "Particulate matter formation"@ {
        "PM2.5-eq"@
    } else if category == "Raw material depletion"@ {
        "kg"@
    } else {
        "Unknown"@
    }
}

/// The processing impact categories, in reporting order.
pub fn processing_impact_categories() -> (r: Vec<String>)
    ensures
        r@.map_values(|s: String| s@) == spec_processing_impact_categories(),
{
    let mut r: Vec<String> = Vec::new();
    r.push(String::from_str("Global warming"));
    r.push(String::from_str("Energy consumption"));
    r.push(String::from_str("Water consumption"));
    r.push(String::from_str("Water scarcity"));
    r.push(String::from_str("Wastewater generation"));
    r.push(String::from_str("Solid waste generation"));
    r.push(String::from_str("Air pollution"));
    r.push(String::from_str("Land use"));
    r.push(String::from_str("Terrestrial acidification"));
    r.push(String::from_str("Freshwater eutrophication"));
    r.push(String::from_str("Marine eutrophication"));
    r.push(String::from_str("Fossil depletion"));
    r.push(String::from_str("Particulate matter formation"));
    r.push(String::from_str("Raw material depletion"));
    assert(r@.map_values(|s: String| s@) =~= spec_processing_impact_categories());
    r
}

/// The unit a processing impact category is reported in.
pub fn processing_impact_unit(category: &str) -> (r: String)
    ensures
        r@ == spec_processing_impact_unit(category@),
{
    if str_eq(category, "Global warming") {
        String::from_str("kg CO2-eq")
    } else if str_eq(category, "Energy consumption") {
        String::from_str("kWh")
    } else if str_eq(category, "Water consumption") {
        String::from_str("m3")
    } else if str_eq(category, "Water scarcity") {
        String::from_str("m3 H2O-eq")
    } else if str_eq(category, "Wastewater generation") {
        String::from_str("m3")
    } else if str_eq(category, "Solid waste generation") {
        String::from_str("kg")
    } else if str_eq(category, "Air pollution") {
        String::from_str("kg PM2.5-eq")
    } else if str_eq(category, "Land use") {
        String::from_str("m2a")
    } else if str_eq(category, "Terrestrial acidification") {
        String::from_str("kg SO2-eq")
    } else if str_eq(category, "Freshwater eutrophication") {
        String::from_str("kg P-eq")
    } else if str_eq(category, "Marine eutrophication") {
        String::from_str("kg N-eq")
    } else if str_eq(category, "Fossil depletion") {
        String::from_str("kg oil-eq")
    } else if str_eq(category, "Particulate matter formation") {
        String::from_str("PM2.5-eq")
    } else if str_eq(category, "Raw material depletion") {
        String::from_str("kg")
    } else {
        String::from_str("Unknown")
    }
}
} // verus!
