//! Environmental-impact assessment for West African agriculture and food
//! processing: the data model, the parsers of its enumerated inputs, the
//! impact-factor repository with its hierarchical lookup, the inventory
//! bookkeeping and the data-quality rules.

pub mod text;
pub mod error;
pub mod models;
pub mod processing_models;
pub mod pedigree;
pub mod factors;
pub mod inventory;
pub mod categories;
pub mod adjustments;
pub mod quality;
