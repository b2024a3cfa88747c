use vstd::prelude::*;

pub mod text;
pub mod numbers;
pub mod values;
pub mod color;
pub mod dirty;
pub mod lua;
pub mod events;
pub mod callbacks;
pub mod actions;
pub mod bind_table;
pub mod api_schema;
pub mod rename;
pub mod json;
pub mod settings;
pub mod pending;
pub mod laws;
pub mod derive_plan;
pub mod proxy;
pub mod property_plan;
pub mod config_load;
pub mod config_access;
pub mod collection_items;
pub mod event_data;
pub mod accessors;
pub mod animations;

verus! {

} // verus!
