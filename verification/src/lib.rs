//! Licensing registry data and rules: licence status and domain enums,
//! licence sub-records (conditions, permissions, restrictions), and the
//! regulator and licence-type catalogs of many jurisdictions.

pub mod types;
pub mod license;
pub mod catalog;
pub mod text;
pub mod table;
pub mod components;
pub mod pack;

pub mod additional;
pub mod brazil;
pub mod bvi;
pub mod cayman;
pub mod china;
pub mod hong_kong;
pub mod kazakhstan;
pub mod kenya;
pub mod pakistan;
pub mod prospera;
pub mod qatar;
pub mod seychelles;
pub mod singapore;
pub mod uae;
pub mod united_states;
