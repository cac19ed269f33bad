//! Mechanized selection-policy capture and setting.
pub mod capped_log;
pub mod content_hash;
pub mod policy_mech;
pub mod text;
