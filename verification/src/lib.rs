//! Verified core of a desktop uploader for Dataverse datasets: source analysis,
//! transfer decisions, retry policy, archive naming and report building.

pub mod domain;
pub mod services;
pub mod text;
