pub mod analyzer;
pub mod bundle_service;
pub mod clock;
pub mod dataverse_client;
pub mod dataverse_url;
pub mod hashing;
pub mod ids;
pub mod reporting;
pub mod retry;
pub mod scanner;
pub mod secrets;
pub mod session_store;
pub mod transfer_engine;
pub mod workflow;
