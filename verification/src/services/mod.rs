//! Application services: normalisation of scan results, search,
//! configuration and the decisions of a scan.

pub mod config;
pub mod normalize;
pub mod package_manager;
pub mod search;

pub use config::AppConfig;
pub use search::SearchService;
