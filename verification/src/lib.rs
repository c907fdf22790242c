//! FindApps: discovery, normalisation and safe removal of the applications
//! installed on a Linux system, whatever installed them.

pub mod backends;
pub mod catalog;
pub mod i18n;
pub mod keyed;
pub mod models;
pub mod placeholders;
pub mod repositories;
pub mod services;
pub mod sorting;
pub mod system;
pub mod text;
pub mod util;
