//! Utilities: display formatting, decimal numbers, icon locations, log
//! files and validation of identifiers.

pub mod decimal;
pub mod format;
pub mod icons;
pub mod logging;
pub mod validation;
