//! The host system: distribution detection, file locations and privileged
//! removal commands.

pub mod distro;
pub mod paths;
pub mod privilege;
