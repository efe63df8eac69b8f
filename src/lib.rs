//! Hardware-key second-factor enrollment for PAM: the decisions and text
//! transformations, verified over a model of the host's files.
pub mod desktop;
pub mod devices;
pub mod enrollment;
pub mod error;
pub mod host;
pub mod laws;
pub mod layout;
pub mod models;
pub mod packages;
pub mod pam;
pub mod text;
pub mod users;
