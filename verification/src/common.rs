//! Helpers shared by the services.

pub mod decimal_serde;
