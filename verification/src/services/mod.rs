pub mod config_extraction;
pub mod config_extraction_laws;
pub mod parameter_laws;
