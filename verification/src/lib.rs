pub mod configuration;
pub mod errors;
pub mod evergreen;
pub mod evergreen_names;
pub mod evg_expansions;
pub mod generate_sub_tasks_config;
pub mod generation;
pub mod resmoke;
pub mod services;
pub mod task_types;
pub mod utils;
