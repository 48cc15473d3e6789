pub mod evg_config;
pub mod evg_config_utils;
pub mod evg_task_history;
pub mod history_laws;
pub mod lookup_laws;
pub mod model;
pub mod project_yaml;
