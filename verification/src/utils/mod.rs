pub mod container_laws;
pub mod lists;
pub mod number;
pub mod number_laws;
pub mod pattern;
pub mod string_map;
pub mod string_set;
pub mod task_name;
pub mod task_name_laws;
pub mod text;
pub mod text_laws;
pub mod yaml_events;
