pub mod build_variants;
pub mod burn_in_tags;
pub mod collection;
pub mod laws;
pub mod limits;
pub mod order_laws;
pub mod plan;
pub mod plan_laws;
pub mod project_info;
pub mod readiness_laws;
pub mod task_laws;
pub mod tasks;
pub mod variant_laws;
