pub mod burn_in_laws;
pub mod burn_in_tests;
pub mod fuzzer_laws;
pub mod fuzzer_tasks;
pub mod generated_suite;
pub mod generation_laws;
pub mod multiversion;
pub mod resmoke_config_writer;
pub mod resmoke_tasks;
pub mod split_order_laws;
pub mod sub_task_laws;
pub mod suite_file_laws;
pub mod test_splitting;
pub mod test_splitting_laws;
