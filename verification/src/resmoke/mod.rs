pub mod burn_in_proxy;
pub mod external_cmd;
pub mod resmoke_proxy;
pub mod resmoke_proxy_laws;
pub mod resmoke_suite;
pub mod suite_laws;
pub mod yaml_node;
pub mod yaml_suite;
