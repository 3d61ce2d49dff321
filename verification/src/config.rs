//! The service's own configuration: where projects are materialized and
//! where the package descriptions are read from.

use vstd::prelude::*;

use crate::flow_project::FlowProjectManagerConfig;
use crate::text::views_of;

verus! {

#[derive(Debug, PartialEq)]
pub struct FlowrsConfig {
    pub flow_project_manager_config: FlowProjectManagerConfig,
    pub flow_packages_folder: String,
}

pub fn flow_project_manager_config_default() -> (r: FlowProjectManagerConfig)
    ensures
        r.project_folder@ == "flow-projects"@,
        r.project_json_file_name@ == "flow-project.json"@,
        views_of(r.builtin_dependencies@) == seq![
            "wasm-bindgen = \"0.2.87\""@,
            "serde_json = \"1.0.105\""@,
        ],
        r.rust_fmt_path@ == "rustfmt"@,
        r.do_formatting,
{
    FlowProjectManagerConfig::default()
}

pub fn flow_packages_folder_default() -> (r: String)
    ensures
        r@ == "flow-packages"@,
{
    "flow-packages".to_owned()
}

impl Default for FlowrsConfig {
    fn default() -> (r: Self)
        ensures
            r.flow_project_manager_config.project_folder@ == "flow-projects"@,
            r.flow_project_manager_config.project_json_file_name@ == "flow-project.json"@,
            views_of(r.flow_project_manager_config.builtin_dependencies@) == seq![
                "wasm-bindgen = \"0.2.87\""@,
                "serde_json = \"1.0.105\""@,
            ],
            r.flow_project_manager_config.rust_fmt_path@ == "rustfmt"@,
            r.flow_project_manager_config.do_formatting,
            r.flow_packages_folder@ == "flow-packages"@,
    {
        Self {
            flow_project_manager_config: flow_project_manager_config_default(),
            flow_packages_folder: flow_packages_folder_default(),
        }
    }
}

} // verus!
