pub mod config;
pub mod ext;
pub mod flow_model;
pub mod flow_project;
pub mod package;
pub mod package_manager;
pub mod text;
pub mod version;
