//! The launcher that takes a volunteer from a terminal to a running training client.

pub mod app;
pub mod brand;
pub mod canvas;
pub mod config;
pub mod detect;
pub mod drawing_laws;
pub mod flow_laws;
pub mod laws;
pub mod layout;
pub mod logo;
pub mod machine_laws;
pub mod paths;
pub mod prepare;
pub mod requirements;
pub mod screen_laws;
pub mod screens;
pub mod show_laws;
