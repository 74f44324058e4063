//! The training server: who is admitted, what is recorded, and what is shown.

pub mod app;
pub mod chart_laws;
pub mod label_laws;
pub mod labels;
pub mod loss;
pub mod membership;
pub mod message_laws;
pub mod monitor;
pub mod monitor_laws;
pub mod monitor_screen;
pub mod page_laws;
pub mod records;
pub mod screen_contents;
pub mod screen_rows;
pub mod startup;
pub mod terminal_text;
pub mod web;
