pub mod app_state;
pub mod input;
pub mod screens;
