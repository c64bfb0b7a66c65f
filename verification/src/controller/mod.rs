//! The application controller.

pub mod app_controller;

pub use app_controller::{AppController, AppState};
