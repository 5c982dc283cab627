pub mod text;
pub mod features;
pub mod update;
pub mod state;
pub mod worker;
pub mod hooks;
pub mod icon;
pub mod ui;
