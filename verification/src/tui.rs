pub mod events;
pub mod notifications;
pub mod state;
pub mod ui;
