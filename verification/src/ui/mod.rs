//! The user interface: what each window shows and how it reacts.

pub mod button;
pub mod confirm;
pub mod controls;
pub mod geo;
pub mod iced_app;
pub mod iced_laws;
pub mod iced_proto;
pub mod iced_view;
pub mod layout;
pub mod panel;
pub mod panel_style;
pub mod popup;
pub mod rows;
pub mod settings;
pub mod theme;
