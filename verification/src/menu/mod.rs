//! Menus.
pub mod main_menu;
