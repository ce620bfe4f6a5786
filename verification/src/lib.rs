//! Verified core of an OpenHarmony native-ability runtime.

pub mod text;
pub mod keyed;
pub mod nested;
pub mod bridge;
pub mod geometry;
pub mod registry;
pub mod window;
pub mod app_state;
pub mod version;
pub mod cursor;
pub mod input;
pub mod shortcut;
pub mod lifecycle;
pub mod accessibility;
pub mod screenshot;
pub mod permission;
pub mod deep_link;
pub mod app_control;
pub mod process;
pub mod autostart;
pub mod resource;
pub mod fault_injection;
pub mod account;
pub mod updater;
pub mod menu;
pub mod statusbar;
pub mod webview;
pub mod webview_controller;
pub mod webview_protocol;
pub mod webview_engine;
pub mod demo;
