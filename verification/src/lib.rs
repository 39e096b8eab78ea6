//! The logic of a Japanese text service for Windows: sessions from typing to
//! committing, input modes, the connection to the conversion engine, settings, and
//! what is shown where.
//!
//! Nothing here talks to the system. Functions take what is known, change the state
//! that they are given, and say what is to be done.
pub mod action;
pub mod ai;
pub mod ai_place;
pub mod ai_window;
pub mod composition;
pub mod config;
pub mod config_file;
pub mod config_text;
pub mod direct_modes;
pub mod dispatch;
pub mod display_attr;
pub mod doc_mode;
pub mod edit_ops;
pub mod engine_config;
pub mod engine_slot;
pub mod globals;
pub mod icon;
pub mod ime_mode;
pub mod ime_sync;
pub mod language_bar;
pub mod learning;
pub mod live;
pub mod mode_indicator;
pub mod paging;
pub mod pending_keys;
pub mod readiness;
pub mod reconversion;
pub mod rect;
pub mod service;
pub mod session;
pub mod session_blocks;
pub mod session_range;
pub mod session_select;
pub mod settings_launcher;
pub mod status_menu;
pub mod steps;
pub mod text;
pub mod theme;
pub mod tray_ipc;
pub mod wide;
pub mod wrap;
