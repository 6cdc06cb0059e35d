//! Ultradian Work: a deep-work timer that alternates work and rest phases,
//! a time tracker of projects and their sessions, and a to-do list, with the
//! rules of each verified.

pub mod clock;
pub mod display;
pub mod i18n;
pub mod ids;
pub mod models;
pub mod screen;
pub mod session_logic;
pub mod settings;
pub mod task_laws;
pub mod task_logic;
pub mod text;
pub mod tracker;
pub mod ultradian;
