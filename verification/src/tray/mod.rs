//! The tray icon: its menu, its clicks and its picture.

pub mod indicator;
