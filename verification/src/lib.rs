//! Headset presence, audio-device priority switching and ChatMix routing logic.

pub mod hid_report;
pub mod text;
pub mod models;
pub mod rules;
pub mod chatmix;
pub mod presence;
pub mod switch;
pub mod monitor;
pub mod audio_graph;
pub mod theme;
pub mod launch;
pub mod listing;

pub use vstd::hash_set::StringHashSet;
