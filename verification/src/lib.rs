//! A revision-cursor delta-sync store for notebooks, notes and content blocks.

pub mod api;
pub mod assets;
pub mod auth;
pub mod build_info;
pub mod codec;
pub mod data;
pub mod invariants;
pub mod laws;
pub mod repo;
pub mod repo_actor;
pub mod repo_content_blocks;
pub mod repo_id;
pub mod repo_notes;
pub mod seed;
pub mod seq_lemmas;
pub mod store;
pub mod timestamp;
