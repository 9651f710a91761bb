//! The computing core of a small Discord bot that serves random artwork posts
//! from cached image-board queries: the post caches, the formatting of what a
//! command answers, the consent flow for answering publicly in bot channels,
//! and which commands are registered.
pub mod types;
pub mod cache;
pub mod format;
pub mod privacy;
pub mod reply;
pub mod bot;
