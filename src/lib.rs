//! A chat bot's core: command dispatch, request planning, response
//! rendering and the loading animation, all as verified pure logic.
//! Network and chat-platform plumbing live outside this crate.

pub mod text;
pub mod models;
pub mod format;
pub mod commands;
pub mod reply;
pub mod api;
pub mod progress;
pub mod messages;
pub mod handler;
