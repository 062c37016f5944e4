//! Verified core of the VReader feed reader: roles and configuration,
//! the feed library and its navigation state, the reader and dialog
//! state machines, the screen stack, and the request/response logic of
//! the LLM and vchat.email integrations.

pub mod text;
pub mod config;
pub mod app;
pub mod cli;
pub mod dirs;
pub mod paths;
pub mod library;
pub mod matching;
pub mod entries;
pub mod feedtree;
pub mod keys;
pub mod reader;
pub mod screens;
pub mod help;
pub mod llm;
pub mod llmdialog;
pub mod vchat;
