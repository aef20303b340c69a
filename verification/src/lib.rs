//! The vocabulary, the input machine, the journal codec and the language table
//! of an agent-native terminal editor, with their contracts.

pub mod text_util;
pub mod value;
pub mod request;
pub mod codec;
pub mod input;
pub mod journal;
pub mod registry;
pub mod action;
pub mod query;
pub mod calls;
pub mod config;
pub mod language;
