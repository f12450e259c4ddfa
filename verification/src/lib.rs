//! Decision logic of the swap rescue tool: provider-config validation,
//! network selection, mnemonic entry and the rescue workflow state machine.

pub mod text;
pub mod words;
pub mod chain;
pub mod config;
pub mod rescue;
pub mod gui;
