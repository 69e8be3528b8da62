//! A tolerant decoder for a database of CAN-bus message definitions, written
//! as YAML documents, one message per document.
//!
//! Decoding never fails on the content of a field: a field of the wrong type
//! or an unknown key is reported as a diagnostic and decoding goes on. Only a
//! text that is not a YAML mapping fails.

pub mod app;
pub mod catalog;
pub mod config;
pub mod diag;
pub mod message;
pub mod node;
pub mod signal;
pub mod text;
pub mod translation;

pub use app::{ActiveScreen, App, EditWindow};
pub use catalog::{decode_messages, id_before, is_message_file, sort_messages};
pub use config::Config;
pub use diag::{Diagnostic, DiagnosticKind};
pub use message::{CanMessage, DecodeError};
pub use node::Node;
pub use signal::{Number, Signal};
pub use translation::Translation;
