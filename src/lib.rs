use vstd::prelude::*;

pub mod chat;
pub mod config;
pub mod document_loader;
pub mod ingest;
pub mod models;
pub mod text;

pub use chat::{ChatMessage, ChatStrategy, ConversationTurn, Passage, Role, TurnEvent, TurnState};
pub use config::{Config, Settings};
pub use document_loader::{BodyItem, DocumentLoader, LoadError, ParagraphItem, RunItem};
pub use ingest::{ErrorKind, PreparedDocument};
pub use models::{DocumentInfo, MetaEntry, MetaValue};

verus! {

} // verus!
