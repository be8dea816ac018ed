pub mod batch;
pub mod client;
pub mod json;
pub mod language;
pub mod request;
pub mod text;

pub use batch::BatchItem;
pub use batch::OutputChunker;
pub use batch::remove_emojis;
pub use client::PreparedCall;
pub use client::TranslateError;
pub use language::Language;
pub use language::LanguageError;
pub use request::Query;
pub use request::Submission;
pub use request::Translate;
pub use request::Translation;
pub use request::TranslationBuilder;
pub use text::to_ascii_lower;
