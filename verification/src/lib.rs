//! Cleans a bibliography written in a BibTeX-like dialect.
//!
//! The text is scanned once for entries `@type{ body }` ([`scanner`]). The
//! body of an entry is turned into a table of its fields ([`fields`]), the
//! table is validated by the rules of the entry's type ([`article`], [`book`],
//! [`collection`], [`proceedings`]; [`record`] for what they share), and an
//! accepted record is rendered in the fixed layout of its type under a
//! citation key made of its first author and year ([`key`]). A rejected entry
//! becomes a diagnostic and the run goes on ([`pipeline`]).
//!
//! The library computes on texts and returns texts: it reads and writes no
//! files and prints nothing. The grammars of the fields are regular
//! expressions, decided by the `regex` crate ([`pattern`]).

pub mod article;
pub mod book;
pub mod checks;
pub mod collection;
pub mod diagnostic;
pub mod fields;
pub mod key;
pub mod layout;
pub mod model;
pub mod number;
pub mod pattern;
pub mod pipeline;
pub mod proceedings;
pub mod record;
pub mod scanner;
pub mod text;

pub use article::Article;
pub use book::Book;
pub use collection::Collection;
pub use diagnostic::{Defect, Diagnostic, Field, Rejection, Severity, Warning};
pub use fields::FieldTable;
pub use pipeline::{extract_entries, EntryKind, Report};
pub use proceedings::Proceedings;
pub use record::{Record, RecordKind};
pub use scanner::{scan_entries, RawEntry};
