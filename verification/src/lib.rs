//! A convenient, verified API to read typed values out of an XML
//! document with XPath queries.
//!
//! The crate navigates a parsed document with path-query expressions
//! and decodes the selected nodes into strongly typed values: strings,
//! integers, booleans, optional values and sequences.  Parsing the
//! markup and evaluating the queries is delegated to an external query
//! engine; the reader abstraction around it — ownership, expression
//! handling, anchors, and the typed-conversion pipeline — is verified
//! against the contracts stated throughout.
//!
//! A caller builds a [`ReaderContext`], constructs a root [`Reader`]
//! over a document, then calls `read` with a path expression:
//!
//! ```
//! use xpath_reader::{Reader, ReaderContext};
//!
//! let xml = r#"<?xml version="1.0"?><book xmlns="books" name="Neuromancer"><tags><tag name="cyberpunk"/><tag name="sci-fi"/></tags></book>"#;
//!
//! let mut context = ReaderContext::new();
//! context.set_namespace("b", "books");
//!
//! let reader = Reader::from_str(xml, Some(&context)).unwrap();
//!
//! let name: String = reader.read("//@name").unwrap();
//! assert_eq!(name, "Neuromancer".to_string());
//!
//! let tags: Vec<String> = reader.read("//b:tags/b:tag/@name").unwrap();
//! assert_eq!(tags, vec!["cyberpunk".to_string(), "sci-fi".to_string()]);
//! ```

pub mod engine;
pub mod errors;
pub mod expression;
pub mod laws;
pub mod prefix;
pub mod reader;
pub mod scalar;
pub mod util;

pub use engine::{CompiledQuery, ReaderContext, XmlNode};
pub use errors::{CustomError, Error, ErrorKind};
pub use reader::{FromXml, FromXmlOptional, FromXmlResult, Reader};
