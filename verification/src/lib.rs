//! Verified code generation for aspect weaving.
//!
//! An aspect is woven into a function by putting a wrapper in its place. The wrapper hands the call
//! to the aspect's `around`, or advises the function `before` and `after` an asynchronous call.
//!
//! - `tokens` and `builder` hold token streams: what they are made of, and how they are written.
//! - `syntax` has the parts of a function that weaving reads, and `reading` takes them out of the
//!   syntax trees of `syn`.
//! - `templates` states the source text that weaving produces, and `codegen` and `weaving` produce
//!   it.
//! - `inputs` says what is taken from a function, `wording` and `layout` what is made of it and
//!   where it stands, and `flow` what passes through `around`.
//! - `counting`, `laws`, `nesting` and `relaxing` prove what holds of all of it.

pub mod builder;
pub mod codegen;
pub mod counting;
pub mod flow;
pub mod inputs;
pub mod laws;
pub mod layout;
pub mod nesting;
pub mod numerals;
pub mod reading;
pub mod relaxing;
pub mod syntax;
pub mod templates;
pub mod tokens;
pub mod vocabulary;
pub mod weaving;
pub mod wording;
