//! Rendering core of a template-language evaluator.
//!
//! Two tightly coupled pieces: a set of built-in value filters with a typed
//! error taxonomy (`filters`), and a composite render node that concatenates
//! the output of its children and honors a cooperative interrupt signal
//! (`template`). Values are dynamically typed (`value`); numbers are IEEE-754
//! single-precision, carried as bit patterns (`single`); the per-pass filter
//! registry and interrupt flag live in `context`.

pub mod context;
pub mod filters;
pub mod single;
pub mod template;
pub mod value;
