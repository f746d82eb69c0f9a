//! Constrained-value validation and choice serialization for ISO 20022
//! message documents.
//!
//! The crate has two layers.
//!
//! The framework modules hold what all messages share:
//!
//! - [`pattern`]: compiled patterns and the registry that compiles each
//!   pattern once;
//! - [`constraint`]: length, range and pattern checks on scalar values;
//! - [`decimal`]: exact decimal numbers;
//! - [`violation`]: what a failed check reports, and field paths;
//! - [`tree`]: document trees and the walker that collects every violation
//!   of a tree;
//! - [`choice`]: the codec for groups of mutually exclusive fields;
//! - [`validate`]: the validation of typed message values;
//! - [`identifiers`]: the patterns of the identifier and code formats;
//! - [`render`]: paths and numbers as text.
//!
//! The message modules hold the data-transfer types of individual messages,
//! each with the constraints that its fields are declared with.

pub mod decimal;
pub mod pattern;
pub mod violation;
pub mod render;
pub mod constraint;
pub mod tree;
pub mod choice;
pub mod identifiers;
pub mod validate;

pub mod documents;

pub mod auth_094_001_02;
pub mod cain_006_001_03;
pub mod camt_006_001_09;
pub mod seev_003_001_08;
pub mod tsmt_035_001_03;
