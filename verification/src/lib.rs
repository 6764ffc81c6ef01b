//! A lint rule that finds length checks made useless by a neighbouring call
//! of `every` or `some` on the same array:
//!
//! ```text
//! array.length === 0 || array.every(Boolean)
//! array.length > 0 && array.some(Boolean)
//! ```
//!
//! `every` is already `true` and `some` already `false` on an empty array, so
//! the comparison of `length` with zero can be removed.
//!
//! The rule works on one logical expression at a time and only on its shape:
//! it flattens the chain of operands, classifies each operand, and reports
//! every pair of neighbours that consists of such a length check and such a
//! call on the same identifier.

pub mod ast;
pub mod classify;
pub mod diagnostic;
pub mod flatten;
pub mod matcher;
pub mod rule;
mod text;

pub use ast::{
    BinaryExpression, BinaryOperator, CallExpression, Expression, IdentifierReference, Literal,
    LogicalExpression, LogicalOperator, MemberExpression, Span,
};
pub use classify::{
    classify_as_comparison, classify_as_quantifier, get_static_member_property_name,
    ComparisonCondition, QuantifierCall,
};
pub use diagnostic::{NoUselessLengthCheckDiagnostic, Severity};
pub use flatten::flat_logical_expression;
pub use matcher::{is_useless_check, match_pair, CombinationRule};
pub use rule::NoUselessLengthCheck;
