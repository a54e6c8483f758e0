//! Core engine for synthesizing test doubles ("mocks") from an interface
//! description.
//!
//! Given a descriptor of an interface (a named, ordered set of method
//! signatures), this crate derives the structure of a mock type for it and
//! provides the verified runtime machinery such a mock is built from:
//!
//! * [`shape`] classifies parameter types: a parameter whose type contains an
//!   opaque capability bound (possibly nested under reference, grouping or
//!   parenthesis wrappers) must be dispatched dynamically, and the classifier
//!   computes the dynamic-dispatch form of its type.
//! * [`plan`] turns an interface descriptor into a mock plan: one expectation
//!   record per method, each with its stub-storage strategy chosen from the
//!   classification.
//! * [`record`] holds the per-method expectation state (expected call count,
//!   actual call count, optional stub), the fluent configuration operations,
//!   the invocation protocol, and the teardown verifier.
//! * [`errors`] defines the three fatal error conditions a mock can report,
//!   each with an exactly specified message.
//! * [`text`] renders call counts as decimal numerals for those messages.
//!
//! Parsing a source declaration into a descriptor and emitting synthesized
//! types back out as source text are left to collaborators around this
//! crate; the engine itself performs no I/O and keeps no global state.

pub mod errors;
pub mod plan;
pub mod record;
pub mod shape;
pub mod text;
