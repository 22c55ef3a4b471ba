//! Generators for JSON-backed text impls: given a type declaration, they
//! produce the source of `Display`, `Debug` and `FromStr` impls that go
//! through `serde_json`.
pub mod decl;
pub mod render;
pub mod outcome;
pub mod derive;
