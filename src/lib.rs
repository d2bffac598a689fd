//! Runtime text translation: per-language tables of namespaced keys, a store
//! with an active language, and positional placeholder substitution.
pub mod interp;
pub mod source;
pub mod store;
pub mod table;
pub mod text;
