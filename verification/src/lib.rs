//! Tool library of the Solisp interpreter: the runtime value model and the
//! standard tools, with their contracts.
pub mod access;
pub mod error;
pub mod float_bits;
pub mod seq_models;
pub mod sorting;
pub mod text;
pub mod value;
pub mod tools;
