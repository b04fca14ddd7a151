//! Backend stage of an interface-definition-language compiler: walks a
//! fully resolved graph of data types in dependency order and emits
//! host-language type declarations that keep the IDL's layout semantics
//! (member order, explicit representation, fixed-width primitives).

pub mod error;
pub mod names;
pub mod pretty_writer;
pub mod rust;
pub mod types;

