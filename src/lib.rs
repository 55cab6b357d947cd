//! Schema resolution for a three-namespace protobuf build: validation of
//! attribute rules and extern bindings against declared types, per-namespace
//! compilation plans, and the driver that runs them in dependency order.

pub mod model;
pub mod compiler;
pub mod tables;
pub mod pipeline;
pub mod schema;
pub mod inventory;
pub mod lexer;
pub mod codegen;
pub mod laws;
pub mod convert;
