//! Access-token capability for generated API clients, and the manifest
//! emission of the client/CLI code generator.
pub mod manifest;
pub mod token;
