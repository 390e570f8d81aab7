//! Key identity and trust-metadata addressing for an Uptane update client.
//!
//! The crate classifies public keys, verifies signatures against them, holds
//! the validated identifiers of ECUs, and decides which stored version of a
//! metadata document answers a request.

pub mod crypto;
pub mod ecu_serial;
pub mod hardware_identifier;
pub mod json;
pub mod metadata;
pub mod public_key;
pub mod secondary_info;
pub mod sqlstorage;
pub mod text;
pub mod tuf_repository_type;
pub mod tuf_roles;
pub mod tuf_version;
pub mod types;
pub mod validation;
