//! Release signing, verification and update sequencing for a self-hosted
//! media archive, together with the small text helpers its tools share.

pub mod archive;
pub mod cli;
pub mod config;
pub mod crypto;
pub mod keys;
pub mod media;
pub mod metadata;
pub mod normalize;
pub mod signing;
pub mod text;
pub mod update;
