//! Link-storage core for a URL shortener: generation of fixed-length short
//! keys from a curated alphabet, URL normalization before storage, and the
//! read/write contract against a key-value backing store, with a closed
//! two-kind error taxonomy.

pub mod error;
pub mod keygen;
pub mod store;
