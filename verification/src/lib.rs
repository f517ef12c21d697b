//! A minimal runtime layer: a growable owned array, a single-owner heap box,
//! a byte-oriented string, a deterministic 64-bit hash, and in-memory byte
//! streams with exact read/write/seek contracts.
#![allow(non_snake_case)]

pub mod hash;
pub mod mem;
pub mod stream;
pub mod string;
pub mod text;
pub mod vec;
