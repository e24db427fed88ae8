//! Provenance hashing and content-addressing pipeline for off-chain
//! supply-chain records.
//!
//! The library canonicalizes a stage's business data into a record, computes
//! its cryptographic fingerprints (a Solidity-compatible Keccak-256 family and
//! a general-purpose SHA-256 family), aggregates fingerprints across records
//! (merkle root, commit-reveal), and guarantees that no receipt is produced
//! until the underlying record has been durably stored and pinned by the
//! storage collaborator.

pub mod canonical;
pub mod commit_reveal;
pub mod config;
pub mod envelope;
pub mod errors;
pub mod hashing;
pub mod identity;
pub mod merkle;
pub mod payload;
pub mod pipeline;
pub mod stages;
pub mod storage;
