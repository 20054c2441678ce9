//! A PSA Crypto secure element driver that hands its key management and
//! asymmetric operations to the Parsec service.
//!
//! The verified library holds the decisions that the driver makes around its
//! requests to Parsec: which Parsec key a key slot stands for, which provider
//! the driver settles on, and which PSA status each outcome is reported as.
pub mod status;
pub mod key_slot;
pub mod provider;
pub mod output;
