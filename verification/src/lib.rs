//! A toy 1-of-n oblivious transfer protocol built from textbook RSA.
//!
//! The receiver obtains exactly one message from a sender's list of n
//! messages, at an index of the receiver's choosing; the public-key list
//! handed to the sender holds one real key and n-1 obliviously sampled
//! ones, so the sender cannot tell which position was chosen.
#![allow(non_snake_case)]

pub mod ot;
pub mod pke;
pub mod util;
