//! BIP78 PayJoin: the sender's request builder and proposal validator, and the
//! receiver's phased intake of an original PSBT.
//!
//! PSBTs are held as plain values ([`psbt::PartiallySignedTransaction`]);
//! decoding and encoding them is left to the caller.

use vstd::prelude::*;

pub mod psbt;
pub mod input_type;
pub mod weight;
pub mod sender;
pub mod laws;
pub mod url;
pub mod uri;
pub mod state;
pub mod receiver;

pub use uri::{Uri, ParseUriError, Bip21Error, PjParseError};

verus! {

} // verus!
