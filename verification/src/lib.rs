//! Client-side request/resolution protocol for extending the time to live
//! (TTL) of ledger entries.
//!
//! The [`builder`] module clamps a requested extension length to the
//! network's ceiling and constructs the minimal single-operation
//! transaction that carries an extend-footprint-TTL operation. The
//! [`resolver`] module interprets the execution metadata the network
//! returns — and, when the metadata records no state change, the answer of
//! a direct follow-up query — to recover the entry's new expiration
//! ledger. The [`strkey`] module produces the account identity text the
//! transport needs for its account lookup.
//!
//! Network transport, signing and the wire encoding of transactions are
//! collaborators outside this crate: callers hand their answers in as
//! plain values.

use vstd::prelude::*;

pub mod builder;
pub mod output;
pub mod resolver;
pub mod strkey;
