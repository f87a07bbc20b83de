//! Client-side decision logic for a federated object-storage network: scoped
//! bearer-credential selection, discovery-header parsing with a per-process
//! cache, and namespace-prefix URL rewriting for authenticated GET/PUT
//! transfers.

pub mod credentials;
pub mod error;
pub mod pelican;
pub mod strings;
pub mod transfer;

use vstd::prelude::*;

verus! {

} // verus!
