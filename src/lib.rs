// A client for enumerating the user accounts of a directory service.
//
// - `dn`: connection targets, base distinguished names built from dotted
//   domain names, and bind identities.
// - `session`: the steps of connecting, binding and searching, each a decision
//   on the outcome of the previous network operation.
// - `entry`: search results and their rendering as table cells.
// - `error`: the error kinds and their messages.
use vstd::prelude::*;

pub mod dn;
pub mod error;
pub mod entry;
pub mod session;

verus! {

} // verus!
