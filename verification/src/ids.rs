//! Fresh identifiers for tabs and panes.

use vstd::prelude::*;

verus! {

/// A fresh 128-bit identifier: calls `uuid::Uuid::new_v4` and reads the
/// value with `Uuid::as_u128`. The value is random, so nothing is stated of
/// it: two calls may in principle agree.
#[verifier::external_body]
pub(crate) fn random_u128() -> u128 {
    uuid::Uuid::new_v4().as_u128()
}

} // verus!
