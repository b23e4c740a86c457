//! The identity of a caller.

use vstd::prelude::*;

verus! {

/// The identity of a caller: the 32 bytes by which the host names an account.
///
/// Two identities are the same account exactly when their bytes agree.
#[derive(Clone, Copy, Debug, PartialEq, Eq, Hash)]
pub struct AccountId(pub [u8; 32]);

impl View for AccountId {
    type V = Seq<u8>;

    /// The bytes of the identity, in order.
    open spec fn view(&self) -> Seq<u8> {
        self.0@
    }
}

} // verus!
