//! What the program sees of the runtime's accounts: who owns an account, and
//! the bytes it stores.

use vstd::prelude::*;

verus! {

/// Length in bytes of an identity.
pub const IDENTITY_LEN: usize = 32;

/// The identity of a program or of an account's owner: an opaque 32-byte key.
///
/// Its model is the sequence of its bytes, and two identities are equal exactly
/// when their bytes are.
#[derive(Debug, Clone, Copy)]
pub struct Identity {
    pub bytes: [u8; 32],
}

impl View for Identity {
    type V = Seq<u8>;

    open spec fn view(&self) -> Seq<u8> {
        self.bytes@
    }
}

impl Identity {
    /// Wraps the 32 bytes of a key.
    pub fn new(bytes: [u8; 32]) -> (id: Identity)
        ensures
            id@ == bytes@,
    {
        Identity { bytes }
    }
}

impl Default for Identity {
    /// The key whose bytes are all zero.
    fn default() -> (id: Identity)
        ensures
            id@ == Seq::new(32, |i: int| 0u8),
    {
        let id = Identity { bytes: [0u8; 32] };
        assert(id@ =~= Seq::new(32, |i: int| 0u8));
        id
    }
}

impl PartialEq for Identity {
    /// Compares the two keys byte by byte.
    fn eq(&self, other: &Identity) -> (same: bool) {
        let mut i: usize = 0;
        while i < IDENTITY_LEN
            invariant
                i <= IDENTITY_LEN,
                forall|k: int| 0 <= k < i ==> self.bytes@[k] == other.bytes@[k],
            decreases IDENTITY_LEN - i,
        {
            if self.bytes[i] != other.bytes[i] {
                return false;
            }
            i += 1;
        }
        assert(self@ =~= other@);
        true
    }
}

impl Eq for Identity {

}

impl vstd::std_specs::cmp::PartialEqSpecImpl for Identity {
    open spec fn obeys_eq_spec() -> bool {
        true
    }

    open spec fn eq_spec(&self, other: &Identity) -> bool {
        self@ == other@
    }
}

/// The model of an account: its owner's key and its stored bytes.
pub struct AccountView {
    pub owner: Seq<u8>,
    pub data: Seq<u8>,
}

/// An account as the program receives it.
#[derive(Debug)]
pub struct Account {
    /// The program that may change this account's data.
    pub owner: Identity,
    /// The account's whole persistent state.
    pub data: Vec<u8>,
}

impl View for Account {
    type V = AccountView;

    open spec fn view(&self) -> AccountView {
        AccountView { owner: self.owner@, data: self.data@ }
    }
}

impl DeepView for Account {
    type V = AccountView;

    open spec fn deep_view(&self) -> AccountView {
        self@
    }
}

impl Clone for Account {
    /// A copy with the same owner and the same bytes.
    fn clone(&self) -> (copy: Account)
        ensures
            copy@ == self@,
    {
        Account { owner: self.owner, data: self.data.clone() }
    }
}

} // verus!
