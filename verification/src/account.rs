//! The safe view of a ledger account that the vault logic works on.
//!
//! The host hands each operation a list of referenced accounts. The core
//! never touches the host's raw buffers: it receives each account as an
//! [`Account`] value — its address, its native balance, its stored bytes and
//! the flag saying whether the caller authorized the request — and hands
//! back the mutated values.

use vstd::prelude::*;

verus! {

/// Number of bytes in an identity (a public account address).
pub const PUBKEY_LEN: usize = 32;

/// An opaque fixed-size identifier naming a ledger participant or a derived
/// address. Compared by byte equality.
pub type Pubkey = [u8; 32];

/// The mathematical value of an [`Account`].
pub struct AccountView {
    /// The account's address.
    pub key: Seq<u8>,
    /// The account's native balance.
    pub lamports: u64,
    /// The bytes stored in the account.
    pub data: Seq<u8>,
    /// Whether the holder of this account's key authorized the request
    /// (verified by the host; the core only reads the flag).
    pub is_signer: bool,
}

impl AccountView {
    /// The views that can arise from an [`Account`] at all.
    pub open spec fn wf(self) -> bool {
        self.key.len() == PUBKEY_LEN
    }
}

/// One ledger account, as validated and sized by the system boundary.
#[derive(Clone, Debug)]
pub struct Account {
    /// The account's address.
    pub key: Pubkey,
    /// The account's native balance.
    pub lamports: u64,
    /// The bytes stored in the account.
    pub data: Vec<u8>,
    /// Whether the holder of this account's key authorized the request.
    pub is_signer: bool,
}

impl View for Account {
    type V = AccountView;

    open spec fn view(&self) -> AccountView {
        AccountView {
            key: self.key@,
            lamports: self.lamports,
            data: self.data@,
            is_signer: self.is_signer,
        }
    }
}

/// Byte equality of two identities.
pub fn pubkey_eq(a: &Pubkey, b: &Pubkey) -> (r: bool)
    ensures
        r <==> a@ == b@,
{
    let mut i: usize = 0;
    while i < 32
        invariant
            i <= 32,
            forall|j: int| 0 <= j < i ==> a@[j] == b@[j],
        decreases 32 - i,
    {
        if a[i] != b[i] {
            return false;
        }
        i += 1;
    }
    proof {
        assert(a@ =~= b@);
    }
    true
}

} // verus!
