//! The accounts that an instruction names, in the order the instruction
//! lists them.

use vstd::prelude::*;

use crate::keys::Pubkey;

verus! {

/// One account of an instruction: its address and how the instruction
/// uses it.
#[derive(Clone, Copy, Debug, PartialEq, Eq, Hash)]
pub struct AccountMeta {
    pub pubkey: Pubkey,
    pub is_signer: bool,
    pub is_writable: bool,
}

/// The address of the account at position `i` of `accounts`.
pub open spec fn key_at(accounts: Seq<AccountMeta>, i: int) -> Pubkey {
    accounts[i].pubkey
}

/// Positional reader over an instruction's accounts: each call hands out the
/// address of the next account, or `None` once the accounts run out.
pub struct AccountCursor<'a> {
    pub accounts: &'a [AccountMeta],
    pub next: usize,
}

impl<'a> AccountCursor<'a> {
    /// A cursor at the first account.
    pub fn new(accounts: &'a [AccountMeta]) -> (c: AccountCursor<'a>)
        ensures
            c.accounts@ == accounts@,
            c.next == 0,
    {
        AccountCursor { accounts, next: 0 }
    }

    /// The address of the next account, if any is left; the cursor moves
    /// past it.
    pub fn next_account(&mut self) -> (r: Option<Pubkey>)
        ensures
            final(self).accounts@ == old(self).accounts@,
            old(self).next < old(self).accounts@.len() ==> r == Some(
                key_at(old(self).accounts@, old(self).next as int),
            ) && final(self).next == old(self).next + 1,
            old(self).next >= old(self).accounts@.len() ==> r is None && final(self).next
                == old(self).next,
    {
        if self.next < self.accounts.len() {
            let k = self.accounts[self.next].pubkey;
            self.next = self.next + 1;
            Some(k)
        } else {
            None
        }
    }
}

} // verus!
