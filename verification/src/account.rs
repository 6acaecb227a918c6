use vstd::prelude::*;
use crate::error::MintError;

verus! {

/// One account handle as the runtime hands it to the program: its address,
/// its balance in native lamports, and its raw storage bytes. The handler
/// reads these as plain values and mutates only the storage of the mint
/// account; the hosting runtime owns everything else about an account.
pub struct Account {
    /// The account's address.
    pub key: [u8; 32],
    /// The account's balance in lamports.
    pub lamports: u64,
    /// The account's raw storage.
    pub data: Vec<u8>,
}

/// A cursor over the ordered account list: each required account is taken
/// from the next position, and exhaustion is a typed missing-account failure
/// rather than an out-of-bounds access.
pub struct AccountCursor {
    /// The position the next call will hand out.
    pub position: usize,
}

impl AccountCursor {
    /// A cursor standing at the front of the list.
    pub fn new() -> (c: AccountCursor)
        ensures
            c.position == 0,
    {
        AccountCursor { position: 0 }
    }

    /// Hands out the next position of a list of `n_accounts` accounts, or
    /// fails with the missing-account error once the list is exhausted.
    pub fn next_index(&mut self, n_accounts: usize) -> (r: Result<usize, MintError>)
        ensures
            old(self).position < n_accounts ==> {
                &&& r == Ok::<usize, MintError>(old(self).position)
                &&& final(self).position == old(self).position + 1
            },
            old(self).position >= n_accounts ==> {
                &&& r == Err::<usize, MintError>(MintError::NotEnoughAccountKeys)
                &&& final(self).position == old(self).position
            },
    {
        if self.position < n_accounts {
            let i = self.position;
            self.position = i + 1;
            Ok(i)
        } else {
            Err(MintError::NotEnoughAccountKeys)
        }
    }
}

} // verus!
