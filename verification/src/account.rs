use crate::address::Address;
use crate::error::LockError;
use vstd::prelude::*;

verus! {

/// An account at a fixed address whose storage is allocated on first use:
/// `data` is `None` until then.
#[derive(Debug, PartialEq, Eq)]
pub struct Account<T> {
    pub address: Address,
    pub data: Option<T>,
}

impl<T: Copy> Clone for Account<T> {
    fn clone(&self) -> (copy: Account<T>)
        ensures
            copy == *self,
    {
        *self
    }
}

impl<T: Copy> Copy for Account<T> {

}

impl<T> Account<T> {
    /// An account at `address` whose storage is not allocated yet.
    pub fn absent(address: Address) -> (account: Account<T>)
        ensures
            account.address == address,
            account.data is None,
    {
        Account { address, data: None }
    }

    /// An account at `address` that holds `data`.
    pub fn holding(address: Address, data: T) -> (account: Account<T>)
        ensures
            account.address == address,
            account.data == Some(data),
    {
        Account { address, data: Some(data) }
    }
}

/// A holding of one asset: which asset, who may move it out, and how much.
#[derive(Clone, Copy, Debug, PartialEq, Eq)]
pub struct TokenAccount {
    pub mint: Address,
    pub authority: Address,
    pub amount: u64,
}

impl TokenAccount {
    /// Whether a further `amount` still fits in the holding.
    pub open spec fn can_hold(self, amount: u64) -> bool {
        self.amount + amount <= u64::MAX
    }

    /// The holding once `amount` more has arrived.
    pub open spec fn with_deposit(self, amount: u64) -> TokenAccount
        recommends
            self.can_hold(amount),
    {
        TokenAccount { amount: (self.amount + amount) as u64, ..self }
    }

    /// An empty holding of the asset `mint`, under `authority`.
    pub fn new(mint: Address, authority: Address) -> (holding: TokenAccount)
        ensures
            holding == (TokenAccount { mint, authority, amount: 0 }),
    {
        TokenAccount { mint, authority, amount: 0 }
    }

    /// Counts `amount` more as held. Where the sum does not fit in a `u64`
    /// the holding stays as it was and the error is `Overflow`.
    pub fn receive(&mut self, amount: u64) -> (received: Result<(), LockError>)
        ensures
            old(self).can_hold(amount) ==> received is Ok && *final(self) == old(self).with_deposit(
                amount,
            ),
            !old(self).can_hold(amount) ==> received == Err::<(), LockError>(LockError::Overflow)
                && *final(self) == *old(self),
    {
        match self.amount.checked_add(amount) {
            Some(total) => {
                self.amount = total;
                Ok(())
            },
            None => Err(LockError::Overflow),
        }
    }
}

/// What the transfer primitive is asked to do: move `amount` from the holding
/// at `from` to the holding at `to`, on the word of `authority`.
#[derive(Clone, Copy, Debug, PartialEq, Eq)]
pub struct Transfer {
    pub from: Address,
    pub to: Address,
    pub authority: Address,
    pub amount: u64,
}

} // verus!
