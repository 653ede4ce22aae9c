use crate::error::LockError;
use vstd::bytes::{
    lemma_auto_spec_u64_to_from_le_bytes, spec_u64_from_le_bytes, spec_u64_to_le_bytes,
    u64_from_le_bytes, u64_to_le_bytes,
};
use vstd::prelude::*;

verus! {

/// The ledger record of one depositor: everything they have locked so far.
/// The count only ever grows, and never wraps.
#[derive(Clone, Copy, Debug, PartialEq, Eq, Structural)]
pub struct LockedTokens {
    pub locked_amount: u64,
}

impl LockedTokens {
    /// Whether a further `amount` still fits in the record.
    pub open spec fn can_hold(self, amount: u64) -> bool {
        self.locked_amount + amount <= u64::MAX
    }

    /// The record once `amount` more has been locked.
    pub open spec fn with_deposit(self, amount: u64) -> LockedTokens
        recommends
            self.can_hold(amount),
    {
        LockedTokens { locked_amount: (self.locked_amount + amount) as u64 }
    }

    /// The stored form of the record: its one field and nothing else, eight
    /// bytes, the lowest first.
    pub open spec fn stored(self) -> Seq<u8> {
        spec_u64_to_le_bytes(self.locked_amount)
    }

    /// The record that stored bytes stand for, where they are eight.
    pub open spec fn loaded(bytes: Seq<u8>) -> Option<LockedTokens> {
        if bytes.len() == 8 {
            Some(LockedTokens { locked_amount: spec_u64_from_le_bytes(bytes) })
        } else {
            None
        }
    }

    /// The record of a depositor who has locked nothing yet.
    pub fn new() -> (record: LockedTokens)
        ensures
            record.locked_amount == 0,
    {
        LockedTokens { locked_amount: 0 }
    }

    /// The stored form of the record.
    pub fn to_bytes(&self) -> (bytes: Vec<u8>)
        ensures
            bytes@ == self.stored(),
            bytes@.len() == 8,
    {
        u64_to_le_bytes(self.locked_amount)
    }

    /// Reads a record back from its stored form. Anything but eight bytes is
    /// no record.
    pub fn from_bytes(bytes: &[u8]) -> (record: Option<LockedTokens>)
        ensures
            record == LockedTokens::loaded(bytes@),
    {
        if bytes.len() == 8 {
            Some(LockedTokens { locked_amount: u64_from_le_bytes(bytes) })
        } else {
            None
        }
    }

    /// Storing a record and loading it again gives the record back, and every
    /// eight bytes are the stored form of the record they load as.
    pub proof fn lemma_stored_form_round_trips(self, bytes: Seq<u8>)
        ensures
            self.stored().len() == 8,
            LockedTokens::loaded(self.stored()) == Some(self),
            bytes.len() == 8 ==> LockedTokens::loaded(bytes)->Some_0.stored() == bytes,
    {
        lemma_auto_spec_u64_to_from_le_bytes();
    }

    /// Counts `amount` more as locked. Where the sum does not fit in a `u64`
    /// the record stays as it was and the error is `Overflow`.
    pub fn record_deposit(&mut self, amount: u64) -> (recorded: Result<(), LockError>)
        ensures
            old(self).can_hold(amount) ==> recorded is Ok && *final(self) == old(self).with_deposit(
                amount,
            ),
            !old(self).can_hold(amount) ==> recorded == Err::<(), LockError>(LockError::Overflow)
                && *final(self) == *old(self),
            final(self).locked_amount >= old(self).locked_amount,
    {
        match self.locked_amount.checked_add(amount) {
            Some(total) => {
                self.locked_amount = total;
                Ok(())
            },
            None => Err(LockError::Overflow),
        }
    }
}

} // verus!
