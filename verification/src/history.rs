use crate::error::{LockError, TransferError};
use crate::lock::InitializeLock;
use vstd::prelude::*;

verus! {

/// One call of `initialize_lock`: the amount asked for and the answer that the
/// transfer primitive gave.
#[derive(Clone, Copy, Debug, PartialEq, Eq)]
pub struct Deposit {
    pub amount: u64,
    pub transfer: Result<(), TransferError>,
}

impl InitializeLock {
    /// The state that one call leaves behind: the next state where the lock
    /// succeeds, the same state where it is rejected.
    pub open spec fn after(self, call: Deposit) -> InitializeLock {
        match self.outcome(call.amount, call.transfer) {
            Ok(next) => next,
            Err(_) => self,
        }
    }

    /// What one call adds to the vault and to the record: its amount where the
    /// lock succeeds, nothing where it is rejected.
    pub open spec fn accepted(self, call: Deposit) -> nat {
        if self.outcome(call.amount, call.transfer) is Ok {
            call.amount as nat
        } else {
            0
        }
    }

    /// The state that a series of calls leaves behind, the first call first.
    pub open spec fn after_all(self, calls: Seq<Deposit>) -> InitializeLock
        decreases calls.len(),
    {
        if calls.len() == 0 {
            self
        } else {
            self.after_all(calls.drop_last()).after(calls.last())
        }
    }

    /// The sum of the amounts of the calls in a series that succeed.
    pub open spec fn deposited(self, calls: Seq<Deposit>) -> nat
        decreases calls.len(),
    {
        if calls.len() == 0 {
            0
        } else {
            self.deposited(calls.drop_last()) + self.after_all(calls.drop_last()).accepted(
                calls.last(),
            )
        }
    }

    /// A call changes only what the vault and the record hold, and only
    /// upwards: every address, the asset and the vault's authority stay, and a
    /// vault or a record that exists is never taken away.
    pub proof fn lemma_call_keeps_identity(self, call: Deposit)
        ensures
            self.after(call).program_id == self.program_id,
            self.after(call).token_mint == self.token_mint,
            self.after(call).project_wallet == self.project_wallet,
            self.after(call).project_wallet_authority == self.project_wallet_authority,
            self.after(call).program_pda == self.program_pda,
            self.after(call).user == self.user,
            self.after(call).locked_account.address == self.locked_account.address,
            self.after(call).investor_locked_tokens.address == self.investor_locked_tokens.address,
            self.after(call).vault().mint == self.vault().mint,
            self.after(call).vault().authority == self.vault().authority,
            self.after(call).correctly_addressed() == self.correctly_addressed(),
            self.locked_account.data is Some ==> self.after(call).locked_account.data is Some,
            self.investor_locked_tokens.data is Some ==> self.after(
                call,
            ).investor_locked_tokens.data is Some,
    {
    }

    /// What a series of calls cannot touch: the depositor, the addresses of
    /// vault and record, the asset the vault holds and the authority over it
    /// stay for good. A vault allocated by one of the calls answers to
    /// `program_pda` and holds `token_mint` ever after, and neither vault nor
    /// record, once there, is ever taken away.
    pub proof fn lemma_vault_authority_is_permanent(self, calls: Seq<Deposit>)
        ensures
            self.after_all(calls).user == self.user,
            self.after_all(calls).program_id == self.program_id,
            self.after_all(calls).program_pda == self.program_pda,
            self.after_all(calls).token_mint == self.token_mint,
            self.after_all(calls).locked_account.address == self.locked_account.address,
            self.after_all(calls).investor_locked_tokens.address
                == self.investor_locked_tokens.address,
            self.after_all(calls).vault().authority == self.vault().authority,
            self.after_all(calls).vault().mint == self.vault().mint,
            self.locked_account.data is None ==> self.after_all(calls).vault().authority
                == self.program_pda && self.after_all(calls).vault().mint == self.token_mint,
            self.locked_account.data is Some ==> self.after_all(calls).locked_account.data
                is Some,
            self.investor_locked_tokens.data is Some ==> self.after_all(
                calls,
            ).investor_locked_tokens.data is Some,
        decreases calls.len(),
    {
        if calls.len() > 0 {
            self.lemma_vault_authority_is_permanent(calls.drop_last());
            self.after_all(calls.drop_last()).lemma_call_keeps_identity(calls.last());
        }
    }

    /// One depositor, one vault, one record: whenever locks are accepted for
    /// the same depositor under the same program, they are locks into the same
    /// vault and the same record, at the addresses derived for that depositor.
    pub proof fn lemma_one_vault_and_one_record_per_depositor(
        self,
        call: Deposit,
        other: InitializeLock,
        other_call: Deposit,
    )
        requires
            self.user == other.user,
            self.program_id == other.program_id,
            self.outcome(call.amount, call.transfer) is Ok,
            other.outcome(other_call.amount, other_call.transfer) is Ok,
        ensures
            self.correctly_addressed(),
            self.locked_account.address == other.locked_account.address,
            self.investor_locked_tokens.address == other.investor_locked_tokens.address,
    {
        self.locked_account.address.lemma_view_decides_equality(other.locked_account.address);
        self.investor_locked_tokens.address.lemma_view_decides_equality(
            other.investor_locked_tokens.address,
        );
    }

    /// A call that fails leaves the vault and the record as they were, absent
    /// if they were absent. A failed transfer always fails the call.
    pub proof fn lemma_failure_changes_nothing(self, call: Deposit)
        ensures
            self.outcome(call.amount, call.transfer) is Err ==> self.after(call) == self,
            call.transfer is Err ==> self.outcome(call.amount, call.transfer) is Err,
            call.transfer matches Err(refusal) ==> (self.correctly_addressed() ==> self.outcome(
                call.amount,
                call.transfer,
            ) == Err::<InitializeLock, LockError>(LockError::of_transfer(refusal))),
            call.transfer is Err ==> self.after(call) == self,
    {
    }

    /// An amount that would take the record past the largest `u64` is
    /// rejected, whatever the transfer primitive answered, and the vault is
    /// left as it was.
    pub proof fn lemma_overflow_is_rejected(self, call: Deposit)
        requires
            self.locked_amount() + call.amount > u64::MAX,
        ensures
            self.outcome(call.amount, call.transfer) is Err,
            self.correctly_addressed() && call.transfer is Ok ==> self.outcome(
                call.amount,
                call.transfer,
            ) == Err::<InitializeLock, LockError>(LockError::Overflow),
            self.planned(call.amount) is Err,
            self.after(call).locked_account == self.locked_account,
            self.after(call).vault_balance() == self.vault_balance(),
    {
    }

    /// While the vault holds exactly what the record counts, only the record
    /// decides whether an amount fits.
    pub proof fn lemma_balanced_vault_never_overflows_first(self, amount: u64)
        requires
            self.vault_balance() == self.locked_amount(),
        ensures
            self.can_hold(amount) <==> self.locked_amount() + amount <= u64::MAX,
    {
    }

    /// Once `begin_lock` has named a transfer, the lock succeeds exactly when
    /// that transfer does: no lock fails after its transfer went through.
    /// Where `begin_lock` names none, no answer makes the lock succeed.
    pub proof fn lemma_planned_lock_follows_transfer(
        self,
        amount: u64,
        transfer: Result<(), TransferError>,
    )
        ensures
            self.planned(amount) is Ok ==> (self.outcome(amount, transfer) is Ok <==> transfer
                is Ok),
            self.planned(amount) is Err ==> self.outcome(amount, transfer) is Err,
    {
    }

    /// Conservation: over any series of calls, the vault and the record grow
    /// by the same sum, the sum of the amounts of the calls that succeeded.
    pub proof fn lemma_conservation(self, calls: Seq<Deposit>)
        ensures
            self.after_all(calls).vault_balance() == self.vault_balance() + self.deposited(calls),
            self.after_all(calls).locked_amount() == self.locked_amount() + self.deposited(calls),
        decreases calls.len(),
    {
        if calls.len() > 0 {
            self.lemma_conservation(calls.drop_last());
        }
    }

    /// Conservation from the start: for a depositor who had neither vault nor
    /// record, after any series of calls the record counts exactly what went
    /// into the vault.
    pub proof fn lemma_conservation_from_start(self, calls: Seq<Deposit>)
        requires
            self.locked_account.data is None,
            self.investor_locked_tokens.data is None,
        ensures
            self.after_all(calls).locked_amount() == self.deposited(calls),
            self.after_all(calls).vault_balance() == self.deposited(calls),
    {
        self.lemma_conservation(calls);
    }

    /// Running one series of calls and then another is running them all.
    pub proof fn lemma_after_all_composes(self, calls: Seq<Deposit>, more: Seq<Deposit>)
        ensures
            self.after_all(calls + more) == self.after_all(calls).after_all(more),
        decreases more.len(),
    {
        if more.len() == 0 {
            assert(calls + more =~= calls);
        } else {
            assert((calls + more).drop_last() =~= calls + more.drop_last());
            assert((calls + more).last() == more.last());
            self.lemma_after_all_composes(calls, more.drop_last());
        }
    }

    /// Monotonicity: whatever calls are made, and whatever calls follow them,
    /// the locked amount never goes down.
    pub proof fn lemma_locked_amount_never_decreases(self, calls: Seq<Deposit>, more: Seq<Deposit>)
        ensures
            self.after_all(calls + more).locked_amount() >= self.after_all(calls).locked_amount(),
            self.after_all(calls + more).vault_balance() >= self.after_all(calls).vault_balance(),
    {
        self.lemma_after_all_composes(calls, more);
        self.after_all(calls).lemma_conservation(more);
    }
}

} // verus!
