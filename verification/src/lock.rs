use crate::account::{Account, TokenAccount, Transfer};
use crate::address::{
    address_bytes, derived_address, ledger_address, vault_address, Address, LEDGER_SEED,
    VAULT_SEED,
};
use crate::error::{LockError, TransferError};
use crate::ledger::LockedTokens;
use vstd::prelude::*;

verus! {

/// Everything one lock works on: the depositor, the holding the tokens come
/// from, the depositor's vault and the depositor's ledger record.
///
/// The vault and the record are allocated by the first lock that succeeds. A
/// vault allocated here holds the asset `token_mint` and answers to
/// `program_pda`; a lock never changes who a vault answers to.
#[derive(Clone, Copy, Debug, PartialEq, Eq)]
pub struct InitializeLock {
    /// The program under which the vault and the record are addressed.
    pub program_id: Address,
    /// The asset that is locked.
    pub token_mint: Address,
    /// The holding the tokens are taken from.
    pub project_wallet: Address,
    /// Who signs for `project_wallet`.
    pub project_wallet_authority: Address,
    /// The depositor's vault.
    pub locked_account: Account<TokenAccount>,
    /// The authority over the vault.
    pub program_pda: Address,
    /// The depositor's ledger record.
    pub investor_locked_tokens: Account<LockedTokens>,
    /// The depositor.
    pub user: Address,
}

impl InitializeLock {
    /// The vault as it is, or as it will be allocated: empty, holding
    /// `token_mint`, under `program_pda`.
    pub open spec fn vault(self) -> TokenAccount {
        match self.locked_account.data {
            Some(vault) => vault,
            None => TokenAccount { mint: self.token_mint, authority: self.program_pda, amount: 0 },
        }
    }

    /// The ledger record as it is, or as it will be allocated: nothing locked.
    pub open spec fn record(self) -> LockedTokens {
        match self.investor_locked_tokens.data {
            Some(record) => record,
            None => LockedTokens { locked_amount: 0 },
        }
    }

    /// What the depositor has locked so far; zero while there is no record.
    pub open spec fn spec_locked_amount(&self) -> u64 {
        self.record().locked_amount
    }

    /// What the vault holds; zero while there is no vault.
    pub open spec fn spec_vault_balance(&self) -> u64 {
        self.vault().amount
    }

    /// Whether the vault and the record are supplied at the given addresses.
    pub open spec fn addressed_at(self, vault: Option<Seq<u8>>, ledger: Option<Seq<u8>>) -> bool {
        vault == Some(self.locked_account.address@) && ledger == Some(
            self.investor_locked_tokens.address@,
        )
    }

    /// Whether the vault and the record are supplied at the addresses derived
    /// for the depositor.
    pub open spec fn correctly_addressed(self) -> bool {
        self.addressed_at(
            derived_address(VAULT_SEED@, self.user@, self.program_id@),
            derived_address(LEDGER_SEED@, self.user@, self.program_id@),
        )
    }

    /// Whether `amount` more fits both in the record and in the vault.
    pub open spec fn can_hold(self, amount: u64) -> bool {
        self.record().can_hold(amount) && self.vault().can_hold(amount)
    }

    /// The transfer that locking `amount` asks for: from the source holding
    /// into the vault, signed for by the source's authority.
    pub open spec fn transfer(self, amount: u64) -> Transfer {
        Transfer {
            from: self.project_wallet,
            to: self.locked_account.address,
            authority: self.project_wallet_authority,
            amount,
        }
    }

    /// The state after `amount` was locked: vault and record both exist and both
    /// hold `amount` more; nothing else differs.
    pub open spec fn locked(self, amount: u64) -> InitializeLock
        recommends
            self.can_hold(amount),
    {
        InitializeLock {
            locked_account: Account {
                address: self.locked_account.address,
                data: Some(self.vault().with_deposit(amount)),
            },
            investor_locked_tokens: Account {
                address: self.investor_locked_tokens.address,
                data: Some(self.record().with_deposit(amount)),
            },
            ..self
        }
    }

    /// What becomes of a request to lock `amount`, before any token moves: the
    /// transfer to ask for, or the reason not to ask.
    pub open spec fn planned(self, amount: u64) -> Result<Transfer, LockError> {
        if !self.correctly_addressed() {
            Err(LockError::AddressDerivationMismatch)
        } else if !self.can_hold(amount) {
            Err(LockError::Overflow)
        } else {
            Ok(self.transfer(amount))
        }
    }

    /// What the answer `transfer` of the transfer primitive makes of a lock of
    /// `amount`, the addresses taken as good: the next state, or the reason
    /// why there is none.
    pub open spec fn settled(self, amount: u64, transfer: Result<(), TransferError>) -> Result<
        InitializeLock,
        LockError,
    > {
        match transfer {
            Err(refusal) => Err(LockError::of_transfer(refusal)),
            Ok(_) => if self.can_hold(amount) {
                Ok(self.locked(amount))
            } else {
                Err(LockError::Overflow)
            },
        }
    }

    /// What a lock of `amount` comes to, given the answer `transfer` of the
    /// transfer primitive: the next state, or the reason why there is none.
    pub open spec fn outcome(self, amount: u64, transfer: Result<(), TransferError>) -> Result<
        InitializeLock,
        LockError,
    > {
        if self.correctly_addressed() {
            self.settled(amount, transfer)
        } else {
            Err(LockError::AddressDerivationMismatch)
        }
    }

    /// What the depositor has locked so far; zero while there is no record.
    #[verifier::when_used_as_spec(spec_locked_amount)]
    pub fn locked_amount(&self) -> (amount: u64)
        ensures
            amount == self.spec_locked_amount(),
    {
        match self.investor_locked_tokens.data {
            Some(record) => record.locked_amount,
            None => 0,
        }
    }

    /// What the vault holds; zero while there is no vault.
    #[verifier::when_used_as_spec(spec_vault_balance)]
    pub fn vault_balance(&self) -> (amount: u64)
        ensures
            amount == self.spec_vault_balance(),
    {
        match self.locked_account.data {
            Some(vault) => vault.amount,
            None => 0,
        }
    }

    /// Holds the addresses at which the vault and the record were supplied
    /// against `vault` and `ledger`, the addresses derived for the depositor.
    pub fn check_addresses(&self, vault: Option<Address>, ledger: Option<Address>) -> (checked:
        Result<(), LockError>)
        ensures
            self.addressed_at(address_bytes(vault), address_bytes(ledger)) ==> checked is Ok,
            !self.addressed_at(address_bytes(vault), address_bytes(ledger)) ==> checked == Err::<
                (),
                LockError,
            >(LockError::AddressDerivationMismatch),
    {
        match (vault, ledger) {
            (Some(vault), Some(ledger)) => {
                if vault == self.locked_account.address && ledger
                    == self.investor_locked_tokens.address {
                    Ok(())
                } else {
                    Err(LockError::AddressDerivationMismatch)
                }
            },
            _ => Err(LockError::AddressDerivationMismatch),
        }
    }

    /// The transfer to ask for in order to lock `amount`, or `Overflow` where
    /// the record or the vault could not hold that much more.
    pub fn transfer_request(&self, amount: u64) -> (request: Result<Transfer, LockError>)
        ensures
            self.can_hold(amount) ==> request == Ok::<Transfer, LockError>(self.transfer(amount)),
            !self.can_hold(amount) ==> request == Err::<Transfer, LockError>(LockError::Overflow),
    {
        let fits_record = self.locked_amount().checked_add(amount).is_some();
        let fits_vault = self.vault_balance().checked_add(amount).is_some();
        if fits_record && fits_vault {
            Ok(
                Transfer {
                    from: self.project_wallet,
                    to: self.locked_account.address,
                    authority: self.project_wallet_authority,
                    amount,
                },
            )
        } else {
            Err(LockError::Overflow)
        }
    }

    /// Takes the answer `transfer` of the transfer primitive to a transfer of
    /// `amount` into the vault. On `Ok` the vault and the record, allocated if
    /// need be, both grow by `amount`. On a refusal, or where either could not
    /// hold that much more, nothing changes.
    pub fn settle(&mut self, amount: u64, transfer: Result<(), TransferError>) -> (settled: Result<
        (),
        LockError,
    >)
        ensures
            match old(self).settled(amount, transfer) {
                Ok(next) => settled is Ok && *final(self) == next,
                Err(error) => settled == Err::<(), LockError>(error) && *final(self) == *old(self),
            },
    {
        match transfer {
            Err(refusal) => {
                return Err(LockError::from(refusal));
            },
            Ok(_) => {},
        }
        let mut record = match self.investor_locked_tokens.data {
            Some(record) => record,
            None => LockedTokens::new(),
        };
        let mut vault = match self.locked_account.data {
            Some(vault) => vault,
            None => TokenAccount::new(self.token_mint, self.program_pda),
        };
        match record.record_deposit(amount) {
            Err(error) => {
                return Err(error);
            },
            Ok(_) => {},
        }
        match vault.receive(amount) {
            Err(error) => {
                return Err(error);
            },
            Ok(_) => {},
        }
        self.investor_locked_tokens.data = Some(record);
        self.locked_account.data = Some(vault);
        Ok(())
    }
}

/// Opens a lock of `amount`: checks that the vault and the record are supplied
/// at the addresses derived for the depositor and that both can hold `amount`
/// more, and names the transfer to ask the transfer primitive for.
pub fn begin_lock(ctx: &InitializeLock, amount: u64) -> (request: Result<Transfer, LockError>)
    ensures
        request == ctx.planned(amount),
{
    let vault = vault_address(&ctx.user, &ctx.program_id);
    let ledger = ledger_address(&ctx.user, &ctx.program_id);
    match ctx.check_addresses(vault, ledger) {
        Err(error) => Err(error),
        Ok(_) => ctx.transfer_request(amount),
    }
}

/// Locks `amount` for the depositor, given the answer `transfer` of the
/// transfer primitive to the transfer that `begin_lock` named.
///
/// The lock succeeds when the vault and the record are supplied at the
/// addresses derived for the depositor, the transfer succeeded, and the vault
/// and the record can both hold `amount` more. Then the vault and the record,
/// allocated if need be, both grow by `amount`. In every other case the lock is
/// rejected and nothing changes. An amount of zero is locked like any other.
pub fn initialize_lock(
    ctx: &mut InitializeLock,
    amount: u64,
    transfer: Result<(), TransferError>,
) -> (result: Result<(), LockError>)
    ensures
        match old(ctx).outcome(amount, transfer) {
            Ok(next) => result is Ok && *final(ctx) == next,
            Err(error) => result == Err::<(), LockError>(error) && *final(ctx) == *old(ctx),
        },
        result is Ok <==> old(ctx).correctly_addressed() && transfer is Ok && old(ctx).can_hold(
            amount,
        ),
        result is Ok ==> final(ctx).locked_amount() == old(ctx).locked_amount() + amount
            && final(ctx).vault_balance() == old(ctx).vault_balance() + amount,
        result is Err ==> *final(ctx) == *old(ctx),
        final(ctx).locked_amount() >= old(ctx).locked_amount(),
{
    let vault = vault_address(&ctx.user, &ctx.program_id);
    let ledger = ledger_address(&ctx.user, &ctx.program_id);
    match ctx.check_addresses(vault, ledger) {
        Err(error) => Err(error),
        Ok(_) => ctx.settle(amount, transfer),
    }
}

} // verus!
