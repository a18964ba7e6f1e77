//! The abstract state of the ledger and the two operations of its
//! asset-transfer service.
use crate::error::EscrowError;
use crate::pubkey::Pubkey;
use crate::state::Escrow;
use vstd::prelude::*;

verus! {

/// A token account as the ledger holds it.
pub struct Holding {
    /// The asset type of the units held.
    pub mint: Pubkey,
    /// The identity that must authorize every debit.
    pub owner: Pubkey,
    /// The units held.
    pub amount: nat,
    /// The storage deposit reserved for the account.
    pub deposit: nat,
}

/// An escrow entry as the ledger holds it.
pub struct Listing {
    /// The recorded terms.
    pub entry: Escrow,
    /// The storage deposit reserved for the entry.
    pub deposit: nat,
}

/// The whole state of the ledger.
pub struct LedgerState {
    /// The identity of the escrow program, under which addresses are derived.
    pub program_id: Pubkey,
    /// The storage deposit charged for an escrow entry.
    pub entry_deposit: nat,
    /// The storage deposit charged for a holding account.
    pub custody_deposit: nat,
    /// All native funds in existence: wallets and reserved deposits.
    pub circulating: nat,
    /// The units in existence of every asset; total, zero where none were
    /// issued.
    pub supply: Map<Pubkey, nat>,
    /// The native funds of every identity; total, zero where none were
    /// received.
    pub wallets: Map<Pubkey, nat>,
    /// The token accounts by address.
    pub tokens: Map<Pubkey, Holding>,
    /// The open escrow entries by address.
    pub escrows: Map<Pubkey, Listing>,
}

impl LedgerState {
    /// The ledger of a program before anything happened on it.
    pub open spec fn empty(program_id: Pubkey, entry_deposit: nat, custody_deposit: nat) -> Self {
        LedgerState {
            program_id,
            entry_deposit,
            custody_deposit,
            circulating: 0,
            supply: Map::total(|mint: Pubkey| 0nat),
            wallets: Map::total(|key: Pubkey| 0nat),
            tokens: Map::empty(),
            escrows: Map::empty(),
        }
    }

    /// Every identity has a wallet and every asset a supply.
    pub open spec fn complete(self) -> bool {
        forall|key: Pubkey|
            #![trigger self.wallets.contains_key(key)]
            #![trigger self.supply.contains_key(key)]
            self.wallets.contains_key(key) && self.supply.contains_key(key)
    }

    /// The state after `amount` units left `from` and then arrived at `to`.
    pub open spec fn moved(self, from: Pubkey, to: Pubkey, amount: nat) -> Self {
        let source = self.tokens[from];
        let debited = self.tokens.insert(
            from,
            Holding { amount: (source.amount - amount) as nat, ..source },
        );
        let target = debited[to];
        LedgerState {
            tokens: debited.insert(to, Holding { amount: target.amount + amount, ..target }),
            ..self
        }
    }

    /// The state after `lamports` were added to the wallet of `key`.
    pub open spec fn credited(self, key: Pubkey, lamports: nat) -> Self {
        LedgerState { wallets: self.wallets.insert(key, self.wallets[key] + lamports), ..self }
    }

    /// The state after `lamports` were taken from the wallet of `key`.
    pub open spec fn debited(self, key: Pubkey, lamports: nat) -> Self {
        LedgerState {
            wallets: self.wallets.insert(key, (self.wallets[key] - lamports) as nat),
            ..self
        }
    }

    /// The transfer operation of the asset service: debits `from` and
    /// credits `to`, on the word of `authority`.
    ///
    /// It is refused where an account is missing or the asset types differ,
    /// where `authority` does not own `from`, and where `from` holds less
    /// than `amount`.
    pub open spec fn transfer(self, from: Pubkey, to: Pubkey, authority: Pubkey, amount: nat)
        -> Result<Self, EscrowError> {
        if !self.tokens.contains_key(from) || !self.tokens.contains_key(to) {
            Err(EscrowError::AccountMismatch)
        } else if self.tokens[from].mint != self.tokens[to].mint {
            Err(EscrowError::AccountMismatch)
        } else if self.tokens[from].owner != authority {
            Err(EscrowError::AuthorizationFailure)
        } else if self.tokens[from].amount < amount {
            Err(EscrowError::InsufficientBalance)
        } else {
            Ok(self.moved(from, to, amount))
        }
    }

    /// The close operation of the asset service: destroys the empty token
    /// account `account` on the word of `authority` and releases its storage
    /// deposit to `destination`.
    ///
    /// It is refused where the account is missing or still holds units, and
    /// where `authority` does not own it.
    pub open spec fn close_account(self, account: Pubkey, destination: Pubkey, authority: Pubkey)
        -> Result<Self, EscrowError> {
        if !self.tokens.contains_key(account) {
            Err(EscrowError::AccountMismatch)
        } else if self.tokens[account].owner != authority {
            Err(EscrowError::AuthorizationFailure)
        } else if self.tokens[account].amount != 0 {
            Err(EscrowError::AccountMismatch)
        } else {
            Ok(
                LedgerState { tokens: self.tokens.remove(account), ..self }.credited(
                    destination,
                    self.tokens[account].deposit,
                ),
            )
        }
    }
}

} // verus!
