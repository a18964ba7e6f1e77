//! An executable ledger: wallets, token accounts and escrow entries, with
//! the transfer and close operations of the asset service.
use crate::error::EscrowError;
use crate::model::{Holding, LedgerState, Listing};
use crate::pubkey::Pubkey;
use crate::state::Escrow;
use crate::table::{
    as_map, copy_entries, find, has_key, lemma_entry, lemma_push, lemma_remove,
    lemma_total_covers, lemma_total_prefix, lemma_total_push, lemma_total_remove,
    lemma_total_update, lemma_update, place_of, total, unique,
};
use vstd::prelude::*;

verus! {

/// What a token account records: the asset held, who may spend it, and how
/// much there is.
#[derive(Clone, Copy, Debug, PartialEq, Eq)]
pub struct TokenAccount {
    pub mint: Pubkey,
    pub owner: Pubkey,
    pub amount: u64,
}

impl TokenAccount {
    /// The account records what the ledger holds under `holding`.
    pub open spec fn shows(self, holding: Holding) -> bool {
        &&& self.mint == holding.mint
        &&& self.owner == holding.owner
        &&& self.amount == holding.amount
    }
}

/// An identity named by a request, and whether it signed the request.
#[derive(Clone, Copy, Debug, PartialEq, Eq)]
pub struct Signer {
    pub key: Pubkey,
    pub is_signer: bool,
}

impl Signer {
    /// The signer is `authority` and has signed.
    pub open spec fn vouches_for(self, authority: Pubkey) -> bool {
        self.is_signer && self.key == authority
    }
}

/// A transfer for the asset service to carry out.
#[derive(Clone, Copy, Debug, PartialEq, Eq)]
pub struct Transfer {
    /// The token account that is debited.
    pub from: Pubkey,
    /// The token account that is credited.
    pub to: Pubkey,
    /// The identity on whose word the debit is made.
    pub authority: Pubkey,
    /// The units to move.
    pub amount: u64,
}

/// The closing of a token account for the asset service to carry out.
#[derive(Clone, Copy, Debug, PartialEq, Eq)]
pub struct CloseAccount {
    /// The token account that is destroyed.
    pub account: Pubkey,
    /// The identity whose wallet receives the storage deposit.
    pub destination: Pubkey,
    /// The identity on whose word the account is closed.
    pub authority: Pubkey,
}

/// A stored token account with its storage deposit.
#[derive(Clone, Copy)]
struct TokenSlot {
    account: TokenAccount,
    deposit: u64,
}

/// A stored escrow entry with its storage deposit.
#[derive(Clone, Copy)]
struct EscrowSlot {
    entry: Escrow,
    deposit: u64,
}

/// The abstract token account that a slot stands for.
spec fn holding_of(slot: TokenSlot) -> Holding {
    Holding {
        mint: slot.account.mint,
        owner: slot.account.owner,
        amount: slot.account.amount as nat,
        deposit: slot.deposit as nat,
    }
}

/// The abstract escrow entry that a slot stands for.
spec fn listing_of(slot: EscrowSlot) -> Listing {
    Listing { entry: slot.entry, deposit: slot.deposit as nat }
}

/// The units of `mint` that a token slot holds.
spec fn units_of(mint: Pubkey) -> spec_fn(TokenSlot) -> nat {
    |slot: TokenSlot|
        if slot.account.mint == mint {
            slot.account.amount as nat
        } else {
            0nat
        }
}

/// The storage deposit of a token slot.
spec fn token_rent() -> spec_fn(TokenSlot) -> nat {
    |slot: TokenSlot| slot.deposit as nat
}

/// The storage deposit of an escrow slot.
spec fn entry_rent() -> spec_fn(EscrowSlot) -> nat {
    |slot: EscrowSlot| slot.deposit as nat
}

/// The funds of a wallet.
spec fn wallet_funds() -> spec_fn(u64) -> nat {
    |lamports: u64| lamports as nat
}

/// The ledger on which the escrow program runs.
///
/// The supply of every asset and the native funds in circulation are
/// conserved by every operation but issuing, so no credit can overflow.
pub struct Ledger {
    program_id: Pubkey,
    entry_deposit: u64,
    custody_deposit: u64,
    circulating: u64,
    wallets: Vec<(Pubkey, u64)>,
    tokens: Vec<(Pubkey, TokenSlot)>,
    escrows: Vec<(Pubkey, EscrowSlot)>,
}

impl View for Ledger {
    type V = LedgerState;

    closed spec fn view(&self) -> LedgerState {
        LedgerState {
            program_id: self.program_id,
            entry_deposit: self.entry_deposit as nat,
            custody_deposit: self.custody_deposit as nat,
            circulating: self.circulating as nat,
            supply: Map::total(|mint: Pubkey| total(self.tokens@, units_of(mint))),
            wallets: Map::total(
                |key: Pubkey|
                    if has_key(self.wallets@, key) {
                        as_map(self.wallets@)[key] as nat
                    } else {
                        0nat
                    },
            ),
            tokens: as_map(self.tokens@).map_values(|slot: TokenSlot| holding_of(slot)),
            escrows: as_map(self.escrows@).map_values(|slot: EscrowSlot| listing_of(slot)),
        }
    }
}

impl Ledger {
    /// All native funds on the ledger: wallets and reserved deposits.
    closed spec fn funds(&self) -> nat {
        total(self.wallets@, wallet_funds()) + total(self.tokens@, token_rent()) + total(
            self.escrows@,
            entry_rent(),
        )
    }

    /// No address is stored twice, and no supply exceeds what an account
    /// can hold.
    closed spec fn sound(&self) -> bool {
        &&& unique(self.wallets@)
        &&& unique(self.tokens@)
        &&& unique(self.escrows@)
        &&& forall|mint: Pubkey| total(self.tokens@, #[trigger] units_of(mint)) <= u64::MAX
    }

    /// The ledger's invariant: no address is stored twice, the supply of
    /// every asset is the sum of the balances of its accounts and fits an
    /// account, and the funds in circulation are the sum of all wallets and
    /// storage deposits.
    pub closed spec fn wf(&self) -> bool {
        &&& self.sound()
        &&& self.circulating == self.funds()
    }

    /// Every identity has a wallet and every asset a supply.
    pub proof fn lemma_complete(&self)
        ensures
            self@.complete(),
    {
    }

    /// The supply of an asset covers the balances of any two of its
    /// accounts, and fits an account.
    pub proof fn lemma_supply_covers(&self, first: Pubkey, second: Pubkey)
        requires
            self.wf(),
            self@.tokens.contains_key(first),
            self@.tokens.contains_key(second),
            self@.tokens[first].mint == self@.tokens[second].mint,
        ensures
            self@.tokens[first].amount <= self@.supply[self@.tokens[first].mint],
            first != second ==> self@.tokens[first].amount + self@.tokens[second].amount
                <= self@.supply[self@.tokens[first].mint],
            self@.supply[self@.tokens[first].mint] <= u64::MAX,
    {
        let i = place_of(self.tokens@, first);
        let j = place_of(self.tokens@, second);
        lemma_entry(self.tokens@, i);
        lemma_entry(self.tokens@, j);
        let mint = self.tokens@[i].1.account.mint;
        lemma_total_covers(self.tokens@, i, j, units_of(mint));
        assert(total(self.tokens@, units_of(mint)) <= u64::MAX);
    }

    /// The funds in circulation cover every wallet, and fit one.
    pub proof fn lemma_circulating_covers(&self, key: Pubkey)
        requires
            self.wf(),
        ensures
            self@.wallets[key] <= self@.circulating <= u64::MAX,
    {
        if has_key(self.wallets@, key) {
            let i = place_of(self.wallets@, key);
            lemma_entry(self.wallets@, i);
            lemma_total_covers(self.wallets@, i, i, wallet_funds());
        }
    }

    /// An empty ledger for the program `program_id`, which charges the given
    /// storage deposits for an escrow entry and for a holding account.
    pub fn new(program_id: Pubkey, entry_deposit: u64, custody_deposit: u64) -> (ledger: Ledger)
        ensures
            ledger.wf(),
            ledger@ == LedgerState::empty(
                program_id,
                entry_deposit as nat,
                custody_deposit as nat,
            ),
    {
        let ledger = Ledger {
            program_id,
            entry_deposit,
            custody_deposit,
            circulating: 0,
            wallets: Vec::new(),
            tokens: Vec::new(),
            escrows: Vec::new(),
        };
        proof {
            assert(ledger@.supply =~= Map::total(|mint: Pubkey| 0nat));
            assert(ledger@.wallets =~= Map::total(|key: Pubkey| 0nat));
            assert(ledger@.tokens =~= Map::empty());
            assert(ledger@.escrows =~= Map::empty());
        }
        ledger
    }

    /// The identity of the escrow program.
    pub fn program_id(&self) -> (id: Pubkey)
        ensures
            id == self@.program_id,
    {
        self.program_id
    }

    /// The storage deposit charged for an escrow entry.
    pub fn entry_deposit(&self) -> (lamports: u64)
        ensures
            lamports == self@.entry_deposit,
    {
        self.entry_deposit
    }

    /// The storage deposit charged for a holding account.
    pub fn custody_deposit(&self) -> (lamports: u64)
        ensures
            lamports == self@.custody_deposit,
    {
        self.custody_deposit
    }

    /// The token account at `key`, if there is one.
    pub fn token_account(&self, key: &Pubkey) -> (account: Option<TokenAccount>)
        requires
            self.wf(),
        ensures
            account is Some == self@.tokens.contains_key(*key),
            account matches Some(found) ==> found.shows(self@.tokens[*key]),
    {
        match find(&self.tokens, key) {
            Some(i) => {
                proof {
                    lemma_entry(self.tokens@, i as int);
                }
                Some(self.tokens[i].1.account)
            },
            None => None,
        }
    }

    /// The escrow entry at `key`, if there is one.
    pub fn escrow(&self, key: &Pubkey) -> (entry: Option<Escrow>)
        requires
            self.wf(),
        ensures
            entry is Some == self@.escrows.contains_key(*key),
            entry matches Some(found) ==> found == self@.escrows[*key].entry,
    {
        match find(&self.escrows, key) {
            Some(i) => {
                proof {
                    lemma_entry(self.escrows@, i as int);
                }
                Some(self.escrows[i].1.entry)
            },
            None => None,
        }
    }

    /// The native funds in the wallet of `key`.
    pub fn lamports(&self, key: &Pubkey) -> (lamports: u64)
        requires
            self.wf(),
        ensures
            lamports == self@.wallets[*key],
    {
        match find(&self.wallets, key) {
            Some(i) => {
                proof {
                    lemma_entry(self.wallets@, i as int);
                }
                self.wallets[i].1
            },
            None => 0,
        }
    }

    /// The units of `mint` in existence.
    pub fn supply_of(&self, mint: &Pubkey) -> (units: u64)
        requires
            self.wf(),
        ensures
            units == self@.supply[*mint],
    {
        let mut units: u64 = 0;
        let mut i: usize = 0;
        proof {
            lemma_total_prefix(self.tokens@, 0, units_of(*mint));
        }
        while i < self.tokens.len()
            invariant
                i <= self.tokens@.len(),
                units == total(self.tokens@.take(i as int), units_of(*mint)),
                total(self.tokens@, units_of(*mint)) <= u64::MAX,
            decreases self.tokens@.len() - i,
        {
            proof {
                lemma_total_prefix(self.tokens@, i as int, units_of(*mint));
                lemma_total_prefix(self.tokens@, i + 1, units_of(*mint));
            }
            let account = self.tokens[i].1.account;
            if account.mint == *mint {
                units = units + account.amount;
            }
            i += 1;
        }
        proof {
            assert(self.tokens@.take(i as int) =~= self.tokens@);
        }
        units
    }

    /// A copy of the ledger.
    pub fn snapshot(&self) -> (copy: Ledger)
        requires
            self.wf(),
        ensures
            copy.wf(),
            copy@ == self@,
    {
        Ledger {
            program_id: self.program_id,
            entry_deposit: self.entry_deposit,
            custody_deposit: self.custody_deposit,
            circulating: self.circulating,
            wallets: copy_entries(&self.wallets),
            tokens: copy_entries(&self.tokens),
            escrows: copy_entries(&self.escrows),
        }
    }

    /// Sets the balance of the token account stored at place `i`.
    fn set_amount(&mut self, i: usize, amount: u64)
        requires
            old(self).sound(),
            i < old(self).tokens@.len(),
            old(self)@.supply[old(self).tokens@[i as int].1.account.mint] - old(
                self,
            ).tokens@[i as int].1.account.amount + amount <= u64::MAX,
        ensures
            final(self).sound(),
            final(self).funds() == old(self).funds(),
            final(self).tokens@ == old(self).tokens@.update(
                i as int,
                (
                    old(self).tokens@[i as int].0,
                    TokenSlot {
                        account: TokenAccount { amount, ..old(self).tokens@[i as int].1.account },
                        deposit: old(self).tokens@[i as int].1.deposit,
                    },
                ),
            ),
            final(self)@ == (LedgerState {
                tokens: old(self)@.tokens.insert(
                    old(self).tokens@[i as int].0,
                    Holding {
                        amount: amount as nat,
                        ..old(self)@.tokens[old(self).tokens@[i as int].0]
                    },
                ),
                supply: old(self)@.supply.insert(
                    old(self).tokens@[i as int].1.account.mint,
                    (old(self)@.supply[old(self).tokens@[i as int].1.account.mint] - old(
                        self,
                    ).tokens@[i as int].1.account.amount + amount) as nat,
                ),
                ..old(self)@
            }),
    {
        let (key, slot) = self.tokens[i];
        let changed = TokenSlot {
            account: TokenAccount { amount, ..slot.account },
            deposit: slot.deposit,
        };
        proof {
            lemma_entry(self.tokens@, i as int);
            lemma_update(self.tokens@, i as int, changed);
            lemma_total_update(self.tokens@, i as int, (key, changed), token_rent());
            assert forall|mint: Pubkey|
                total(self.tokens@.update(i as int, (key, changed)), #[trigger] units_of(mint))
                    + units_of(mint)(slot) == total(self.tokens@, units_of(mint)) + units_of(
                    mint,
                )(changed) by {
                lemma_total_update(self.tokens@, i as int, (key, changed), units_of(mint));
            }
        }
        self.tokens.set(i, (key, changed));
        proof {
            assert(self@.tokens =~= old(self)@.tokens.insert(
                key,
                Holding { amount: amount as nat, ..old(self)@.tokens[key] },
            ));
            assert(self@.supply =~= old(self)@.supply.insert(
                slot.account.mint,
                (old(self)@.supply[slot.account.mint] - slot.account.amount + amount) as nat,
            ));
        }
    }

    /// Adds `lamports` to the wallet of `key`.
    fn credit(&mut self, key: &Pubkey, lamports: u64)
        requires
            old(self).sound(),
            old(self).funds() + lamports <= u64::MAX,
        ensures
            final(self).sound(),
            final(self).funds() == old(self).funds() + lamports,
            final(self)@ == old(self)@.credited(*key, lamports as nat),
    {
        match find(&self.wallets, key) {
            Some(i) => {
                let held = self.wallets[i].1;
                proof {
                    lemma_entry(self.wallets@, i as int);
                    lemma_total_covers(self.wallets@, i as int, i as int, wallet_funds());
                    lemma_update(self.wallets@, i as int, (held + lamports) as u64);
                    lemma_total_update(
                        self.wallets@,
                        i as int,
                        (*key, (held + lamports) as u64),
                        wallet_funds(),
                    );
                }
                self.wallets.set(i, (*key, held + lamports));
            },
            None => {
                proof {
                    lemma_push(self.wallets@, *key, lamports);
                    lemma_total_push(self.wallets@, (*key, lamports), wallet_funds());
                }
                self.wallets.push((*key, lamports));
            },
        }
        proof {
            let before = old(self).wallets@;
            let after = self.wallets@;
            assert forall|other: Pubkey| #[trigger]
                self@.wallets[other] == old(self)@.credited(*key, lamports as nat).wallets[other] by {
                assert(has_key(after, other) == as_map(after).contains_key(other));
                assert(has_key(before, other) == as_map(before).contains_key(other));
            }
            assert(self@.wallets =~= old(self)@.credited(*key, lamports as nat).wallets);
        }
    }

    /// Takes `lamports` out of the wallet of `key`.
    fn debit(&mut self, key: &Pubkey, lamports: u64)
        requires
            old(self).sound(),
            old(self)@.wallets[*key] >= lamports,
        ensures
            final(self).sound(),
            final(self).funds() + lamports == old(self).funds(),
            final(self)@ == old(self)@.debited(*key, lamports as nat),
    {
        match find(&self.wallets, key) {
            Some(i) => {
                let held = self.wallets[i].1;
                proof {
                    lemma_entry(self.wallets@, i as int);
                    lemma_update(self.wallets@, i as int, (held - lamports) as u64);
                    lemma_total_update(
                        self.wallets@,
                        i as int,
                        (*key, (held - lamports) as u64),
                        wallet_funds(),
                    );
                }
                self.wallets.set(i, (*key, held - lamports));
            },
            None => {},
        }
        proof {
            let before = old(self).wallets@;
            let after = self.wallets@;
            assert forall|other: Pubkey| #[trigger]
                self@.wallets[other] == old(self)@.debited(*key, lamports as nat).wallets[other] by {
                assert(has_key(after, other) == as_map(after).contains_key(other));
                assert(has_key(before, other) == as_map(before).contains_key(other));
            }
            assert(self@.wallets =~= old(self)@.debited(*key, lamports as nat).wallets);
        }
    }

    /// Stores a token account under a fresh address.
    fn put_holding(&mut self, address: &Pubkey, slot: TokenSlot)
        requires
            old(self).sound(),
            !old(self)@.tokens.contains_key(*address),
            old(self)@.supply[slot.account.mint] + slot.account.amount <= u64::MAX,
        ensures
            final(self).sound(),
            final(self).funds() == old(self).funds() + slot.deposit,
            final(self)@ == (LedgerState {
                tokens: old(self)@.tokens.insert(*address, holding_of(slot)),
                supply: old(self)@.supply.insert(
                    slot.account.mint,
                    old(self)@.supply[slot.account.mint] + slot.account.amount as nat,
                ),
                ..old(self)@
            }),
    {
        proof {
            lemma_push(self.tokens@, *address, slot);
            lemma_total_push(self.tokens@, (*address, slot), token_rent());
            assert forall|mint: Pubkey|
                total(self.tokens@.push((*address, slot)), #[trigger] units_of(mint)) == total(
                    self.tokens@,
                    units_of(mint),
                ) + units_of(mint)(slot) by {
                lemma_total_push(self.tokens@, (*address, slot), units_of(mint));
            }
        }
        self.tokens.push((*address, slot));
        proof {
            assert(self@.tokens =~= old(self)@.tokens.insert(*address, holding_of(slot)));
            assert(self@.supply =~= old(self)@.supply.insert(
                slot.account.mint,
                old(self)@.supply[slot.account.mint] + slot.account.amount as nat,
            ));
        }
    }

    /// Removes the token account stored at place `i`.
    fn drop_holding(&mut self, i: usize)
        requires
            old(self).sound(),
            i < old(self).tokens@.len(),
        ensures
            final(self).sound(),
            final(self).funds() + old(self).tokens@[i as int].1.deposit == old(self).funds(),
            final(self)@ == (LedgerState {
                tokens: old(self)@.tokens.remove(old(self).tokens@[i as int].0),
                supply: old(self)@.supply.insert(
                    old(self).tokens@[i as int].1.account.mint,
                    (old(self)@.supply[old(self).tokens@[i as int].1.account.mint] - old(
                        self,
                    ).tokens@[i as int].1.account.amount) as nat,
                ),
                ..old(self)@
            }),
    {
        proof {
            lemma_remove(self.tokens@, i as int);
            lemma_total_remove(self.tokens@, i as int, token_rent());
            assert forall|mint: Pubkey|
                total(self.tokens@.remove(i as int), #[trigger] units_of(mint)) + units_of(mint)(
                    self.tokens@[i as int].1,
                ) == total(self.tokens@, units_of(mint)) by {
                lemma_total_remove(self.tokens@, i as int, units_of(mint));
            }
        }
        let removed = self.tokens.remove(i);
        proof {
            assert(self@.tokens =~= old(self)@.tokens.remove(removed.0));
            assert(self@.supply =~= old(self)@.supply.insert(
                removed.1.account.mint,
                (old(self)@.supply[removed.1.account.mint] - removed.1.account.amount) as nat,
            ));
        }
    }

    /// Stores an escrow entry under a fresh address.
    fn put_listing(&mut self, address: &Pubkey, slot: EscrowSlot)
        requires
            old(self).sound(),
            !old(self)@.escrows.contains_key(*address),
        ensures
            final(self).sound(),
            final(self).funds() == old(self).funds() + slot.deposit,
            final(self)@ == (LedgerState {
                escrows: old(self)@.escrows.insert(*address, listing_of(slot)),
                ..old(self)@
            }),
    {
        proof {
            lemma_push(self.escrows@, *address, slot);
            lemma_total_push(self.escrows@, (*address, slot), entry_rent());
        }
        self.escrows.push((*address, slot));
        proof {
            assert(self@.escrows =~= old(self)@.escrows.insert(*address, listing_of(slot)));
        }
    }

    /// Removes the escrow entry stored at place `i`.
    fn drop_listing(&mut self, i: usize)
        requires
            old(self).sound(),
            i < old(self).escrows@.len(),
        ensures
            final(self).sound(),
            final(self).funds() + old(self).escrows@[i as int].1.deposit == old(self).funds(),
            final(self)@ == (LedgerState {
                escrows: old(self)@.escrows.remove(old(self).escrows@[i as int].0),
                ..old(self)@
            }),
    {
        proof {
            lemma_remove(self.escrows@, i as int);
            lemma_total_remove(self.escrows@, i as int, entry_rent());
        }
        let removed = self.escrows.remove(i);
        proof {
            assert(self@.escrows =~= old(self)@.escrows.remove(removed.0));
        }
    }

    /// The transfer operation of the asset service on the signature of the
    /// order's authority: moves the units that `order` names, or refuses and
    /// leaves the ledger as it was. An order that `signer` does not vouch
    /// for is refused for want of authorization before anything else is
    /// looked at.
    pub fn transfer(&mut self, order: &Transfer, signer: &Signer) -> (done: Result<
        (),
        EscrowError,
    >)
        requires
            old(self).wf(),
        ensures
            final(self).wf(),
            !signer.vouches_for(order.authority) ==> done == Err::<(), EscrowError>(
                EscrowError::AuthorizationFailure,
            ) && final(self)@ == old(self)@,
            signer.vouches_for(order.authority) ==> match done {
                Ok(_) => old(self)@.transfer(
                    order.from,
                    order.to,
                    order.authority,
                    order.amount as nat,
                ) == Ok::<LedgerState, EscrowError>(final(self)@),
                Err(refusal) => old(self)@.transfer(
                    order.from,
                    order.to,
                    order.authority,
                    order.amount as nat,
                ) == Err::<LedgerState, EscrowError>(refusal) && final(self)@ == old(self)@,
            },
    {
        if !signer.is_signer || signer.key != order.authority {
            return Err(EscrowError::AuthorizationFailure);
        }
        self.apply_transfer(order)
    }

    /// The close operation of the asset service on the signature of the
    /// order's authority: destroys the empty token account that `order`
    /// names and releases its storage deposit to the wallet of the
    /// destination, or refuses and leaves the ledger as it was. An order
    /// that `signer` does not vouch for is refused for want of authorization
    /// before anything else is looked at.
    pub fn close_account(&mut self, order: &CloseAccount, signer: &Signer) -> (done: Result<
        (),
        EscrowError,
    >)
        requires
            old(self).wf(),
        ensures
            final(self).wf(),
            !signer.vouches_for(order.authority) ==> done == Err::<(), EscrowError>(
                EscrowError::AuthorizationFailure,
            ) && final(self)@ == old(self)@,
            signer.vouches_for(order.authority) ==> match done {
                Ok(_) => old(self)@.close_account(
                    order.account,
                    order.destination,
                    order.authority,
                ) == Ok::<LedgerState, EscrowError>(final(self)@),
                Err(refusal) => old(self)@.close_account(
                    order.account,
                    order.destination,
                    order.authority,
                ) == Err::<LedgerState, EscrowError>(refusal) && final(self)@ == old(self)@,
            },
    {
        if !signer.is_signer || signer.key != order.authority {
            return Err(EscrowError::AuthorizationFailure);
        }
        self.apply_close(order)
    }

    /// Carries out a transfer whose authority has given its word, by a
    /// signature or by the derivation that stands for an escrow: moves the
    /// units that `order` names, or refuses and leaves the ledger as it was.
    pub(crate) fn apply_transfer(&mut self, order: &Transfer) -> (done: Result<(), EscrowError>)
        requires
            old(self).wf(),
        ensures
            final(self).wf(),
            match done {
                Ok(_) => old(self)@.transfer(
                    order.from,
                    order.to,
                    order.authority,
                    order.amount as nat,
                ) == Ok::<LedgerState, EscrowError>(final(self)@),
                Err(refusal) => old(self)@.transfer(
                    order.from,
                    order.to,
                    order.authority,
                    order.amount as nat,
                ) == Err::<LedgerState, EscrowError>(refusal) && final(self)@ == old(self)@,
            },
    {
        let amount = order.amount;
        let source = match find(&self.tokens, &order.from) {
            Some(i) => i,
            None => { return Err(EscrowError::AccountMismatch); },
        };
        let target = match find(&self.tokens, &order.to) {
            Some(i) => i,
            None => { return Err(EscrowError::AccountMismatch); },
        };
        let debit = self.tokens[source].1.account;
        let credit = self.tokens[target].1.account;
        proof {
            lemma_entry(self.tokens@, source as int);
            lemma_entry(self.tokens@, target as int);
        }
        if debit.mint != credit.mint {
            return Err(EscrowError::AccountMismatch);
        }
        if debit.owner != order.authority {
            return Err(EscrowError::AuthorizationFailure);
        }
        if debit.amount < amount {
            return Err(EscrowError::InsufficientBalance);
        }
        if source != target {
            proof {
                lemma_total_covers(
                    self.tokens@,
                    source as int,
                    target as int,
                    units_of(debit.mint),
                );
            }
            self.set_amount(source, debit.amount - amount);
            proof {
                lemma_entry(self.tokens@, target as int);
            }
            self.set_amount(target, credit.amount + amount);
            proof {
                let moved = old(self)@.moved(order.from, order.to, amount as nat);
                assert(self@.tokens =~= moved.tokens);
                assert(self@.supply =~= moved.supply);
            }
        } else {
            proof {
                let moved = old(self)@.moved(order.from, order.to, amount as nat);
                assert(moved.tokens =~= old(self)@.tokens);
            }
        }
        Ok(())
    }

    /// Carries out the closing of a token account whose authority has given
    /// its word: destroys the empty account that `order` names and releases
    /// its storage deposit to the wallet of the destination, or refuses and
    /// leaves the ledger as it was.
    pub(crate) fn apply_close(&mut self, order: &CloseAccount) -> (done: Result<(), EscrowError>)
        requires
            old(self).wf(),
        ensures
            final(self).wf(),
            match done {
                Ok(_) => old(self)@.close_account(
                    order.account,
                    order.destination,
                    order.authority,
                ) == Ok::<LedgerState, EscrowError>(final(self)@),
                Err(refusal) => old(self)@.close_account(
                    order.account,
                    order.destination,
                    order.authority,
                ) == Err::<LedgerState, EscrowError>(refusal) && final(self)@ == old(self)@,
            },
    {
        let place = match find(&self.tokens, &order.account) {
            Some(i) => i,
            None => { return Err(EscrowError::AccountMismatch); },
        };
        let slot = self.tokens[place].1;
        proof {
            lemma_entry(self.tokens@, place as int);
        }
        if slot.account.owner != order.authority {
            return Err(EscrowError::AuthorizationFailure);
        }
        if slot.account.amount != 0 {
            return Err(EscrowError::AccountMismatch);
        }
        self.drop_holding(place);
        self.credit(&order.destination, slot.deposit);
        proof {
            assert(self@.supply =~= old(self)@.supply);
        }
        Ok(())
    }

    /// Creates an empty token account of `mint` at the unused `address`,
    /// owned by `owner`, and reserves its storage deposit from the wallet of
    /// `payer`.
    pub(crate) fn open_holding(
        &mut self,
        address: &Pubkey,
        mint: &Pubkey,
        owner: &Pubkey,
        payer: &Pubkey,
    )
        requires
            old(self).wf(),
            !old(self)@.tokens.contains_key(*address),
            old(self)@.wallets[*payer] >= old(self)@.custody_deposit,
        ensures
            final(self).wf(),
            final(self)@ == (LedgerState {
                tokens: old(self)@.tokens.insert(
                    *address,
                    Holding {
                        mint: *mint,
                        owner: *owner,
                        amount: 0,
                        deposit: old(self)@.custody_deposit,
                    },
                ),
                ..old(self)@.debited(*payer, old(self)@.custody_deposit)
            }),
    {
        let deposit = self.custody_deposit;
        self.debit(payer, deposit);
        let slot = TokenSlot {
            account: TokenAccount { mint: *mint, owner: *owner, amount: 0 },
            deposit,
        };
        self.put_holding(address, slot);
        proof {
            assert(self@.supply =~= old(self)@.supply);
        }
    }

    /// Stores `entry` at the unused `address` and reserves its storage
    /// deposit from the wallet of `payer`.
    pub(crate) fn record_entry(&mut self, address: &Pubkey, entry: Escrow, payer: &Pubkey)
        requires
            old(self).wf(),
            !old(self)@.escrows.contains_key(*address),
            old(self)@.wallets[*payer] >= old(self)@.entry_deposit,
        ensures
            final(self).wf(),
            final(self)@ == (LedgerState {
                escrows: old(self)@.escrows.insert(
                    *address,
                    Listing { entry, deposit: old(self)@.entry_deposit },
                ),
                ..old(self)@.debited(*payer, old(self)@.entry_deposit)
            }),
    {
        let deposit = self.entry_deposit;
        self.debit(payer, deposit);
        self.put_listing(address, EscrowSlot { entry, deposit });
    }

    /// Destroys the escrow entry at `address` and releases its storage
    /// deposit to the wallet of `destination`.
    pub(crate) fn erase_entry(&mut self, address: &Pubkey, destination: &Pubkey)
        requires
            old(self).wf(),
            old(self)@.escrows.contains_key(*address),
        ensures
            final(self).wf(),
            final(self)@ == (LedgerState {
                escrows: old(self)@.escrows.remove(*address),
                ..old(self)@
            }).credited(*destination, old(self)@.escrows[*address].deposit),
    {
        match find(&self.escrows, address) {
            Some(place) => {
                let deposit = self.escrows[place].1.deposit;
                proof {
                    lemma_entry(self.escrows@, place as int);
                }
                self.drop_listing(place);
                self.credit(destination, deposit);
            },
            None => {
                proof {
                    assert(has_key(self.escrows@, *address));
                }
            },
        }
    }

    /// Brings `lamports` of new native funds into the wallet of `to`, unless
    /// the funds in circulation would no longer fit.
    pub fn airdrop(&mut self, to: &Pubkey, lamports: u64) -> (done: bool)
        requires
            old(self).wf(),
        ensures
            final(self).wf(),
            done == (old(self)@.circulating + lamports <= u64::MAX),
            done ==> final(self)@ == (LedgerState {
                circulating: old(self)@.circulating + lamports as nat,
                ..old(self)@.credited(*to, lamports as nat)
            }),
            !done ==> final(self)@ == old(self)@,
    {
        if lamports > u64::MAX - self.circulating {
            return false;
        }
        self.credit(to, lamports);
        self.circulating = self.circulating + lamports;
        true
    }

    /// Creates a token account of `mint` at `address`, owned by `owner` and
    /// holding `amount` newly issued units, unless the address is taken or
    /// the supply of `mint` would no longer fit. No deposit is reserved.
    pub fn create_token_account(
        &mut self,
        address: &Pubkey,
        mint: &Pubkey,
        owner: &Pubkey,
        amount: u64,
    ) -> (done: bool)
        requires
            old(self).wf(),
        ensures
            final(self).wf(),
            done == (!old(self)@.tokens.contains_key(*address) && old(self)@.supply[*mint]
                + amount <= u64::MAX),
            done ==> final(self)@ == (LedgerState {
                tokens: old(self)@.tokens.insert(
                    *address,
                    Holding { mint: *mint, owner: *owner, amount: amount as nat, deposit: 0 },
                ),
                supply: old(self)@.supply.insert(*mint, old(self)@.supply[*mint] + amount as nat),
                ..old(self)@
            }),
            !done ==> final(self)@ == old(self)@,
    {
        if find(&self.tokens, address).is_some() {
            return false;
        }
        let issued = self.supply_of(mint);
        if amount > u64::MAX - issued {
            return false;
        }
        let slot = TokenSlot {
            account: TokenAccount { mint: *mint, owner: *owner, amount },
            deposit: 0,
        };
        self.put_holding(address, slot);
        true
    }
}

} // verus!
