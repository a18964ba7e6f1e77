//! The three transitions of an escrow: open, settle and cancel.
use crate::error::EscrowError;
use crate::ledger::{CloseAccount, Ledger, Signer, TokenAccount, Transfer};
use crate::model::{Holding, LedgerState, Listing};
use crate::pubkey::{escrow_address, escrow_key, escrow_signer, find_escrow_address, Pubkey};
use crate::state::Escrow;
use vstd::prelude::*;

verus! {

/// The accounts of a request to open an escrow.
#[derive(Clone, Copy, Debug, PartialEq, Eq)]
pub struct Initialize {
    /// The seller, who must sign and who pays the storage deposits.
    pub seller: Signer,
    /// The asset that is deposited.
    pub x_mint: Pubkey,
    /// The asset that is asked for in exchange.
    pub y_mint: Pubkey,
    /// The seller's token account from which the deposit is taken.
    pub seller_x_token: Pubkey,
}

/// The accounts of a request to settle an escrow.
#[derive(Clone, Copy, Debug, PartialEq, Eq)]
pub struct Accept {
    /// The buyer, who must sign.
    pub buyer: Signer,
    /// The escrow entry.
    pub escrow: Pubkey,
    /// The holding account that the entry points to.
    pub escrowed_x_tokens: Pubkey,
    /// Where the quote amount is paid to.
    pub sellers_y_tokens: Pubkey,
    /// Where the deposited asset is delivered to.
    pub buyer_x_token: Pubkey,
    /// The buyer's token account from which the quote amount is paid.
    pub buyer_y_token: Pubkey,
}

/// The accounts of a request to cancel an escrow.
#[derive(Clone, Copy, Debug, PartialEq, Eq)]
pub struct Cancel {
    /// The seller, who must sign and must be the entry's authority.
    pub seller: Signer,
    /// The escrow entry.
    pub escrow: Pubkey,
    /// The holding account that the entry points to.
    pub escrowed_x_tokens: Pubkey,
    /// The seller's token account to which the deposit returns.
    pub seller_x_token: Pubkey,
}

/// The entry that opening records at `key`.
pub open spec fn opened_entry(ctx: Initialize, y_amount: u64, key: Pubkey, bump: u8) -> Escrow {
    Escrow {
        authority: ctx.seller.key,
        bump,
        escrowed_x_tokens: key,
        y_mint: ctx.y_mint,
        y_amount,
    }
}

/// The ledger after a valid open at the derived `key`: both storage deposits
/// are reserved from the seller's wallet, an empty holding account that only
/// the escrow signs for and the entry are created at `key`, and the deposit
/// has moved into the holding account.
pub open spec fn opened(
    s: LedgerState,
    ctx: Initialize,
    x_amount: u64,
    y_amount: u64,
    key: Pubkey,
    bump: u8,
) -> LedgerState {
    let listed = LedgerState {
        tokens: s.tokens.insert(
            key,
            Holding { mint: ctx.x_mint, owner: key, amount: 0, deposit: s.custody_deposit },
        ),
        escrows: s.escrows.insert(
            key,
            Listing { entry: opened_entry(ctx, y_amount, key, bump), deposit: s.entry_deposit },
        ),
        ..s.debited(ctx.seller.key, s.entry_deposit + s.custody_deposit)
    };
    listed.moved(ctx.seller_x_token, key, x_amount as nat)
}

/// The seller's source account holds the declared asset and is the
/// seller's.
pub open spec fn open_source_fits(s: LedgerState, ctx: Initialize) -> bool {
    &&& s.tokens.contains_key(ctx.seller_x_token)
    &&& s.tokens[ctx.seller_x_token].mint == ctx.x_mint
    &&& s.tokens[ctx.seller_x_token].owner == ctx.seller.key
}

/// Opening an escrow, given what the address search returned for the
/// seller: the new ledger, or the refusal.
///
/// The refusals, in the order in which they are tested: the seller did
/// not sign (`AuthorizationFailure`); the search found no address
/// (`AccountMismatch`); the address already holds an entry or a token
/// account (`DuplicateEscrow`); the source account is missing, holds
/// another asset or is not the seller's (`AssetMismatch`); the seller's
/// wallet cannot pay both storage deposits, or the source account holds
/// less than the deposit (`InsufficientBalance`).
pub open spec fn open_step(
    s: LedgerState,
    ctx: Initialize,
    x_amount: u64,
    y_amount: u64,
    derived: Option<(Pubkey, u8)>,
) -> Result<LedgerState, EscrowError> {
    if !ctx.seller.is_signer {
        Err(EscrowError::AuthorizationFailure)
    } else if derived is None {
        Err(EscrowError::AccountMismatch)
    } else if s.escrows.contains_key(derived->Some_0.0) || s.tokens.contains_key(
        derived->Some_0.0,
    ) {
        Err(EscrowError::DuplicateEscrow)
    } else if !open_source_fits(s, ctx) {
        Err(EscrowError::AssetMismatch)
    } else if s.wallets[ctx.seller.key] < s.entry_deposit + s.custody_deposit {
        Err(EscrowError::InsufficientBalance)
    } else if s.tokens[ctx.seller_x_token].amount < x_amount {
        Err(EscrowError::InsufficientBalance)
    } else {
        Ok(opened(s, ctx, x_amount, y_amount, derived->Some_0.0, derived->Some_0.1))
    }
}

/// The accounts of a settle request pass the cross-checks against the
/// entry, given the address `signer` that the entry's seeds derive.
pub open spec fn settle_accounts_fit(s: LedgerState, ctx: Accept, signer: Option<Pubkey>) -> bool {
    let entry = s.escrows[ctx.escrow].entry;
    &&& s.escrows.contains_key(ctx.escrow)
    &&& signer == Some(ctx.escrow)
    &&& ctx.escrowed_x_tokens == entry.escrowed_x_tokens
    &&& s.tokens.contains_key(ctx.escrowed_x_tokens)
    &&& s.tokens.contains_key(ctx.sellers_y_tokens)
    &&& s.tokens[ctx.sellers_y_tokens].mint == entry.y_mint
    &&& s.tokens.contains_key(ctx.buyer_x_token)
    &&& s.tokens[ctx.buyer_x_token].mint == s.tokens[ctx.escrowed_x_tokens].mint
    &&& s.tokens.contains_key(ctx.buyer_y_token)
    &&& s.tokens[ctx.buyer_y_token].mint == entry.y_mint
    &&& s.tokens[ctx.buyer_y_token].owner == ctx.buyer.key
}

/// Settling an escrow, given the address that the entry's seeds derive: the
/// whole balance of the holding account goes to the buyer on the escrow's
/// own authority, then the quote amount goes from the buyer to the seller;
/// both or neither. The entry stays.
///
/// The refusals, in the order in which they are tested: the buyer did not
/// sign (`AuthorizationFailure`); an account is missing or fails a
/// cross-check (`AccountMismatch`); the escrow does not own the holding
/// account (`AuthorizationFailure`); the buyer's source holds less than the
/// quote amount (`InsufficientBalance`).
pub open spec fn settle_step(s: LedgerState, ctx: Accept, signer: Option<Pubkey>) -> Result<
    LedgerState,
    EscrowError,
> {
    if !ctx.buyer.is_signer {
        Err(EscrowError::AuthorizationFailure)
    } else if !settle_accounts_fit(s, ctx, signer) {
        Err(EscrowError::AccountMismatch)
    } else {
        match s.transfer(
            ctx.escrowed_x_tokens,
            ctx.buyer_x_token,
            ctx.escrow,
            s.tokens[ctx.escrowed_x_tokens].amount,
        ) {
            Err(refusal) => Err(refusal),
            Ok(delivered) => delivered.transfer(
                ctx.buyer_y_token,
                ctx.sellers_y_tokens,
                ctx.buyer.key,
                s.escrows[ctx.escrow].entry.y_amount as nat,
            ),
        }
    }
}

/// The accounts of a cancel request pass the cross-checks against the
/// entry, given the address `signer` that the entry's seeds derive.
pub open spec fn cancel_accounts_fit(s: LedgerState, ctx: Cancel, signer: Option<Pubkey>) -> bool {
    let entry = s.escrows[ctx.escrow].entry;
    &&& signer == Some(ctx.escrow)
    &&& ctx.escrowed_x_tokens == entry.escrowed_x_tokens
    &&& s.tokens.contains_key(ctx.escrowed_x_tokens)
    &&& s.tokens.contains_key(ctx.seller_x_token)
    &&& s.tokens[ctx.seller_x_token].mint == s.tokens[ctx.escrowed_x_tokens].mint
    &&& s.tokens[ctx.seller_x_token].owner == ctx.seller.key
}

/// The ledger after the entry at `key` was destroyed and its storage
/// deposit released to `destination`.
pub open spec fn delisted(s: LedgerState, key: Pubkey, destination: Pubkey) -> LedgerState {
    LedgerState { escrows: s.escrows.remove(key), ..s }.credited(
        destination,
        s.escrows[key].deposit,
    )
}

/// Cancelling an escrow, given the address that the entry's seeds derive:
/// the whole balance of the holding account returns to the seller, the
/// holding account is closed and the entry destroyed, both storage deposits
/// going to the seller; all or nothing.
///
/// The refusals, in the order in which they are tested: the seller did
/// not sign (`AuthorizationFailure`); there is no entry (`AccountMismatch`);
/// the seller is not the entry's authority (`AuthorizationFailure`); an
/// account is missing or fails a cross-check (`AccountMismatch`); the escrow
/// does not own the holding account (`AuthorizationFailure`); the holding
/// account is its own destination and not empty, so that it cannot be
/// closed (`AccountMismatch`).
pub open spec fn cancel_step(s: LedgerState, ctx: Cancel, signer: Option<Pubkey>) -> Result<
    LedgerState,
    EscrowError,
> {
    if !ctx.seller.is_signer {
        Err(EscrowError::AuthorizationFailure)
    } else if !s.escrows.contains_key(ctx.escrow) {
        Err(EscrowError::AccountMismatch)
    } else if s.escrows[ctx.escrow].entry.authority != ctx.seller.key {
        Err(EscrowError::AuthorizationFailure)
    } else if !cancel_accounts_fit(s, ctx, signer) {
        Err(EscrowError::AccountMismatch)
    } else {
        match s.transfer(
            ctx.escrowed_x_tokens,
            ctx.seller_x_token,
            ctx.escrow,
            s.tokens[ctx.escrowed_x_tokens].amount,
        ) {
            Err(refusal) => Err(refusal),
            Ok(returned) => match returned.close_account(
                ctx.escrowed_x_tokens,
                ctx.seller.key,
                ctx.escrow,
            ) {
                Err(refusal) => Err(refusal),
                Ok(closed) => Ok(delisted(closed, ctx.escrow, ctx.seller.key)),
            },
        }
    }
}

/// The address that the seeds of the entry at `key` derive, if there is such
/// an entry and its seeds are valid.
pub open spec fn entry_signer(s: LedgerState, key: Pubkey) -> Option<Pubkey> {
    if s.escrows.contains_key(key) {
        escrow_signer(s.escrows[key].entry.authority, s.escrows[key].entry.bump, s.program_id)
    } else {
        None
    }
}

/// The rules of an open request on the seller and the source account:
/// the seller signed, and the source holds the declared asset and is the
/// seller's.
pub open spec fn open_rules(ctx: Initialize, source: TokenAccount) -> Result<(), EscrowError> {
    if !ctx.seller.is_signer {
        Err(EscrowError::AuthorizationFailure)
    } else if source.mint != ctx.x_mint || source.owner != ctx.seller.key {
        Err(EscrowError::AssetMismatch)
    } else {
        Ok(())
    }
}

/// The rules of a settle request on the accounts it names, given the
/// address `signer` that the entry's seeds derive: the buyer signed; the
/// entry is the one that the seeds derive; the holding account is the one
/// that the entry points to; both quote accounts hold the asset asked for,
/// the source being the buyer's; and the destination of the deposit holds
/// the asset of the holding account.
pub open spec fn settle_rules(
    ctx: Accept,
    signer: Option<Pubkey>,
    entry: Escrow,
    custody: TokenAccount,
    sellers_y: TokenAccount,
    buyer_x: TokenAccount,
    buyer_y: TokenAccount,
) -> Result<(), EscrowError> {
    if !ctx.buyer.is_signer {
        Err(EscrowError::AuthorizationFailure)
    } else if signer != Some(ctx.escrow) || ctx.escrowed_x_tokens != entry.escrowed_x_tokens
        || sellers_y.mint != entry.y_mint || buyer_x.mint != custody.mint || buyer_y.mint
        != entry.y_mint || buyer_y.owner != ctx.buyer.key {
        Err(EscrowError::AccountMismatch)
    } else {
        Ok(())
    }
}

/// The rules of a cancel request on the accounts it names, given the
/// address `signer` that the entry's seeds derive: the seller signed and is
/// the entry's authority; the entry is the one that the seeds derive; the
/// holding account is the one that the entry points to; and the destination
/// holds the asset of the holding account and is the seller's.
pub open spec fn cancel_rules(
    ctx: Cancel,
    signer: Option<Pubkey>,
    entry: Escrow,
    custody: TokenAccount,
    seller_x: TokenAccount,
) -> Result<(), EscrowError> {
    if !ctx.seller.is_signer || entry.authority != ctx.seller.key {
        Err(EscrowError::AuthorizationFailure)
    } else if signer != Some(ctx.escrow) || ctx.escrowed_x_tokens != entry.escrowed_x_tokens
        || seller_x.mint != custody.mint || seller_x.owner != ctx.seller.key {
        Err(EscrowError::AccountMismatch)
    } else {
        Ok(())
    }
}

/// Checks an open request against the seller's source account.
pub fn check_initialize(ctx: &Initialize, source: &TokenAccount) -> (checked: Result<
    (),
    EscrowError,
>)
    ensures
        checked == open_rules(*ctx, *source),
{
    if !ctx.seller.is_signer {
        return Err(EscrowError::AuthorizationFailure);
    }
    if source.mint != ctx.x_mint || source.owner != ctx.seller.key {
        return Err(EscrowError::AssetMismatch);
    }
    Ok(())
}

/// Checks a settle request against the entry and the four token accounts
/// that it names.
pub fn check_accept(
    ctx: &Accept,
    signer: Option<Pubkey>,
    entry: &Escrow,
    custody: &TokenAccount,
    sellers_y: &TokenAccount,
    buyer_x: &TokenAccount,
    buyer_y: &TokenAccount,
) -> (checked: Result<(), EscrowError>)
    ensures
        checked == settle_rules(*ctx, signer, *entry, *custody, *sellers_y, *buyer_x, *buyer_y),
{
    if !ctx.buyer.is_signer {
        return Err(EscrowError::AuthorizationFailure);
    }
    if !derives(signer, &ctx.escrow) {
        return Err(EscrowError::AccountMismatch);
    }
    if ctx.escrowed_x_tokens != entry.escrowed_x_tokens {
        return Err(EscrowError::AccountMismatch);
    }
    if sellers_y.mint != entry.y_mint {
        return Err(EscrowError::AccountMismatch);
    }
    if buyer_x.mint != custody.mint {
        return Err(EscrowError::AccountMismatch);
    }
    if buyer_y.mint != entry.y_mint || buyer_y.owner != ctx.buyer.key {
        return Err(EscrowError::AccountMismatch);
    }
    Ok(())
}

/// Checks a cancel request against the entry and the two token accounts
/// that it names.
pub fn check_cancel(
    ctx: &Cancel,
    signer: Option<Pubkey>,
    entry: &Escrow,
    custody: &TokenAccount,
    seller_x: &TokenAccount,
) -> (checked: Result<(), EscrowError>)
    ensures
        checked == cancel_rules(*ctx, signer, *entry, *custody, *seller_x),
{
    if !ctx.seller.is_signer || entry.authority != ctx.seller.key {
        return Err(EscrowError::AuthorizationFailure);
    }
    if !derives(signer, &ctx.escrow) {
        return Err(EscrowError::AccountMismatch);
    }
    if ctx.escrowed_x_tokens != entry.escrowed_x_tokens {
        return Err(EscrowError::AccountMismatch);
    }
    if seller_x.mint != custody.mint || seller_x.owner != ctx.seller.key {
        return Err(EscrowError::AccountMismatch);
    }
    Ok(())
}

/// Whether the derived address is `key`.
fn derives(signer: Option<Pubkey>, key: &Pubkey) -> (same: bool)
    ensures
        same == (signer == Some(*key)),
{
    match signer {
        Some(derived) => derived == *key,
        None => false,
    }
}

/// The entry that an open request records at the derived `key`.
pub fn initialize_entry(ctx: &Initialize, y_amount: u64, key: &Pubkey, bump: u8) -> (entry: Escrow)
    ensures
        entry == opened_entry(*ctx, y_amount, *key, bump),
{
    Escrow {
        authority: ctx.seller.key,
        bump,
        escrowed_x_tokens: *key,
        y_mint: ctx.y_mint,
        y_amount,
    }
}

/// The transfer of an open request: `x_amount` from the seller's source
/// into the holding account at `custody`, on the seller's word.
pub fn initialize_transfer(ctx: &Initialize, custody: &Pubkey, x_amount: u64) -> (deposit: Transfer)
    ensures
        deposit == (Transfer {
            from: ctx.seller_x_token,
            to: *custody,
            authority: ctx.seller.key,
            amount: x_amount,
        }),
{
    Transfer {
        from: ctx.seller_x_token,
        to: *custody,
        authority: ctx.seller.key,
        amount: x_amount,
    }
}

/// The two transfers of a settle request, in the order in which they are
/// made: the whole balance of the holding account to the buyer, on the
/// escrow's own word; then the recorded quote amount from the buyer to the
/// seller, on the buyer's word.
pub fn accept_transfers(ctx: &Accept, entry: &Escrow, custody: &TokenAccount) -> (legs: (
    Transfer,
    Transfer,
))
    ensures
        legs.0 == (Transfer {
            from: ctx.escrowed_x_tokens,
            to: ctx.buyer_x_token,
            authority: ctx.escrow,
            amount: custody.amount,
        }),
        legs.1 == (Transfer {
            from: ctx.buyer_y_token,
            to: ctx.sellers_y_tokens,
            authority: ctx.buyer.key,
            amount: entry.y_amount,
        }),
{
    (
        Transfer {
            from: ctx.escrowed_x_tokens,
            to: ctx.buyer_x_token,
            authority: ctx.escrow,
            amount: custody.amount,
        },
        Transfer {
            from: ctx.buyer_y_token,
            to: ctx.sellers_y_tokens,
            authority: ctx.buyer.key,
            amount: entry.y_amount,
        },
    )
}

/// The two actions of a cancel request, in the order in which they are
/// made: the whole balance of the holding account back to the seller, then
/// the closing of the holding account in the seller's favour; both on the
/// escrow's own word.
pub fn cancel_actions(ctx: &Cancel, custody: &TokenAccount) -> (actions: (Transfer, CloseAccount))
    ensures
        actions.0 == (Transfer {
            from: ctx.escrowed_x_tokens,
            to: ctx.seller_x_token,
            authority: ctx.escrow,
            amount: custody.amount,
        }),
        actions.1 == (CloseAccount {
            account: ctx.escrowed_x_tokens,
            destination: ctx.seller.key,
            authority: ctx.escrow,
        }),
{
    (
        Transfer {
            from: ctx.escrowed_x_tokens,
            to: ctx.seller_x_token,
            authority: ctx.escrow,
            amount: custody.amount,
        },
        CloseAccount {
            account: ctx.escrowed_x_tokens,
            destination: ctx.seller.key,
            authority: ctx.escrow,
        },
    )
}

/// What a transition did to the ledger, against what it should have done:
/// on success the ledger is the new state, on refusal the refusal is the
/// expected one and the ledger is unchanged.
pub open spec fn carried_out(
    before: LedgerState,
    after: LedgerState,
    done: Result<(), EscrowError>,
    expected: Result<LedgerState, EscrowError>,
) -> bool {
    match done {
        Ok(_) => expected == Ok::<LedgerState, EscrowError>(after),
        Err(refusal) => expected == Err::<LedgerState, EscrowError>(refusal) && after == before,
    }
}

/// Opens an escrow at the address and bump that the search returned for the
/// seller.
pub fn initialize_with(
    ledger: &mut Ledger,
    ctx: &Initialize,
    x_amount: u64,
    y_amount: u64,
    derived: Option<(Pubkey, u8)>,
) -> (done: Result<(), EscrowError>)
    requires
        old(ledger).wf(),
    ensures
        final(ledger).wf(),
        carried_out(
            old(ledger)@,
            final(ledger)@,
            done,
            open_step(old(ledger)@, *ctx, x_amount, y_amount, derived),
        ),
{
    if !ctx.seller.is_signer {
        return Err(EscrowError::AuthorizationFailure);
    }
    let (key, bump) = match derived {
        Some(found) => found,
        None => { return Err(EscrowError::AccountMismatch); },
    };
    if ledger.escrow(&key).is_some() || ledger.token_account(&key).is_some() {
        return Err(EscrowError::DuplicateEscrow);
    }
    let source = match ledger.token_account(&ctx.seller_x_token) {
        Some(account) => account,
        None => { return Err(EscrowError::AssetMismatch); },
    };
    match check_initialize(ctx, &source) {
        Ok(_) => {},
        Err(refusal) => { return Err(refusal); },
    }
    let funds = ledger.lamports(&ctx.seller.key);
    let entry_deposit = ledger.entry_deposit();
    let custody_deposit = ledger.custody_deposit();
    if funds < custody_deposit || funds - custody_deposit < entry_deposit {
        return Err(EscrowError::InsufficientBalance);
    }
    if source.amount < x_amount {
        return Err(EscrowError::InsufficientBalance);
    }
    ledger.open_holding(&key, &ctx.x_mint, &key, &ctx.seller.key);
    ledger.record_entry(&key, initialize_entry(ctx, y_amount, &key, bump), &ctx.seller.key);
    let deposit = initialize_transfer(ctx, &key, x_amount);
    let ghost listed = ledger@;
    let moved = ledger.apply_transfer(&deposit);
    proof {
        let s = old(ledger)@;
        assert(listed.wallets =~= s.debited(
            ctx.seller.key,
            s.entry_deposit + s.custody_deposit,
        ).wallets);
        assert(listed.transfer(ctx.seller_x_token, key, ctx.seller.key, x_amount as nat) is Ok);
        assert(ledger@ == opened(s, *ctx, x_amount, y_amount, key, bump));
    }
    Ok(())
}

/// Opens an escrow for the seller: derives the escrow's address from the
/// seller's identity, creates the entry and the holding account there, and
/// moves `x_amount` of the seller's asset into the holding account.
pub fn initialize(ledger: &mut Ledger, ctx: &Initialize, x_amount: u64, y_amount: u64) -> (done:
    Result<(), EscrowError>)
    requires
        old(ledger).wf(),
    ensures
        final(ledger).wf(),
        carried_out(
            old(ledger)@,
            final(ledger)@,
            done,
            open_step(
                old(ledger)@,
                *ctx,
                x_amount,
                y_amount,
                escrow_key(ctx.seller.key, old(ledger)@.program_id),
            ),
        ),
{
    let program_id = ledger.program_id();
    let derived = find_escrow_address(&ctx.seller.key, &program_id);
    initialize_with(ledger, ctx, x_amount, y_amount, derived)
}

/// Settles the escrow named by `ctx`, given the address that the seeds of
/// its entry derive.
pub fn accept_with(ledger: &mut Ledger, ctx: &Accept, signer: Option<Pubkey>) -> (done: Result<
    (),
    EscrowError,
>)
    requires
        old(ledger).wf(),
    ensures
        final(ledger).wf(),
        carried_out(old(ledger)@, final(ledger)@, done, settle_step(old(ledger)@, *ctx, signer)),
{
    if !ctx.buyer.is_signer {
        return Err(EscrowError::AuthorizationFailure);
    }
    let entry = match ledger.escrow(&ctx.escrow) {
        Some(entry) => entry,
        None => { return Err(EscrowError::AccountMismatch); },
    };
    let custody = match ledger.token_account(&ctx.escrowed_x_tokens) {
        Some(account) => account,
        None => { return Err(EscrowError::AccountMismatch); },
    };
    let sellers_y = match ledger.token_account(&ctx.sellers_y_tokens) {
        Some(account) => account,
        None => { return Err(EscrowError::AccountMismatch); },
    };
    let buyer_x = match ledger.token_account(&ctx.buyer_x_token) {
        Some(account) => account,
        None => { return Err(EscrowError::AccountMismatch); },
    };
    let buyer_y = match ledger.token_account(&ctx.buyer_y_token) {
        Some(account) => account,
        None => { return Err(EscrowError::AccountMismatch); },
    };
    match check_accept(ctx, signer, &entry, &custody, &sellers_y, &buyer_x, &buyer_y) {
        Ok(_) => {},
        Err(refusal) => { return Err(refusal); },
    }
    let (deliver, pay) = accept_transfers(ctx, &entry, &custody);
    let mut work = ledger.snapshot();
    match work.apply_transfer(&deliver) {
        Ok(_) => {},
        Err(refusal) => { return Err(refusal); },
    }
    match work.apply_transfer(&pay) {
        Ok(_) => {},
        Err(refusal) => { return Err(refusal); },
    }
    *ledger = work;
    Ok(())
}

/// Settles the escrow named by `ctx`: the buyer receives the whole balance
/// of the holding account and pays the seller exactly the recorded quote
/// amount.
pub fn accept(ledger: &mut Ledger, ctx: &Accept) -> (done: Result<(), EscrowError>)
    requires
        old(ledger).wf(),
    ensures
        final(ledger).wf(),
        carried_out(
            old(ledger)@,
            final(ledger)@,
            done,
            settle_step(old(ledger)@, *ctx, entry_signer(old(ledger)@, ctx.escrow)),
        ),
{
    let signer = derive_signer(ledger, &ctx.escrow);
    accept_with(ledger, ctx, signer)
}

/// Cancels the escrow named by `ctx`, given the address that the seeds of
/// its entry derive.
pub fn cancel_with(ledger: &mut Ledger, ctx: &Cancel, signer: Option<Pubkey>) -> (done: Result<
    (),
    EscrowError,
>)
    requires
        old(ledger).wf(),
    ensures
        final(ledger).wf(),
        carried_out(old(ledger)@, final(ledger)@, done, cancel_step(old(ledger)@, *ctx, signer)),
{
    if !ctx.seller.is_signer {
        return Err(EscrowError::AuthorizationFailure);
    }
    let entry = match ledger.escrow(&ctx.escrow) {
        Some(entry) => entry,
        None => { return Err(EscrowError::AccountMismatch); },
    };
    if entry.authority != ctx.seller.key {
        return Err(EscrowError::AuthorizationFailure);
    }
    let custody = match ledger.token_account(&ctx.escrowed_x_tokens) {
        Some(account) => account,
        None => { return Err(EscrowError::AccountMismatch); },
    };
    let seller_x = match ledger.token_account(&ctx.seller_x_token) {
        Some(account) => account,
        None => { return Err(EscrowError::AccountMismatch); },
    };
    match check_cancel(ctx, signer, &entry, &custody, &seller_x) {
        Ok(_) => {},
        Err(refusal) => { return Err(refusal); },
    }
    let (give_back, close) = cancel_actions(ctx, &custody);
    let mut work = ledger.snapshot();
    match work.apply_transfer(&give_back) {
        Ok(_) => {},
        Err(refusal) => { return Err(refusal); },
    }
    match work.apply_close(&close) {
        Ok(_) => {},
        Err(refusal) => { return Err(refusal); },
    }
    work.erase_entry(&ctx.escrow, &ctx.seller.key);
    *ledger = work;
    Ok(())
}

/// Cancels the escrow named by `ctx`: the seller takes back the whole
/// balance of the holding account, and the holding account and the entry
/// cease to exist, their storage deposits released to the seller.
pub fn cancel(ledger: &mut Ledger, ctx: &Cancel) -> (done: Result<(), EscrowError>)
    requires
        old(ledger).wf(),
    ensures
        final(ledger).wf(),
        carried_out(
            old(ledger)@,
            final(ledger)@,
            done,
            cancel_step(old(ledger)@, *ctx, entry_signer(old(ledger)@, ctx.escrow)),
        ),
{
    let signer = derive_signer(ledger, &ctx.escrow);
    cancel_with(ledger, ctx, signer)
}

/// Derives the address for which the entry at `key` signs.
fn derive_signer(ledger: &Ledger, key: &Pubkey) -> (signer: Option<Pubkey>)
    requires
        ledger.wf(),
    ensures
        signer == entry_signer(ledger@, *key),
{
    match ledger.escrow(key) {
        Some(entry) => {
            let program_id = ledger.program_id();
            escrow_address(&entry.authority, entry.bump, &program_id)
        },
        None => None,
    }
}

} // verus!
