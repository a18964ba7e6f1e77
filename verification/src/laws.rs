//! What holds of the three transitions, for every ledger and every request.
use crate::error::EscrowError;
use crate::instructions::{
    cancel_accounts_fit, cancel_rules, cancel_step, entry_signer, open_rules, open_source_fits,
    open_step, opened_entry, settle_accounts_fit, settle_rules, settle_step, Accept, Cancel,
    Initialize,
};
use crate::ledger::{Signer, TokenAccount};
use crate::model::{Holding, LedgerState};
use crate::pubkey::{escrow_key, lemma_found_key_signs, Pubkey};
use vstd::prelude::*;

verus! {

/// A valid open creates exactly one entry and exactly one holding account,
/// both at the derived address; the holding account is signed for by the
/// escrow alone and holds exactly the deposited amount, by which the
/// seller's source account has decreased; the seller's wallet has paid the
/// two storage deposits; every other account is as it was.
pub proof fn lemma_open_effects(
    s: LedgerState,
    ctx: Initialize,
    x_amount: u64,
    y_amount: u64,
    derived: Option<(Pubkey, u8)>,
)
    requires
        open_step(s, ctx, x_amount, y_amount, derived) is Ok,
    ensures
        ({
            let after = open_step(s, ctx, x_amount, y_amount, derived)->Ok_0;
            let key = derived->Some_0.0;
            let bump = derived->Some_0.1;
            &&& derived is Some
            &&& !s.escrows.contains_key(key)
            &&& !s.tokens.contains_key(key)
            &&& after.escrows == s.escrows.insert(key, after.escrows[key])
            &&& after.escrows[key].entry == opened_entry(ctx, y_amount, key, bump)
            &&& after.escrows[key].deposit == s.entry_deposit
            &&& after.tokens.dom() == s.tokens.dom().insert(key)
            &&& after.tokens[key] == Holding {
                mint: ctx.x_mint,
                owner: key,
                amount: x_amount as nat,
                deposit: s.custody_deposit,
            }
            &&& after.tokens[ctx.seller_x_token].amount + x_amount
                == s.tokens[ctx.seller_x_token].amount
            &&& forall|other: Pubkey|
                other != key && other != ctx.seller_x_token && s.tokens.contains_key(other)
                    ==> after.tokens[other] == s.tokens[other]
            &&& after.wallets[ctx.seller.key] + s.entry_deposit + s.custody_deposit
                == s.wallets[ctx.seller.key]
            &&& forall|other: Pubkey|
                other != ctx.seller.key && s.wallets.contains_key(other) ==> after.wallets[other]
                    == s.wallets[other]
        }),
{
    let after = open_step(s, ctx, x_amount, y_amount, derived)->Ok_0;
    let key = derived->Some_0.0;
    assert(after.escrows =~= s.escrows.insert(key, after.escrows[key]));
    assert(after.tokens.dom() =~= s.tokens.dom().insert(key));
}

/// While the escrow that a seller opened stands, every further signed open
/// for the same seller is refused as a duplicate.
pub proof fn lemma_open_twice_is_duplicate(
    s: LedgerState,
    first: Initialize,
    x_first: u64,
    y_first: u64,
    second: Initialize,
    x_second: u64,
    y_second: u64,
)
    requires
        open_step(
            s,
            first,
            x_first,
            y_first,
            escrow_key(first.seller.key, s.program_id),
        ) is Ok,
        second.seller.key == first.seller.key,
        second.seller.is_signer,
    ensures
        ({
            let after = open_step(
                s,
                first,
                x_first,
                y_first,
                escrow_key(first.seller.key, s.program_id),
            )->Ok_0;
            open_step(
                after,
                second,
                x_second,
                y_second,
                escrow_key(second.seller.key, after.program_id),
            ) == Err::<LedgerState, EscrowError>(EscrowError::DuplicateEscrow)
        }),
{
}

/// The four token accounts of a settle request are pairwise distinct.
pub open spec fn settle_accounts_distinct(ctx: Accept) -> bool {
    &&& ctx.escrowed_x_tokens != ctx.buyer_x_token
    &&& ctx.escrowed_x_tokens != ctx.buyer_y_token
    &&& ctx.escrowed_x_tokens != ctx.sellers_y_tokens
    &&& ctx.buyer_x_token != ctx.buyer_y_token
    &&& ctx.buyer_x_token != ctx.sellers_y_tokens
    &&& ctx.buyer_y_token != ctx.sellers_y_tokens
}

/// A valid settle between four distinct accounts empties the holding
/// account into the buyer's destination, which gains exactly what the
/// holding account held, and moves exactly the recorded quote amount from
/// the buyer's source to the seller's destination. The entry stays as it
/// was, and so do the wallets and every other token account.
pub proof fn lemma_settle_effects(s: LedgerState, ctx: Accept, signer: Option<Pubkey>)
    requires
        settle_step(s, ctx, signer) is Ok,
        settle_accounts_distinct(ctx),
    ensures
        ({
            let after = settle_step(s, ctx, signer)->Ok_0;
            let quote = s.escrows[ctx.escrow].entry.y_amount;
            &&& after.tokens.dom() == s.tokens.dom()
            &&& after.tokens[ctx.escrowed_x_tokens].amount == 0
            &&& after.tokens[ctx.buyer_x_token].amount == s.tokens[ctx.buyer_x_token].amount
                + s.tokens[ctx.escrowed_x_tokens].amount
            &&& after.tokens[ctx.sellers_y_tokens].amount == s.tokens[ctx.sellers_y_tokens].amount
                + quote
            &&& after.tokens[ctx.buyer_y_token].amount + quote
                == s.tokens[ctx.buyer_y_token].amount
            &&& forall|other: Pubkey|
                other != ctx.escrowed_x_tokens && other != ctx.buyer_x_token && other
                    != ctx.sellers_y_tokens && other != ctx.buyer_y_token && s.tokens.contains_key(
                    other,
                ) ==> after.tokens[other] == s.tokens[other]
            &&& after.escrows == s.escrows
            &&& after.wallets == s.wallets
        }),
{
    let after = settle_step(s, ctx, signer)->Ok_0;
    assert(after.tokens.dom() =~= s.tokens.dom());
}

/// A signed settle whose quote source is missing, or holds another asset
/// than the entry asks for, is refused as an account mismatch.
pub proof fn lemma_settle_wrong_quote_asset(s: LedgerState, ctx: Accept, signer: Option<Pubkey>)
    requires
        ctx.buyer.is_signer,
        !s.tokens.contains_key(ctx.buyer_y_token) || s.tokens[ctx.buyer_y_token].mint
            != s.escrows[ctx.escrow].entry.y_mint,
    ensures
        settle_step(s, ctx, signer) == Err::<LedgerState, EscrowError>(
            EscrowError::AccountMismatch,
        ),
{
}

/// A valid cancel into an account other than the holding account returns
/// exactly the balance of the holding account to the seller; the holding
/// account and the entry cease to exist, and the seller's wallet receives
/// both storage deposits. Every other account is as it was.
pub proof fn lemma_cancel_effects(s: LedgerState, ctx: Cancel, signer: Option<Pubkey>)
    requires
        cancel_step(s, ctx, signer) is Ok,
        ctx.seller_x_token != ctx.escrowed_x_tokens,
    ensures
        ({
            let after = cancel_step(s, ctx, signer)->Ok_0;
            &&& after.tokens.dom() == s.tokens.dom().remove(ctx.escrowed_x_tokens)
            &&& after.tokens[ctx.seller_x_token].amount == s.tokens[ctx.seller_x_token].amount
                + s.tokens[ctx.escrowed_x_tokens].amount
            &&& forall|other: Pubkey|
                other != ctx.escrowed_x_tokens && other != ctx.seller_x_token
                    && s.tokens.contains_key(other) ==> after.tokens[other] == s.tokens[other]
            &&& after.escrows == s.escrows.remove(ctx.escrow)
            &&& after.wallets[ctx.seller.key] == s.wallets[ctx.seller.key]
                + s.tokens[ctx.escrowed_x_tokens].deposit + s.escrows[ctx.escrow].deposit
            &&& forall|other: Pubkey|
                other != ctx.seller.key && s.wallets.contains_key(other) ==> after.wallets[other]
                    == s.wallets[other]
        }),
{
    let after = cancel_step(s, ctx, signer)->Ok_0;
    assert(after.tokens.dom() =~= s.tokens.dom().remove(ctx.escrowed_x_tokens));
}

/// A cancel by any identity other than the entry's authority is refused for
/// want of authorization.
pub proof fn lemma_cancel_needs_authority(s: LedgerState, ctx: Cancel, signer: Option<Pubkey>)
    requires
        s.escrows.contains_key(ctx.escrow),
        s.escrows[ctx.escrow].entry.authority != ctx.seller.key,
    ensures
        cancel_step(s, ctx, signer) == Err::<LedgerState, EscrowError>(
            EscrowError::AuthorizationFailure,
        ),
{
}

/// The request by which the seller of `ctx` cancels the escrow at `key`
/// back into the account that the deposit came from.
pub open spec fn cancel_of(ctx: Initialize, key: Pubkey) -> Cancel {
    Cancel {
        seller: Signer { key: ctx.seller.key, is_signer: true },
        escrow: key,
        escrowed_x_tokens: key,
        seller_x_token: ctx.seller_x_token,
    }
}

/// Cancelling is always open to the seller and undoes the open in full:
/// after a valid open, the seller's cancel succeeds and leaves the ledger
/// exactly as it was before the open.
pub proof fn lemma_cancel_undoes_open(
    s: LedgerState,
    ctx: Initialize,
    x_amount: u64,
    y_amount: u64,
)
    requires
        s.complete(),
        open_step(s, ctx, x_amount, y_amount, escrow_key(ctx.seller.key, s.program_id)) is Ok,
    ensures
        ({
            let key = escrow_key(ctx.seller.key, s.program_id)->Some_0.0;
            let after = open_step(
                s,
                ctx,
                x_amount,
                y_amount,
                escrow_key(ctx.seller.key, s.program_id),
            )->Ok_0;
            cancel_step(after, cancel_of(ctx, key), entry_signer(after, key)) == Ok::<
                LedgerState,
                EscrowError,
            >(s)
        }),
{
    let derived = escrow_key(ctx.seller.key, s.program_id);
    let key = derived->Some_0.0;
    let after = open_step(s, ctx, x_amount, y_amount, derived)->Ok_0;
    lemma_found_key_signs(ctx.seller.key, s.program_id);
    let undone = cancel_step(after, cancel_of(ctx, key), entry_signer(after, key));
    assert(undone is Ok);
    let last = undone->Ok_0;
    assert(last.tokens =~= s.tokens);
    assert(last.escrows =~= s.escrows);
    assert(last.wallets =~= s.wallets);
}

/// No transition issues or destroys anything: the supply of every asset,
/// the native funds in circulation, the program's identity and the storage
/// deposits it charges are the same after a valid open, settle or cancel.
pub open spec fn conserved(before: LedgerState, after: LedgerState) -> bool {
    &&& after.supply == before.supply
    &&& after.circulating == before.circulating
    &&& after.program_id == before.program_id
    &&& after.entry_deposit == before.entry_deposit
    &&& after.custody_deposit == before.custody_deposit
}

/// A valid open conserves supplies and funds.
pub proof fn lemma_open_conserves(
    s: LedgerState,
    ctx: Initialize,
    x_amount: u64,
    y_amount: u64,
    derived: Option<(Pubkey, u8)>,
)
    requires
        open_step(s, ctx, x_amount, y_amount, derived) is Ok,
    ensures
        conserved(s, open_step(s, ctx, x_amount, y_amount, derived)->Ok_0),
{
}

/// A valid settle conserves supplies and funds.
pub proof fn lemma_settle_conserves(s: LedgerState, ctx: Accept, signer: Option<Pubkey>)
    requires
        settle_step(s, ctx, signer) is Ok,
    ensures
        conserved(s, settle_step(s, ctx, signer)->Ok_0),
{
}

/// A valid cancel conserves supplies and funds.
pub proof fn lemma_cancel_conserves(s: LedgerState, ctx: Cancel, signer: Option<Pubkey>)
    requires
        cancel_step(s, ctx, signer) is Ok,
    ensures
        conserved(s, cancel_step(s, ctx, signer)->Ok_0),
{
}

/// The terms of an escrow never change: whatever a settle does, the entry
/// that it read is the entry that stays.
pub proof fn lemma_settle_keeps_terms(s: LedgerState, ctx: Accept, signer: Option<Pubkey>)
    requires
        settle_step(s, ctx, signer) is Ok,
    ensures
        settle_step(s, ctx, signer)->Ok_0.escrows == s.escrows,
{
}

/// The rules of an open request, applied to the source account as the
/// ledger holds it, are the checks that the open makes on the seller and
/// the source.
pub proof fn lemma_open_rules_agree(s: LedgerState, ctx: Initialize, source: TokenAccount)
    requires
        s.tokens.contains_key(ctx.seller_x_token),
        source.shows(s.tokens[ctx.seller_x_token]),
    ensures
        open_rules(ctx, source) is Ok <==> ctx.seller.is_signer && open_source_fits(s, ctx),
{
}

/// The rules of a settle request, applied to the entry and the accounts as
/// the ledger holds them, are the checks that the settle makes before it
/// moves anything.
pub proof fn lemma_settle_rules_agree(
    s: LedgerState,
    ctx: Accept,
    signer: Option<Pubkey>,
    custody: TokenAccount,
    sellers_y: TokenAccount,
    buyer_x: TokenAccount,
    buyer_y: TokenAccount,
)
    requires
        s.escrows.contains_key(ctx.escrow),
        s.tokens.contains_key(ctx.escrowed_x_tokens),
        s.tokens.contains_key(ctx.sellers_y_tokens),
        s.tokens.contains_key(ctx.buyer_x_token),
        s.tokens.contains_key(ctx.buyer_y_token),
        custody.shows(s.tokens[ctx.escrowed_x_tokens]),
        sellers_y.shows(s.tokens[ctx.sellers_y_tokens]),
        buyer_x.shows(s.tokens[ctx.buyer_x_token]),
        buyer_y.shows(s.tokens[ctx.buyer_y_token]),
    ensures
        settle_rules(
            ctx,
            signer,
            s.escrows[ctx.escrow].entry,
            custody,
            sellers_y,
            buyer_x,
            buyer_y,
        ) is Ok <==> ctx.buyer.is_signer && settle_accounts_fit(s, ctx, signer),
{
}

/// The rules of a cancel request, applied to the entry and the accounts as
/// the ledger holds them, are the checks that the cancel makes before it
/// moves anything.
pub proof fn lemma_cancel_rules_agree(
    s: LedgerState,
    ctx: Cancel,
    signer: Option<Pubkey>,
    custody: TokenAccount,
    seller_x: TokenAccount,
)
    requires
        s.escrows.contains_key(ctx.escrow),
        s.tokens.contains_key(ctx.escrowed_x_tokens),
        s.tokens.contains_key(ctx.seller_x_token),
        custody.shows(s.tokens[ctx.escrowed_x_tokens]),
        seller_x.shows(s.tokens[ctx.seller_x_token]),
    ensures
        cancel_rules(ctx, signer, s.escrows[ctx.escrow].entry, custody, seller_x) is Ok
            <==> ctx.seller.is_signer && s.escrows[ctx.escrow].entry.authority == ctx.seller.key
            && cancel_accounts_fit(s, ctx, signer),
{
}

/// The asset service debits an account only on the word of its owner.
pub proof fn lemma_transfer_needs_owner(
    s: LedgerState,
    from: Pubkey,
    to: Pubkey,
    authority: Pubkey,
    amount: nat,
)
    requires
        s.transfer(from, to, authority, amount) is Ok,
    ensures
        authority == s.tokens[from].owner,
{
}

/// Every entry points to a holding account that exists and that the entry
/// alone signs for.
pub open spec fn custody_intact(s: LedgerState) -> bool {
    forall|key: Pubkey|
        #![trigger s.escrows.contains_key(key)]
        s.escrows.contains_key(key) ==> s.tokens.contains_key(
            s.escrows[key].entry.escrowed_x_tokens,
        ) && s.tokens[s.escrows[key].entry.escrowed_x_tokens].owner == key
}

/// Every entry lies at the address that is found for its authority, with
/// the bump that was found.
pub open spec fn keyed_by_seller(s: LedgerState) -> bool {
    forall|key: Pubkey|
        #![trigger s.escrows.contains_key(key)]
        s.escrows.contains_key(key) ==> escrow_key(s.escrows[key].entry.authority, s.program_id)
            == Some((key, s.escrows[key].entry.bump))
}

/// The empty ledger has both properties of its entries.
pub proof fn lemma_empty_is_intact(program_id: Pubkey, entry_deposit: nat, custody_deposit: nat)
    ensures
        custody_intact(LedgerState::empty(program_id, entry_deposit, custody_deposit)),
        keyed_by_seller(LedgerState::empty(program_id, entry_deposit, custody_deposit)),
{
}

/// A valid open keeps the holding accounts intact, at whatever address it
/// is made.
pub proof fn lemma_open_keeps_custody(
    s: LedgerState,
    ctx: Initialize,
    x_amount: u64,
    y_amount: u64,
    derived: Option<(Pubkey, u8)>,
)
    requires
        custody_intact(s),
        open_step(s, ctx, x_amount, y_amount, derived) is Ok,
    ensures
        custody_intact(open_step(s, ctx, x_amount, y_amount, derived)->Ok_0),
{
    let after = open_step(s, ctx, x_amount, y_amount, derived)->Ok_0;
    let fresh = derived->Some_0.0;
    assert forall|key: Pubkey| after.escrows.contains_key(key) implies after.tokens.contains_key(
        after.escrows[key].entry.escrowed_x_tokens,
    ) && after.tokens[after.escrows[key].entry.escrowed_x_tokens].owner == key by {
        if key != fresh {
            assert(s.escrows.contains_key(key));
        }
    }
}

/// A valid settle keeps the holding accounts intact.
pub proof fn lemma_settle_keeps_custody(s: LedgerState, ctx: Accept, signer: Option<Pubkey>)
    requires
        custody_intact(s),
        settle_step(s, ctx, signer) is Ok,
    ensures
        custody_intact(settle_step(s, ctx, signer)->Ok_0),
{
    let after = settle_step(s, ctx, signer)->Ok_0;
    assert forall|key: Pubkey| after.escrows.contains_key(key) implies after.tokens.contains_key(
        after.escrows[key].entry.escrowed_x_tokens,
    ) && after.tokens[after.escrows[key].entry.escrowed_x_tokens].owner == key by {
        assert(s.escrows.contains_key(key));
    }
}

/// A valid cancel keeps the holding accounts of all other entries intact.
pub proof fn lemma_cancel_keeps_custody(s: LedgerState, ctx: Cancel, signer: Option<Pubkey>)
    requires
        custody_intact(s),
        cancel_step(s, ctx, signer) is Ok,
    ensures
        custody_intact(cancel_step(s, ctx, signer)->Ok_0),
{
    let after = cancel_step(s, ctx, signer)->Ok_0;
    assert(s.escrows.contains_key(ctx.escrow));
    assert forall|key: Pubkey| after.escrows.contains_key(key) implies after.tokens.contains_key(
        after.escrows[key].entry.escrowed_x_tokens,
    ) && after.tokens[after.escrows[key].entry.escrowed_x_tokens].owner == key by {
        assert(s.escrows.contains_key(key));
    }
}

/// An open at the address found for the seller keeps every entry at the
/// address of its authority.
pub proof fn lemma_open_keeps_keys(s: LedgerState, ctx: Initialize, x_amount: u64, y_amount: u64)
    requires
        keyed_by_seller(s),
        open_step(s, ctx, x_amount, y_amount, escrow_key(ctx.seller.key, s.program_id)) is Ok,
    ensures
        keyed_by_seller(
            open_step(
                s,
                ctx,
                x_amount,
                y_amount,
                escrow_key(ctx.seller.key, s.program_id),
            )->Ok_0,
        ),
{
    let derived = escrow_key(ctx.seller.key, s.program_id);
    let after = open_step(s, ctx, x_amount, y_amount, derived)->Ok_0;
    assert forall|key: Pubkey| after.escrows.contains_key(key) implies escrow_key(
        after.escrows[key].entry.authority,
        after.program_id,
    ) == Some((key, after.escrows[key].entry.bump)) by {
        if key != derived->Some_0.0 {
            assert(s.escrows.contains_key(key));
        }
    }
}

/// A valid settle keeps every entry at the address of its authority.
pub proof fn lemma_settle_keeps_keys(s: LedgerState, ctx: Accept, signer: Option<Pubkey>)
    requires
        keyed_by_seller(s),
        settle_step(s, ctx, signer) is Ok,
    ensures
        keyed_by_seller(settle_step(s, ctx, signer)->Ok_0),
{
    let after = settle_step(s, ctx, signer)->Ok_0;
    assert forall|key: Pubkey| after.escrows.contains_key(key) implies escrow_key(
        after.escrows[key].entry.authority,
        after.program_id,
    ) == Some((key, after.escrows[key].entry.bump)) by {
        assert(s.escrows.contains_key(key));
    }
}

/// A valid cancel keeps every other entry at the address of its authority.
pub proof fn lemma_cancel_keeps_keys(s: LedgerState, ctx: Cancel, signer: Option<Pubkey>)
    requires
        keyed_by_seller(s),
        cancel_step(s, ctx, signer) is Ok,
    ensures
        keyed_by_seller(cancel_step(s, ctx, signer)->Ok_0),
{
    let after = cancel_step(s, ctx, signer)->Ok_0;
    assert forall|key: Pubkey| after.escrows.contains_key(key) implies escrow_key(
        after.escrows[key].entry.authority,
        after.program_id,
    ) == Some((key, after.escrows[key].entry.bump)) by {
        assert(s.escrows.contains_key(key));
    }
}

/// Where every entry lies at the address of its authority, no seller has
/// two escrows open at a time.
pub proof fn lemma_one_escrow_per_seller(s: LedgerState, first: Pubkey, second: Pubkey)
    requires
        keyed_by_seller(s),
        s.escrows.contains_key(first),
        s.escrows.contains_key(second),
        s.escrows[first].entry.authority == s.escrows[second].entry.authority,
    ensures
        first == second,
{
}

/// Where every entry lies at the address of its authority, the seeds of
/// every entry derive its own address.
pub proof fn lemma_entry_signs_for_itself(s: LedgerState, key: Pubkey)
    requires
        keyed_by_seller(s),
        s.escrows.contains_key(key),
    ensures
        entry_signer(s, key) == Some(key),
{
    lemma_found_key_signs(s.escrows[key].entry.authority, s.program_id);
}

} // verus!
