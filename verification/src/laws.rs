//! The guarantees the ledger's operations combine into, each proved from
//! the operations' own contracts alone.

use vstd::prelude::*;
use crate::addr::Address;
use crate::addr::spec_board_address;
use crate::addr::spec_board_vault_address;
use crate::addr::spec_bounty_address;
use crate::addr::spec_bounty_vault_address;
use crate::error::LedgerError;
use crate::ledger::CloseBounty;
use crate::ledger::Deposit;
use crate::ledger::InitializeBoard;
use crate::ledger::Ledger;
use crate::ledger::SendBounty;
use crate::ledger::SetBoardAuthority;
use crate::ledger::close_bounty_post;
use crate::ledger::deposit_post;
use crate::ledger::hunter_matches;
use crate::ledger::initialize_board_post;
use crate::ledger::send_bounty_post;
use crate::ledger::set_authority_post;
use crate::ledger::spec_board_key;
use crate::ledger::spec_bounty_key;
use crate::ledger::state_unchanged;
use crate::state::Identity;

verus! {

/// Creating a board whose identifier is already taken is refused: the call
/// returns `AlreadyInitialized`, nothing in the ledger changes, and the
/// recorded authority in particular survives untouched.
pub proof fn lemma_recreate_board_rejected(
    pre: Ledger,
    post: Ledger,
    req: InitializeBoard,
    board_id: u32,
    r: Result<Address, LedgerError>,
)
    requires
        initialize_board_post(pre, post, req, board_id, r),
        req.board == spec_board_address(board_id),
        req.board_vault == spec_board_vault_address(board_id),
        pre.boards().contains_key(spec_board_key(board_id)),
    ensures
        r == Err::<Address, LedgerError>(LedgerError::AlreadyInitialized),
        state_unchanged(pre, post),
        post.boards()[spec_board_key(board_id)].authority == pre.boards()[spec_board_key(
            board_id,
        )].authority,
{
}

/// An authority transfer signed by anyone but the recorded authority fails
/// with `Unauthorized`, and the stored authority is unchanged afterwards.
pub proof fn lemma_set_authority_unauthorized(
    pre: Ledger,
    post: Ledger,
    req: SetBoardAuthority,
    board_id: u32,
    new_authority: Identity,
    r: Result<(), LedgerError>,
)
    requires
        set_authority_post(pre, post, req, board_id, new_authority, r),
        req.board == spec_board_address(board_id),
        pre.boards().contains_key(spec_board_key(board_id)),
        req.authority != pre.boards()[spec_board_key(board_id)].authority,
    ensures
        r == Err::<(), LedgerError>(LedgerError::Unauthorized),
        state_unchanged(pre, post),
        post.boards()[spec_board_key(board_id)].authority == pre.boards()[spec_board_key(
            board_id,
        )].authority,
{
}

/// A successful deposit moves exactly `amount`: the bounty vault gains it,
/// the sponsor's account loses it, and across the pair the asset is
/// conserved.
pub proof fn lemma_deposit_conserves_assets(
    pre: Ledger,
    post: Ledger,
    req: Deposit,
    board_id: u32,
    bounty_id: u32,
    amount: u64,
    r: Result<(), LedgerError>,
)
    requires
        deposit_post(pre, post, req, board_id, bounty_id, amount, r),
        r == Ok::<(), LedgerError>(()),
    ensures
        post.bounty_vaults()[spec_bounty_key(board_id, bounty_id)].balance == pre.bounty_vaults()[
            spec_bounty_key(board_id, bounty_id)
        ].balance + amount,
        post.token_accounts()[req.sponsor_vault.key].balance == pre.token_accounts()[
            req.sponsor_vault.key
        ].balance - amount,
        post.token_accounts()[req.sponsor_vault.key].balance + post.bounty_vaults()[
            spec_bounty_key(board_id, bounty_id)
        ].balance == pre.token_accounts()[req.sponsor_vault.key].balance + pre.bounty_vaults()[
            spec_bounty_key(board_id, bounty_id)
        ].balance,
{
}

/// A payout goes through only against a bounty already closed whose
/// recorded winner equals the presented name exactly; afterwards the
/// bounty's address no longer resolves to a live record, its vault is
/// gone, and the vault's entire balance has moved to the destination.
pub proof fn lemma_payout_gated_by_state(
    pre: Ledger,
    post: Ledger,
    req: SendBounty,
    board_id: u32,
    bounty_id: u32,
    bounty_hunter: String,
    r: Result<(), LedgerError>,
)
    requires
        send_bounty_post(pre, post, req, board_id, bounty_id, bounty_hunter, r),
        r == Ok::<(), LedgerError>(()),
    ensures
        pre.bounties().contains_key(spec_bounty_key(board_id, bounty_id)),
        pre.bounties()[spec_bounty_key(board_id, bounty_id)].is_closed,
        hunter_matches(pre.bounties()[spec_bounty_key(board_id, bounty_id)], bounty_hunter),
        !post.bounties().contains_key(spec_bounty_key(board_id, bounty_id)),
        !post.bounty_vaults().contains_key(spec_bounty_key(board_id, bounty_id)),
        post.token_accounts()[req.user_vault.key].balance == pre.token_accounts()[
            req.user_vault.key
        ].balance + pre.bounty_vaults()[spec_bounty_key(board_id, bounty_id)].balance,
        post.boards() == pre.boards(),
{
}

/// Closing never reopens: whatever a close writes, the closed flag of the
/// bounty it touched reads true afterwards.
pub proof fn lemma_close_is_irreversible(
    pre: Ledger,
    post: Ledger,
    req: CloseBounty,
    board_id: u32,
    bounty_id: u32,
    bounty_hunter: Option<String>,
    r: Result<(), LedgerError>,
)
    requires
        close_bounty_post(pre, post, req, board_id, bounty_id, bounty_hunter, r),
        pre.bounties().contains_key(spec_bounty_key(board_id, bounty_id)),
        pre.bounties()[spec_bounty_key(board_id, bounty_id)].is_closed,
    ensures
        post.bounties()[spec_bounty_key(board_id, bounty_id)].is_closed,
{
}

} // verus!
