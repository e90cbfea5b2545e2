//! The persistent record types: boards, bounties, and the vaults escrowing
//! their funds, together with the field-level mutations each record admits.

use vstd::prelude::*;
use crate::addr::Address;

verus! {

/// A caller identity: the public key a signer proves control of.
#[derive(Clone, Copy, PartialEq, Eq, Structural, Debug)]
pub struct Identity {
    pub key: u64,
}

/// One board: a namespace for bounties, administered by one authority and
/// denominated in one accepted asset.
#[derive(Clone, Copy, PartialEq, Eq, Structural, Debug)]
pub struct Board {
    /// The identity permitted to administer the board; mutable only through
    /// an explicit transfer of authority.
    pub authority: Identity,
    /// Immutable identifier, part of the board's address.
    pub board_id: u32,
    /// The single fungible asset this board's bounties denominate in.
    pub accepted_mint: Identity,
    /// Opaque derivation salt letting the board sign for its vaults.
    pub board_bump: u8,
    /// Opaque derivation salt of the board's own vault.
    pub board_vault_bump: u8,
}

impl core::default::Default for Board {
    /// The zeroed placeholder a fresh record starts as before
    /// `initialize` populates it.
    fn default() -> (r: Board)
        ensures
            r == (Board {
                authority: Identity { key: 0 },
                board_id: 0,
                accepted_mint: Identity { key: 0 },
                board_bump: 0,
                board_vault_bump: 0,
            }),
    {
        Board {
            authority: Identity { key: 0 },
            board_id: 0,
            accepted_mint: Identity { key: 0 },
            board_bump: 0,
            board_vault_bump: 0,
        }
    }
}

impl Board {
    /// Populates a freshly created board record.
    pub fn initialize(
        &mut self,
        authority: Identity,
        board_id: u32,
        accepted_mint: Identity,
        board_bump: u8,
        board_vault_bump: u8,
    )
        ensures
            *final(self) == (Board {
                authority,
                board_id,
                accepted_mint,
                board_bump,
                board_vault_bump,
            }),
    {
        self.authority = authority;
        self.board_id = board_id;
        self.accepted_mint = accepted_mint;
        self.board_bump = board_bump;
        self.board_vault_bump = board_vault_bump;
    }

    /// Transfers administration of the board; every other field is kept.
    pub fn set_authority(&mut self, authority: Identity)
        ensures
            *final(self) == (Board { authority, ..*old(self) }),
    {
        self.authority = authority;
    }
}

/// One bounty: a funded task under a board, with at most one recorded
/// winner, closed exactly once, and destroyed by its single payout.
#[derive(Debug)]
pub struct Bounty {
    /// Immutable identifier of the owning board, part of the address.
    pub board_id: u32,
    /// Immutable identifier, part of the address.
    pub bounty_id: u32,
    /// Opaque derivation salt of the bounty record.
    pub bounty_bump: u8,
    /// Opaque derivation salt of the bounty's vault.
    pub bounty_vault_bump: u8,
    /// The recorded winner, if any; payout demands an exact match.
    pub bounty_hunter: Option<String>,
    /// True once the board authority has finalized the winner; never
    /// reverts to false.
    pub is_closed: bool,
}

impl core::default::Default for Bounty {
    /// The zeroed placeholder a fresh record starts as before
    /// `initialize` populates it.
    fn default() -> (r: Bounty)
        ensures
            r == (Bounty {
                board_id: 0,
                bounty_id: 0,
                bounty_bump: 0,
                bounty_vault_bump: 0,
                bounty_hunter: None,
                is_closed: false,
            }),
    {
        Bounty {
            board_id: 0,
            bounty_id: 0,
            bounty_bump: 0,
            bounty_vault_bump: 0,
            bounty_hunter: None,
            is_closed: false,
        }
    }
}

impl Bounty {
    /// Populates a freshly created bounty record: open, with no winner.
    pub fn initialize(
        &mut self,
        board_id: u32,
        bounty_id: u32,
        bounty_bump: u8,
        bounty_vault_bump: u8,
    )
        ensures
            *final(self) == (Bounty {
                board_id,
                bounty_id,
                bounty_bump,
                bounty_vault_bump,
                bounty_hunter: None,
                is_closed: false,
            }),
    {
        self.board_id = board_id;
        self.bounty_id = bounty_id;
        self.bounty_bump = bounty_bump;
        self.bounty_vault_bump = bounty_vault_bump;
        self.bounty_hunter = None;
        self.is_closed = false;
    }

    /// Marks the bounty closed and fixes the winner, overwriting any prior
    /// assignment — clearing it when no name is given. Closing an
    /// already-closed bounty is deliberately not rejected: the recorded
    /// winner may be rewritten any number of times until the payout.
    pub fn close(&mut self, bounty_hunter: Option<String>)
        ensures
            *final(self) == (Bounty { bounty_hunter, is_closed: true, ..*old(self) }),
    {
        self.is_closed = true;
        self.bounty_hunter = bounty_hunter;
    }

    /// Records the winner while leaving the closed flag alone, overwriting
    /// any prior assignment. Deliberately not gated on the closed flag:
    /// reassignment stays possible until the payout.
    pub fn set_bounty_hunter(&mut self, bounty_hunter: String)
        ensures
            *final(self) == (Bounty {
                bounty_hunter: Some(bounty_hunter),
                ..*old(self)
            }),
    {
        self.bounty_hunter = Some(bounty_hunter);
    }
}

/// An escrow vault bound to a board or bounty. Its spending authority is
/// the owning entity's derived address, never a caller-held key.
#[derive(Clone, Copy, PartialEq, Eq, Structural, Debug)]
pub struct Vault {
    /// The derived address whose signing capability spends this vault.
    pub owner: Address,
    /// The asset type held; always the owning board's accepted asset.
    pub mint: Identity,
    /// The escrowed amount.
    pub balance: u64,
}

/// An ordinary caller-owned token account outside the escrow: the source of
/// deposits and the destination of payouts.
#[derive(Clone, Copy, PartialEq, Eq, Structural, Debug)]
pub struct TokenAccount {
    /// The identity that signs for this account's funds.
    pub owner: Identity,
    /// The asset type held.
    pub mint: Identity,
    /// The held amount.
    pub balance: u64,
}

} // verus!
