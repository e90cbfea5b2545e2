//! Deterministic address derivation.
//!
//! Entities are not looked up in a registry: callers recompute each address
//! from public identifiers, and every operation confirms that the supplied
//! address matches the recomputation. Four address families exist, one per
//! entity kind. Each derived address also carries a salt, the opaque key
//! material a record stores so that the owning entity can later act as the
//! signing authority of its own vault.

use vstd::prelude::*;

verus! {

/// A derived location. Distinct (kind, identifier) tuples never alias:
/// the address is the identifiers themselves under a kind tag.
#[derive(Clone, Copy, PartialEq, Eq, Structural, Debug)]
pub enum Address {
    Board { board_id: u32 },
    BoardVault { board_id: u32 },
    Bounty { board_id: u32, bounty_id: u32 },
    BountyVault { board_id: u32, bounty_id: u32 },
}

/// The address of the board with the given identifier.
pub open spec fn spec_board_address(board_id: u32) -> Address {
    Address::Board { board_id }
}

/// The address of a board's own (reserved) vault.
pub open spec fn spec_board_vault_address(board_id: u32) -> Address {
    Address::BoardVault { board_id }
}

/// The address of a bounty, a child of its board.
pub open spec fn spec_bounty_address(board_id: u32, bounty_id: u32) -> Address {
    Address::Bounty { board_id, bounty_id }
}

/// The address of a bounty's escrow vault.
pub open spec fn spec_bounty_vault_address(board_id: u32, bounty_id: u32) -> Address {
    Address::BountyVault { board_id, bounty_id }
}

/// The derivation salt of an address: a deterministic byte mixed from the
/// kind tag and the identifiers. Records store it as opaque signing key
/// material; no logic reads anything out of it.
pub open spec fn spec_salt(a: Address) -> u8 {
    match a {
        Address::Board { board_id } => mix(1, board_id as u64, 0),
        Address::BoardVault { board_id } => mix(2, board_id as u64, 0),
        Address::Bounty { board_id, bounty_id } => mix(3, board_id as u64, bounty_id as u64),
        Address::BountyVault { board_id, bounty_id } => mix(4, board_id as u64, bounty_id as u64),
    }
}

pub open spec fn mix(tag: u64, a: u64, b: u64) -> u8 {
    ((tag + 3 * a + 5 * b) % 251) as u8
}

/// Derives the address of the board with the given identifier.
pub fn derive_board_address(board_id: u32) -> (r: Address)
    ensures
        r == spec_board_address(board_id),
{
    Address::Board { board_id }
}

/// Derives the address of the given board's own vault.
pub fn derive_board_vault_address(board: &Address) -> (r: Address)
    requires
        board is Board,
    ensures
        r == spec_board_vault_address(board->Board_board_id),
{
    match board {
        Address::Board { board_id } => Address::BoardVault { board_id: *board_id },
        _ => unreached(),
    }
}

/// Derives the address of a bounty under the given board.
pub fn derive_bounty_address(board: &Address, bounty_id: u32) -> (r: Address)
    requires
        board is Board,
    ensures
        r == spec_bounty_address(board->Board_board_id, bounty_id),
{
    match board {
        Address::Board { board_id } => Address::Bounty { board_id: *board_id, bounty_id },
        _ => unreached(),
    }
}

/// Derives the address of the given bounty's escrow vault.
pub fn derive_bounty_vault_address(bounty: &Address) -> (r: Address)
    requires
        bounty is Bounty,
    ensures
        r == spec_bounty_vault_address(bounty->Bounty_board_id, bounty->Bounty_bounty_id),
{
    match bounty {
        Address::Bounty { board_id, bounty_id } => (Address::BountyVault {
            board_id: *board_id,
            bounty_id: *bounty_id,
        }),
        _ => unreached(),
    }
}

/// Computes the derivation salt of an address.
pub fn derive_salt(a: &Address) -> (r: u8)
    ensures
        r == spec_salt(*a),
{
    match a {
        Address::Board { board_id } => mix_exec(1, *board_id as u64, 0),
        Address::BoardVault { board_id } => mix_exec(2, *board_id as u64, 0),
        Address::Bounty { board_id, bounty_id } => (mix_exec(
            3,
            *board_id as u64,
            *bounty_id as u64,
        )),
        Address::BountyVault { board_id, bounty_id } => (mix_exec(
            4,
            *board_id as u64,
            *bounty_id as u64,
        )),
    }
}

fn mix_exec(tag: u64, a: u64, b: u64) -> (r: u8)
    requires
        tag <= 4,
        a <= u32::MAX,
        b <= u32::MAX,
    ensures
        r == mix(tag, a, b),
{
    ((tag + 3 * a + 5 * b) % 251) as u8
}

/// Derivation is deterministic and collision-free: within each family two
/// derivations agree exactly when their identifiers agree, and no two
/// families ever share an address.
pub proof fn lemma_derivation_deterministic_and_injective(
    b1: u32,
    i1: u32,
    b2: u32,
    i2: u32,
)
    ensures
        (spec_board_address(b1) == spec_board_address(b2)) <==> b1 == b2,
        (spec_board_vault_address(b1) == spec_board_vault_address(b2)) <==> b1 == b2,
        (spec_bounty_address(b1, i1) == spec_bounty_address(b2, i2)) <==> (b1 == b2 && i1 == i2),
        (spec_bounty_vault_address(b1, i1) == spec_bounty_vault_address(b2, i2)) <==> (b1 == b2
            && i1 == i2),
        spec_board_address(b1) != spec_board_vault_address(b2),
        spec_board_address(b1) != spec_bounty_address(b2, i2),
        spec_board_address(b1) != spec_bounty_vault_address(b2, i2),
        spec_board_vault_address(b1) != spec_bounty_address(b2, i2),
        spec_board_vault_address(b1) != spec_bounty_vault_address(b2, i2),
        spec_bounty_address(b1, i1) != spec_bounty_vault_address(b2, i2),
{
}

} // verus!
