//! The ledger: every record keyed by its derived address, and the
//! operations callers can submit against it.
//!
//! Each operation recomputes the addresses the caller names, loads the
//! records, checks the caller's proven identity and the requested
//! transition, and only then mutates. Every failure is detected before any
//! mutation, so an error always leaves the ledger exactly as it was.

use std::collections::HashMap;
use vstd::prelude::*;
use crate::addr::Address;
use crate::addr::derive_board_address;
use crate::addr::derive_board_vault_address;
use crate::addr::derive_bounty_address;
use crate::addr::derive_bounty_vault_address;
use crate::addr::derive_salt;
use crate::addr::spec_board_address;
use crate::addr::spec_board_vault_address;
use crate::addr::spec_bounty_address;
use crate::addr::spec_bounty_vault_address;
use crate::addr::spec_salt;
use crate::error::LedgerError;
use crate::state::Board;
use crate::state::Bounty;
use crate::state::Identity;
use crate::state::TokenAccount;
use crate::state::Vault;

verus! {

broadcast use vstd::std_specs::hash::group_hash_axioms;

/// The packed store key of a board.
pub open spec fn spec_board_key(board_id: u32) -> u64 {
    board_id as u64
}

/// The packed store key of a bounty: the two identifiers concatenated into
/// one stable integer. Collision-free by construction.
pub open spec fn spec_bounty_key(board_id: u32, bounty_id: u32) -> u64 {
    ((board_id as u64) * 0x1_0000_0000 + (bounty_id as u64)) as u64
}

/// Computes the packed store key of a bounty.
pub fn bounty_key(board_id: u32, bounty_id: u32) -> (k: u64)
    ensures
        k == spec_bounty_key(board_id, bounty_id),
{
    (board_id as u64) * 0x1_0000_0000 + (bounty_id as u64)
}

/// Packing is injective: two packed keys agree exactly when both
/// identifiers agree.
pub proof fn lemma_bounty_key_injective(b1: u32, i1: u32, b2: u32, i2: u32)
    ensures
        (spec_bounty_key(b1, i1) == spec_bounty_key(b2, i2)) <==> (b1 == b2 && i1 == i2),
{
}

/// A request to create a board: the caller-recomputed addresses, the asset
/// the board will accept, and the signer, who becomes the authority.
#[derive(Clone, Copy, Debug)]
pub struct InitializeBoard {
    pub board: Address,
    pub accepted_mint: Identity,
    pub board_vault: Address,
    pub authority: Identity,
}

/// A request to transfer administration of a board; the signer must be the
/// current authority.
#[derive(Clone, Copy, Debug)]
pub struct SetBoardAuthority {
    pub board: Address,
    pub authority: Identity,
}

/// A request to create a bounty under an existing board.
#[derive(Clone, Copy, Debug)]
pub struct InitializeBounty {
    pub board: Address,
    pub bounty: Address,
    pub accepted_mint: Identity,
    pub bounty_vault: Address,
    pub authority: Identity,
}

/// A request to fund a bounty out of the signer's own token account.
#[derive(Clone, Copy, Debug)]
pub struct Deposit {
    pub board: Address,
    pub bounty: Address,
    pub bounty_vault: Address,
    pub sponsor_vault: Identity,
    pub authority: Identity,
}

/// A request to close a bounty and fix its winner; the signer must be the
/// board authority.
#[derive(Clone, Copy, Debug)]
pub struct CloseBounty {
    pub board: Address,
    pub bounty: Address,
    pub authority: Identity,
}

/// A request to record a bounty's winner; the signer must be the board
/// authority.
#[derive(Clone, Copy, Debug)]
pub struct SetBountyHunter {
    pub board: Address,
    pub bounty: Address,
    pub authority: Identity,
}

/// A request to pay a closed bounty out to a destination account, retiring
/// the bounty. The signer's own identity is deliberately not checked: the
/// payout is gated by the bounty's recorded state alone.
#[derive(Clone, Copy, Debug)]
pub struct SendBounty {
    pub board: Address,
    pub bounty: Address,
    pub bounty_vault: Address,
    pub user_vault: Identity,
    pub board_authority: Identity,
    pub authority: Identity,
}

/// The persistent state: boards, bounties, their escrow vaults, and the
/// ordinary token accounts deposits come from and payouts go to. All
/// fields are private: the only writes are the authorization-gated
/// operations below.
pub struct Ledger {
    boards: HashMap<u64, Board>,
    board_vaults: HashMap<u64, Vault>,
    bounties: HashMap<u64, Bounty>,
    bounty_vaults: HashMap<u64, Vault>,
    token_accounts: HashMap<u64, TokenAccount>,
}

impl Ledger {
    /// The board records, keyed by packed board key.
    pub closed spec fn boards(&self) -> Map<u64, Board> {
        self.boards@
    }

    /// The boards' own (reserved) vaults, keyed like the boards.
    pub closed spec fn board_vaults(&self) -> Map<u64, Vault> {
        self.board_vaults@
    }

    /// The bounty records, keyed by packed bounty key.
    pub closed spec fn bounties(&self) -> Map<u64, Bounty> {
        self.bounties@
    }

    /// The bounties' escrow vaults, keyed like the bounties.
    pub closed spec fn bounty_vaults(&self) -> Map<u64, Vault> {
        self.bounty_vaults@
    }

    /// The caller-owned token accounts, keyed by the owning identity's key.
    pub closed spec fn token_accounts(&self) -> Map<u64, TokenAccount> {
        self.token_accounts@
    }

    /// Well-formedness: every record sits at the key derived from its own
    /// identifiers, every entity has exactly one vault, every vault is
    /// spendable only by its owning board's derived address and holds that
    /// board's accepted asset, and no bounty outlives its board's creation.
    pub open spec fn wf(&self) -> bool {
        &&& forall|k: u64| #[trigger]
            self.boards().contains_key(k) ==> {
                let b = self.boards()[k];
                &&& spec_board_key(b.board_id) == k
                &&& b.board_bump == spec_salt(spec_board_address(b.board_id))
                &&& b.board_vault_bump == spec_salt(spec_board_vault_address(b.board_id))
            }
        &&& self.board_vaults().dom() == self.boards().dom()
        &&& forall|k: u64| #[trigger]
            self.boards().contains_key(k) ==> {
                let b = self.boards()[k];
                let v = self.board_vaults()[k];
                &&& v.owner == spec_board_address(b.board_id)
                &&& v.mint == b.accepted_mint
            }
        &&& forall|k: u64| #[trigger]
            self.bounties().contains_key(k) ==> {
                let y = self.bounties()[k];
                &&& spec_bounty_key(y.board_id, y.bounty_id) == k
                &&& y.bounty_bump == spec_salt(spec_bounty_address(y.board_id, y.bounty_id))
                &&& y.bounty_vault_bump == spec_salt(
                    spec_bounty_vault_address(y.board_id, y.bounty_id),
                )
                &&& self.boards().contains_key(spec_board_key(y.board_id))
            }
        &&& self.bounty_vaults().dom() == self.bounties().dom()
        &&& forall|k: u64| #[trigger]
            self.bounties().contains_key(k) ==> {
                let y = self.bounties()[k];
                let v = self.bounty_vaults()[k];
                &&& v.owner == spec_board_address(y.board_id)
                &&& v.mint == self.boards()[spec_board_key(y.board_id)].accepted_mint
            }
    }

    /// An empty ledger: no boards, no bounties, no accounts.
    pub fn new() -> (r: Ledger)
        ensures
            r.wf(),
            r.boards() == Map::<u64, Board>::empty(),
            r.board_vaults() == Map::<u64, Vault>::empty(),
            r.bounties() == Map::<u64, Bounty>::empty(),
            r.bounty_vaults() == Map::<u64, Vault>::empty(),
            r.token_accounts() == Map::<u64, TokenAccount>::empty(),
    {
        let r = Ledger {
            boards: HashMap::new(),
            board_vaults: HashMap::new(),
            bounties: HashMap::new(),
            bounty_vaults: HashMap::new(),
            token_accounts: HashMap::new(),
        };
        proof {
            assert(r.board_vaults().dom() =~= r.boards().dom());
            assert(r.bounty_vaults().dom() =~= r.bounties().dom());
        }
        r
    }
}

impl Ledger {
    /// Reads the board record for `board_id`, if one exists.
    pub fn board(&self, board_id: u32) -> (r: Option<Board>)
        ensures
            match r {
                Some(b) => self.boards().contains_key(spec_board_key(board_id)) && b
                    == self.boards()[spec_board_key(board_id)],
                None => !self.boards().contains_key(spec_board_key(board_id)),
            },
    {
        match self.boards.get(&(board_id as u64)) {
            Some(b) => Some(*b),
            None => None,
        }
    }

    /// Reads the bounty record for `(board_id, bounty_id)`, if one exists.
    pub fn bounty(&self, board_id: u32, bounty_id: u32) -> (r: Option<&Bounty>)
        ensures
            match r {
                Some(y) => self.bounties().contains_key(spec_bounty_key(board_id, bounty_id))
                    && *y == self.bounties()[spec_bounty_key(board_id, bounty_id)],
                None => !self.bounties().contains_key(spec_bounty_key(board_id, bounty_id)),
            },
    {
        self.bounties.get(&bounty_key(board_id, bounty_id))
    }

    /// Reads the board's own vault, if the board exists.
    pub fn board_vault(&self, board_id: u32) -> (r: Option<Vault>)
        ensures
            match r {
                Some(v) => self.board_vaults().contains_key(spec_board_key(board_id)) && v
                    == self.board_vaults()[spec_board_key(board_id)],
                None => !self.board_vaults().contains_key(spec_board_key(board_id)),
            },
    {
        match self.board_vaults.get(&(board_id as u64)) {
            Some(v) => Some(*v),
            None => None,
        }
    }

    /// Reads the bounty's escrow vault, if the bounty exists.
    pub fn bounty_vault(&self, board_id: u32, bounty_id: u32) -> (r: Option<Vault>)
        ensures
            match r {
                Some(v) => self.bounty_vaults().contains_key(spec_bounty_key(board_id, bounty_id))
                    && v == self.bounty_vaults()[spec_bounty_key(board_id, bounty_id)],
                None => !self.bounty_vaults().contains_key(spec_bounty_key(board_id, bounty_id)),
            },
    {
        match self.bounty_vaults.get(&bounty_key(board_id, bounty_id)) {
            Some(v) => Some(*v),
            None => None,
        }
    }

    /// Reads a caller-owned token account, if one exists for the identity.
    pub fn token_account(&self, account: Identity) -> (r: Option<TokenAccount>)
        ensures
            match r {
                Some(a) => self.token_accounts().contains_key(account.key) && a
                    == self.token_accounts()[account.key],
                None => !self.token_accounts().contains_key(account.key),
            },
    {
        match self.token_accounts.get(&account.key) {
            Some(a) => Some(*a),
            None => None,
        }
    }
}

/// No record and no balance differs between the two states.
pub open spec fn state_unchanged(pre: Ledger, post: Ledger) -> bool {
    &&& post.boards() == pre.boards()
    &&& post.board_vaults() == pre.board_vaults()
    &&& post.bounties() == pre.bounties()
    &&& post.bounty_vaults() == pre.bounty_vaults()
    &&& post.token_accounts() == pre.token_accounts()
}

/// What `create_token_account` leaves behind and returns.
pub open spec fn create_token_account_post(
    pre: Ledger,
    post: Ledger,
    account: Identity,
    owner: Identity,
    mint: Identity,
    balance: u64,
    r: Result<(), LedgerError>,
) -> bool {
    if pre.token_accounts().contains_key(account.key) {
        r == Err::<(), LedgerError>(LedgerError::AlreadyInitialized) && state_unchanged(pre, post)
    } else {
        &&& r == Ok::<(), LedgerError>(())
        &&& post.token_accounts() == pre.token_accounts().insert(
            account.key,
            TokenAccount { owner, mint, balance },
        )
        &&& post.boards() == pre.boards()
        &&& post.board_vaults() == pre.board_vaults()
        &&& post.bounties() == pre.bounties()
        &&& post.bounty_vaults() == pre.bounty_vaults()
    }
}

/// Stands in for the surrounding token layer: gives a caller identity an
/// ordinary token account holding the given asset, so that deposits have a
/// source and payouts a destination. Not an escrow operation.
pub fn create_token_account(
    ledger: &mut Ledger,
    account: Identity,
    owner: Identity,
    mint: Identity,
    balance: u64,
) -> (r: Result<(), LedgerError>)
    requires
        old(ledger).wf(),
    ensures
        final(ledger).wf(),
        create_token_account_post(*old(ledger), *final(ledger), account, owner, mint, balance, r),
{
    if ledger.token_accounts.contains_key(&account.key) {
        return Err(LedgerError::AlreadyInitialized);
    }
    ledger.token_accounts.insert(account.key, TokenAccount { owner, mint, balance });
    Ok(())
}

/// What `initialize_board` leaves behind and returns.
pub open spec fn initialize_board_post(
    pre: Ledger,
    post: Ledger,
    req: InitializeBoard,
    board_id: u32,
    r: Result<Address, LedgerError>,
) -> bool {
    let board_addr = spec_board_address(board_id);
    let vault_addr = spec_board_vault_address(board_id);
    let bkey = spec_board_key(board_id);
    if req.board != board_addr || req.board_vault != vault_addr {
        r == Err::<Address, LedgerError>(LedgerError::AddressMismatch) && state_unchanged(pre, post)
    } else if pre.boards().contains_key(bkey) {
        // A create on a fully initialized board is refused outright: in
        // particular the recorded authority survives untouched.
        r == Err::<Address, LedgerError>(LedgerError::AlreadyInitialized) && state_unchanged(
            pre,
            post,
        )
    } else {
        &&& r == Ok::<Address, LedgerError>(board_addr)
        &&& post.boards() == pre.boards().insert(
            bkey,
            Board {
                authority: req.authority,
                board_id,
                accepted_mint: req.accepted_mint,
                board_bump: spec_salt(board_addr),
                board_vault_bump: spec_salt(vault_addr),
            },
        )
        &&& post.board_vaults() == pre.board_vaults().insert(
            bkey,
            Vault { owner: board_addr, mint: req.accepted_mint, balance: 0 },
        )
        &&& post.bounties() == pre.bounties()
        &&& post.bounty_vaults() == pre.bounty_vaults()
        &&& post.token_accounts() == pre.token_accounts()
    }
}

/// Creates the board for `board_id`, with the signer as its authority and
/// an empty board vault, and returns the board's address. Exactly one
/// board ever exists per identifier: a second create fails with
/// `AlreadyInitialized` and changes nothing.
pub fn initialize_board(ledger: &mut Ledger, req: &InitializeBoard, board_id: u32) -> (r: Result<
    Address,
    LedgerError,
>)
    requires
        old(ledger).wf(),
    ensures
        final(ledger).wf(),
        initialize_board_post(*old(ledger), *final(ledger), *req, board_id, r),
{
    let board_addr = derive_board_address(board_id);
    let vault_addr = derive_board_vault_address(&board_addr);
    if req.board != board_addr || req.board_vault != vault_addr {
        return Err(LedgerError::AddressMismatch);
    }
    let bkey: u64 = board_id as u64;
    if ledger.boards.contains_key(&bkey) {
        return Err(LedgerError::AlreadyInitialized);
    }
    let mut board = Board::default();
    board.initialize(
        req.authority,
        board_id,
        req.accepted_mint,
        derive_salt(&board_addr),
        derive_salt(&vault_addr),
    );
    ledger.boards.insert(bkey, board);
    ledger.board_vaults.insert(
        bkey,
        Vault { owner: board_addr, mint: req.accepted_mint, balance: 0 },
    );
    proof {
        assert(ledger.board_vaults().dom() =~= ledger.boards().dom());
        assert(ledger.bounty_vaults().dom() == ledger.bounties().dom());
    }
    Ok(board_addr)
}

/// What `set_authority` leaves behind and returns.
pub open spec fn set_authority_post(
    pre: Ledger,
    post: Ledger,
    req: SetBoardAuthority,
    board_id: u32,
    new_authority: Identity,
    r: Result<(), LedgerError>,
) -> bool {
    let bkey = spec_board_key(board_id);
    if req.board != spec_board_address(board_id) {
        r == Err::<(), LedgerError>(LedgerError::AddressMismatch) && state_unchanged(pre, post)
    } else if !pre.boards().contains_key(bkey) {
        r == Err::<(), LedgerError>(LedgerError::NotFound) && state_unchanged(pre, post)
    } else if pre.boards()[bkey].authority != req.authority {
        r == Err::<(), LedgerError>(LedgerError::Unauthorized) && state_unchanged(pre, post)
    } else {
        &&& r == Ok::<(), LedgerError>(())
        &&& post.boards() == pre.boards().insert(
            bkey,
            Board { authority: new_authority, ..pre.boards()[bkey] },
        )
        &&& post.board_vaults() == pre.board_vaults()
        &&& post.bounties() == pre.bounties()
        &&& post.bounty_vaults() == pre.bounty_vaults()
        &&& post.token_accounts() == pre.token_accounts()
    }
}

/// Transfers administration of the board to `new_authority`. Only the
/// currently recorded authority may sign this; any other signer fails with
/// `Unauthorized` and the stored authority is unchanged.
pub fn set_authority(
    ledger: &mut Ledger,
    req: &SetBoardAuthority,
    board_id: u32,
    new_authority: Identity,
) -> (r: Result<(), LedgerError>)
    requires
        old(ledger).wf(),
    ensures
        final(ledger).wf(),
        set_authority_post(*old(ledger), *final(ledger), *req, board_id, new_authority, r),
{
    let board_addr = derive_board_address(board_id);
    if req.board != board_addr {
        return Err(LedgerError::AddressMismatch);
    }
    let bkey: u64 = board_id as u64;
    let board = match ledger.boards.get(&bkey) {
        Some(b) => *b,
        None => { return Err(LedgerError::NotFound) },
    };
    if board.authority != req.authority {
        return Err(LedgerError::Unauthorized);
    }
    let mut updated = board;
    updated.set_authority(new_authority);
    ledger.boards.insert(bkey, updated);
    proof {
        assert(ledger.boards().dom() =~= old(ledger).boards().dom());
        assert(ledger.board_vaults().dom() == ledger.boards().dom());
    }
    Ok(())
}

/// What `initialize_bounty` leaves behind and returns.
pub open spec fn initialize_bounty_post(
    pre: Ledger,
    post: Ledger,
    req: InitializeBounty,
    board_id: u32,
    bounty_id: u32,
    r: Result<Address, LedgerError>,
) -> bool {
    let bounty_addr = spec_bounty_address(board_id, bounty_id);
    let vault_addr = spec_bounty_vault_address(board_id, bounty_id);
    let bkey = spec_board_key(board_id);
    let ykey = spec_bounty_key(board_id, bounty_id);
    if req.board != spec_board_address(board_id) || req.bounty != bounty_addr
        || req.bounty_vault != vault_addr {
        r == Err::<Address, LedgerError>(LedgerError::AddressMismatch) && state_unchanged(pre, post)
    } else if !pre.boards().contains_key(bkey) {
        r == Err::<Address, LedgerError>(LedgerError::NotFound) && state_unchanged(pre, post)
    } else if req.accepted_mint != pre.boards()[bkey].accepted_mint {
        r == Err::<Address, LedgerError>(LedgerError::AssetMismatch) && state_unchanged(pre, post)
    } else if pre.bounties().contains_key(ykey) {
        r == Err::<Address, LedgerError>(LedgerError::AlreadyInitialized) && state_unchanged(
            pre,
            post,
        )
    } else {
        &&& r == Ok::<Address, LedgerError>(bounty_addr)
        &&& post.bounties() == pre.bounties().insert(
            ykey,
            Bounty {
                board_id,
                bounty_id,
                bounty_bump: spec_salt(bounty_addr),
                bounty_vault_bump: spec_salt(vault_addr),
                bounty_hunter: None,
                is_closed: false,
            },
        )
        &&& post.bounty_vaults() == pre.bounty_vaults().insert(
            ykey,
            Vault {
                owner: spec_board_address(board_id),
                mint: pre.boards()[bkey].accepted_mint,
                balance: 0,
            },
        )
        &&& post.boards() == pre.boards()
        &&& post.board_vaults() == pre.board_vaults()
        &&& post.token_accounts() == pre.token_accounts()
    }
}

/// Creates the bounty for `(board_id, bounty_id)` under an existing board:
/// open, with no winner and an empty vault denominated in the board's
/// accepted asset. Any caller may create a bounty, but only once per
/// address pair.
pub fn initialize_bounty(
    ledger: &mut Ledger,
    req: &InitializeBounty,
    board_id: u32,
    bounty_id: u32,
) -> (r: Result<Address, LedgerError>)
    requires
        old(ledger).wf(),
    ensures
        final(ledger).wf(),
        initialize_bounty_post(*old(ledger), *final(ledger), *req, board_id, bounty_id, r),
{
    let board_addr = derive_board_address(board_id);
    let bounty_addr = derive_bounty_address(&board_addr, bounty_id);
    let vault_addr = derive_bounty_vault_address(&bounty_addr);
    if req.board != board_addr || req.bounty != bounty_addr || req.bounty_vault != vault_addr {
        return Err(LedgerError::AddressMismatch);
    }
    let bkey: u64 = board_id as u64;
    let board = match ledger.boards.get(&bkey) {
        Some(b) => *b,
        None => { return Err(LedgerError::NotFound) },
    };
    if req.accepted_mint != board.accepted_mint {
        return Err(LedgerError::AssetMismatch);
    }
    let ykey = bounty_key(board_id, bounty_id);
    if ledger.bounties.contains_key(&ykey) {
        return Err(LedgerError::AlreadyInitialized);
    }
    let mut bounty = Bounty::default();
    bounty.initialize(board_id, bounty_id, derive_salt(&bounty_addr), derive_salt(&vault_addr));
    ledger.bounties.insert(ykey, bounty);
    ledger.bounty_vaults.insert(
        ykey,
        Vault { owner: board_addr, mint: board.accepted_mint, balance: 0 },
    );
    proof {
        assert(ledger.bounty_vaults().dom() =~= ledger.bounties().dom());
        assert(ledger.board_vaults().dom() == ledger.boards().dom());
    }
    Ok(bounty_addr)
}

/// What `deposit` leaves behind and returns.
pub open spec fn deposit_post(
    pre: Ledger,
    post: Ledger,
    req: Deposit,
    board_id: u32,
    bounty_id: u32,
    amount: u64,
    r: Result<(), LedgerError>,
) -> bool {
    let bkey = spec_board_key(board_id);
    let ykey = spec_bounty_key(board_id, bounty_id);
    let skey = req.sponsor_vault.key;
    if req.board != spec_board_address(board_id) || req.bounty != spec_bounty_address(
        board_id,
        bounty_id,
    ) || req.bounty_vault != spec_bounty_vault_address(board_id, bounty_id) {
        r == Err::<(), LedgerError>(LedgerError::AddressMismatch) && state_unchanged(pre, post)
    } else if !pre.boards().contains_key(bkey) {
        r == Err::<(), LedgerError>(LedgerError::NotFound) && state_unchanged(pre, post)
    } else if !pre.bounties().contains_key(ykey) {
        r == Err::<(), LedgerError>(LedgerError::NotFound) && state_unchanged(pre, post)
    } else if !pre.token_accounts().contains_key(skey) {
        r == Err::<(), LedgerError>(LedgerError::NotFound) && state_unchanged(pre, post)
    } else if pre.token_accounts()[skey].mint != pre.boards()[bkey].accepted_mint {
        r == Err::<(), LedgerError>(LedgerError::AssetMismatch) && state_unchanged(pre, post)
    } else if pre.token_accounts()[skey].owner != req.authority {
        // Deposits draw on the signer's own account only.
        r == Err::<(), LedgerError>(LedgerError::Unauthorized) && state_unchanged(pre, post)
    } else if pre.token_accounts()[skey].balance < amount || pre.bounty_vaults()[ykey].balance
        + amount > u64::MAX {
        // The token layer refuses a transfer the balances cannot carry.
        r == Err::<(), LedgerError>(LedgerError::PreconditionFailed) && state_unchanged(pre, post)
    } else {
        let sponsor = pre.token_accounts()[skey];
        let vault = pre.bounty_vaults()[ykey];
        &&& r == Ok::<(), LedgerError>(())
        &&& post.token_accounts() == pre.token_accounts().insert(
            skey,
            TokenAccount { balance: (sponsor.balance - amount) as u64, ..sponsor },
        )
        &&& post.bounty_vaults() == pre.bounty_vaults().insert(
            ykey,
            Vault { balance: (vault.balance + amount) as u64, ..vault },
        )
        &&& post.boards() == pre.boards()
        &&& post.board_vaults() == pre.board_vaults()
        &&& post.bounties() == pre.bounties()
    }
}

/// Moves `amount` of the board's accepted asset from the signer's own
/// token account into the bounty's vault: the vault gains exactly `amount`
/// and the sponsor account loses exactly `amount`, so the pair conserves
/// the asset. Any caller may fund any bounty, open or closed, but only out
/// of an account they own.
pub fn deposit(
    ledger: &mut Ledger,
    req: &Deposit,
    board_id: u32,
    bounty_id: u32,
    amount: u64,
) -> (r: Result<(), LedgerError>)
    requires
        old(ledger).wf(),
    ensures
        final(ledger).wf(),
        deposit_post(*old(ledger), *final(ledger), *req, board_id, bounty_id, amount, r),
{
    let board_addr = derive_board_address(board_id);
    let bounty_addr = derive_bounty_address(&board_addr, bounty_id);
    let vault_addr = derive_bounty_vault_address(&bounty_addr);
    if req.board != board_addr || req.bounty != bounty_addr || req.bounty_vault != vault_addr {
        return Err(LedgerError::AddressMismatch);
    }
    let bkey: u64 = board_id as u64;
    let board = match ledger.boards.get(&bkey) {
        Some(b) => *b,
        None => { return Err(LedgerError::NotFound) },
    };
    let ykey = bounty_key(board_id, bounty_id);
    if !ledger.bounties.contains_key(&ykey) {
        return Err(LedgerError::NotFound);
    }
    let sponsor = match ledger.token_accounts.get(&req.sponsor_vault.key) {
        Some(a) => *a,
        None => { return Err(LedgerError::NotFound) },
    };
    if sponsor.mint != board.accepted_mint {
        return Err(LedgerError::AssetMismatch);
    }
    if sponsor.owner != req.authority {
        return Err(LedgerError::Unauthorized);
    }
    let vault = match ledger.bounty_vaults.get(&ykey) {
        Some(v) => *v,
        None => unreached(),
    };
    if sponsor.balance < amount || amount > u64::MAX - vault.balance {
        return Err(LedgerError::PreconditionFailed);
    }
    ledger.token_accounts.insert(
        req.sponsor_vault.key,
        TokenAccount { balance: sponsor.balance - amount, ..sponsor },
    );
    ledger.bounty_vaults.insert(ykey, Vault { balance: vault.balance + amount, ..vault });
    proof {
        assert(ledger.bounty_vaults().dom() =~= old(ledger).bounty_vaults().dom());
        assert(ledger.board_vaults().dom() == ledger.boards().dom());
    }
    Ok(())
}

/// What `close_bounty` leaves behind and returns.
pub open spec fn close_bounty_post(
    pre: Ledger,
    post: Ledger,
    req: CloseBounty,
    board_id: u32,
    bounty_id: u32,
    bounty_hunter: Option<String>,
    r: Result<(), LedgerError>,
) -> bool {
    let bkey = spec_board_key(board_id);
    let ykey = spec_bounty_key(board_id, bounty_id);
    if req.board != spec_board_address(board_id) || req.bounty != spec_bounty_address(
        board_id,
        bounty_id,
    ) {
        r == Err::<(), LedgerError>(LedgerError::AddressMismatch) && state_unchanged(pre, post)
    } else if !pre.boards().contains_key(bkey) {
        r == Err::<(), LedgerError>(LedgerError::NotFound) && state_unchanged(pre, post)
    } else if !pre.bounties().contains_key(ykey) {
        r == Err::<(), LedgerError>(LedgerError::NotFound) && state_unchanged(pre, post)
    } else if pre.boards()[bkey].authority != req.authority {
        r == Err::<(), LedgerError>(LedgerError::Unauthorized) && state_unchanged(pre, post)
    } else {
        &&& r == Ok::<(), LedgerError>(())
        &&& post.bounties() == pre.bounties().insert(
            ykey,
            Bounty { bounty_hunter, is_closed: true, ..pre.bounties()[ykey] },
        )
        &&& post.boards() == pre.boards()
        &&& post.board_vaults() == pre.board_vaults()
        &&& post.bounty_vaults() == pre.bounty_vaults()
        &&& post.token_accounts() == pre.token_accounts()
    }
}

/// Marks the bounty closed and fixes its winner to exactly the given name
/// — or clears the winner when no name is given. Only the board authority
/// may sign. A second close while still closed is deliberately accepted
/// and overwrites the recorded winner; the flag itself never reverts.
pub fn close_bounty(
    ledger: &mut Ledger,
    req: &CloseBounty,
    board_id: u32,
    bounty_id: u32,
    bounty_hunter: Option<String>,
) -> (r: Result<(), LedgerError>)
    requires
        old(ledger).wf(),
    ensures
        final(ledger).wf(),
        close_bounty_post(
            *old(ledger),
            *final(ledger),
            *req,
            board_id,
            bounty_id,
            bounty_hunter,
            r,
        ),
{
    let board_addr = derive_board_address(board_id);
    let bounty_addr = derive_bounty_address(&board_addr, bounty_id);
    if req.board != board_addr || req.bounty != bounty_addr {
        return Err(LedgerError::AddressMismatch);
    }
    let bkey: u64 = board_id as u64;
    let board = match ledger.boards.get(&bkey) {
        Some(b) => *b,
        None => { return Err(LedgerError::NotFound) },
    };
    let ykey = bounty_key(board_id, bounty_id);
    if !ledger.bounties.contains_key(&ykey) {
        return Err(LedgerError::NotFound);
    }
    if board.authority != req.authority {
        return Err(LedgerError::Unauthorized);
    }
    let mut bounty = match ledger.bounties.remove(&ykey) {
        Some(b) => b,
        None => unreached(),
    };
    bounty.close(bounty_hunter);
    ledger.bounties.insert(ykey, bounty);
    proof {
        assert(ledger.bounties() =~= old(ledger).bounties().insert(
            spec_bounty_key(board_id, bounty_id),
            Bounty {
                bounty_hunter,
                is_closed: true,
                ..old(ledger).bounties()[spec_bounty_key(board_id, bounty_id)]
            },
        ));
        assert(ledger.bounties().dom() =~= old(ledger).bounties().dom());
        assert(ledger.board_vaults().dom() == ledger.boards().dom());
    }
    Ok(())
}

/// What `set_bounty_hunter` leaves behind and returns.
pub open spec fn set_bounty_hunter_post(
    pre: Ledger,
    post: Ledger,
    req: SetBountyHunter,
    board_id: u32,
    bounty_id: u32,
    bounty_hunter: String,
    r: Result<(), LedgerError>,
) -> bool {
    let bkey = spec_board_key(board_id);
    let ykey = spec_bounty_key(board_id, bounty_id);
    if req.board != spec_board_address(board_id) || req.bounty != spec_bounty_address(
        board_id,
        bounty_id,
    ) {
        r == Err::<(), LedgerError>(LedgerError::AddressMismatch) && state_unchanged(pre, post)
    } else if !pre.boards().contains_key(bkey) {
        r == Err::<(), LedgerError>(LedgerError::NotFound) && state_unchanged(pre, post)
    } else if !pre.bounties().contains_key(ykey) {
        r == Err::<(), LedgerError>(LedgerError::NotFound) && state_unchanged(pre, post)
    } else if pre.boards()[bkey].authority != req.authority {
        r == Err::<(), LedgerError>(LedgerError::Unauthorized) && state_unchanged(pre, post)
    } else {
        &&& r == Ok::<(), LedgerError>(())
        &&& post.bounties() == pre.bounties().insert(
            ykey,
            Bounty { bounty_hunter: Some(bounty_hunter), ..pre.bounties()[ykey] },
        )
        &&& post.boards() == pre.boards()
        &&& post.board_vaults() == pre.board_vaults()
        &&& post.bounty_vaults() == pre.bounty_vaults()
        &&& post.token_accounts() == pre.token_accounts()
    }
}

/// Records the winner of the bounty, overwriting any prior assignment and
/// leaving the closed flag alone. Only the board authority may sign.
/// Deliberately not gated on the bounty's state: the winner may be
/// rewritten until the payout.
pub fn set_bounty_hunter(
    ledger: &mut Ledger,
    req: &SetBountyHunter,
    board_id: u32,
    bounty_id: u32,
    bounty_hunter: String,
) -> (r: Result<(), LedgerError>)
    requires
        old(ledger).wf(),
    ensures
        final(ledger).wf(),
        set_bounty_hunter_post(
            *old(ledger),
            *final(ledger),
            *req,
            board_id,
            bounty_id,
            bounty_hunter,
            r,
        ),
{
    let board_addr = derive_board_address(board_id);
    let bounty_addr = derive_bounty_address(&board_addr, bounty_id);
    if req.board != board_addr || req.bounty != bounty_addr {
        return Err(LedgerError::AddressMismatch);
    }
    let bkey: u64 = board_id as u64;
    let board = match ledger.boards.get(&bkey) {
        Some(b) => *b,
        None => { return Err(LedgerError::NotFound) },
    };
    let ykey = bounty_key(board_id, bounty_id);
    if !ledger.bounties.contains_key(&ykey) {
        return Err(LedgerError::NotFound);
    }
    if board.authority != req.authority {
        return Err(LedgerError::Unauthorized);
    }
    let mut bounty = match ledger.bounties.remove(&ykey) {
        Some(b) => b,
        None => unreached(),
    };
    bounty.set_bounty_hunter(bounty_hunter);
    ledger.bounties.insert(ykey, bounty);
    proof {
        assert(ledger.bounties() =~= old(ledger).bounties().insert(
            spec_bounty_key(board_id, bounty_id),
            Bounty {
                bounty_hunter: Some(bounty_hunter),
                ..old(ledger).bounties()[spec_bounty_key(board_id, bounty_id)]
            },
        ));
        assert(ledger.bounties().dom() =~= old(ledger).bounties().dom());
        assert(ledger.board_vaults().dom() == ledger.boards().dom());
    }
    Ok(())
}

/// The recorded winner equals the presented name exactly, character for
/// character; an unassigned winner matches nothing.
pub open spec fn hunter_matches(b: Bounty, name: String) -> bool {
    match b.bounty_hunter {
        Some(h) => h@ == name@,
        None => false,
    }
}

/// The signing capability an entity holds over its own vault: its derived
/// address plus the stored salt. Minted only inside the ledger's
/// operations, after the derivation has been confirmed, and never handed
/// to callers.
struct SigningCapability {
    address: Address,
    salt: u8,
}

/// The single path by which funds leave an escrow vault: an atomic
/// full-balance transfer authorized by the vault's owning entity — its
/// signing capability — not by any caller-held key.
fn transfer_all(
    vault: &Vault,
    destination: &TokenAccount,
    authority: &SigningCapability,
) -> (credited: TokenAccount)
    requires
        authority.address == vault.owner,
        destination.balance + vault.balance <= u64::MAX,
    ensures
        credited == (TokenAccount {
            balance: (destination.balance + vault.balance) as u64,
            ..*destination
        }),
{
    TokenAccount { balance: destination.balance + vault.balance, ..*destination }
}

/// What `send_bounty` leaves behind and returns.
pub open spec fn send_bounty_post(
    pre: Ledger,
    post: Ledger,
    req: SendBounty,
    board_id: u32,
    bounty_id: u32,
    bounty_hunter: String,
    r: Result<(), LedgerError>,
) -> bool {
    let bkey = spec_board_key(board_id);
    let ykey = spec_bounty_key(board_id, bounty_id);
    let ukey = req.user_vault.key;
    if req.board != spec_board_address(board_id) || req.bounty != spec_bounty_address(
        board_id,
        bounty_id,
    ) || req.bounty_vault != spec_bounty_vault_address(board_id, bounty_id) {
        r == Err::<(), LedgerError>(LedgerError::AddressMismatch) && state_unchanged(pre, post)
    } else if !pre.boards().contains_key(bkey) {
        r == Err::<(), LedgerError>(LedgerError::NotFound) && state_unchanged(pre, post)
    } else if !pre.bounties().contains_key(ykey) {
        r == Err::<(), LedgerError>(LedgerError::NotFound) && state_unchanged(pre, post)
    } else if !pre.token_accounts().contains_key(ukey) {
        r == Err::<(), LedgerError>(LedgerError::NotFound) && state_unchanged(pre, post)
    } else if !(pre.bounties()[ykey].is_closed && hunter_matches(
        pre.bounties()[ykey],
        bounty_hunter,
    )) {
        // Payout is gated by recorded state alone: the bounty must already
        // be closed and the presented name must equal the recorded winner.
        r == Err::<(), LedgerError>(LedgerError::PreconditionFailed) && state_unchanged(pre, post)
    } else if pre.token_accounts()[ukey].mint != pre.boards()[bkey].accepted_mint {
        r == Err::<(), LedgerError>(LedgerError::AssetMismatch) && state_unchanged(pre, post)
    } else if req.board_authority != pre.boards()[bkey].authority {
        // The storage refund must go to the board's recorded authority.
        r == Err::<(), LedgerError>(LedgerError::Unauthorized) && state_unchanged(pre, post)
    } else if pre.token_accounts()[ukey].balance + pre.bounty_vaults()[ykey].balance > u64::MAX {
        r == Err::<(), LedgerError>(LedgerError::PreconditionFailed) && state_unchanged(pre, post)
    } else {
        let user = pre.token_accounts()[ukey];
        let vault = pre.bounty_vaults()[ykey];
        &&& r == Ok::<(), LedgerError>(())
        &&& post.token_accounts() == pre.token_accounts().insert(
            ukey,
            TokenAccount { balance: (user.balance + vault.balance) as u64, ..user },
        )
        &&& post.bounties() == pre.bounties().remove(ykey)
        &&& post.bounty_vaults() == pre.bounty_vaults().remove(ykey)
        &&& post.boards() == pre.boards()
        &&& post.board_vaults() == pre.board_vaults()
    }
}

/// Pays a closed bounty out: moves the vault's entire balance to the
/// destination account, then retires the bounty record and its vault in
/// the same atomic step — afterwards the bounty's address no longer
/// resolves, and a replay fails with `NotFound`. The caller's own identity
/// is deliberately never compared against anything: what gates the payout
/// is the recorded state, the destination's asset type, and the rule that
/// the storage refund belongs to the board's recorded authority — so
/// anyone who knows the recorded name can trigger the payout and pick its
/// destination.
pub fn send_bounty(
    ledger: &mut Ledger,
    req: &SendBounty,
    board_id: u32,
    bounty_id: u32,
    bounty_hunter: String,
) -> (r: Result<(), LedgerError>)
    requires
        old(ledger).wf(),
    ensures
        final(ledger).wf(),
        send_bounty_post(
            *old(ledger),
            *final(ledger),
            *req,
            board_id,
            bounty_id,
            bounty_hunter,
            r,
        ),
{
    let board_addr = derive_board_address(board_id);
    let bounty_addr = derive_bounty_address(&board_addr, bounty_id);
    let vault_addr = derive_bounty_vault_address(&bounty_addr);
    if req.board != board_addr || req.bounty != bounty_addr || req.bounty_vault != vault_addr {
        return Err(LedgerError::AddressMismatch);
    }
    let bkey: u64 = board_id as u64;
    let board = match ledger.boards.get(&bkey) {
        Some(b) => *b,
        None => { return Err(LedgerError::NotFound) },
    };
    let ykey = bounty_key(board_id, bounty_id);
    let (is_closed, name_matches) = match ledger.bounties.get(&ykey) {
        Some(y) => {
            let matched = match &y.bounty_hunter {
                Some(h) => *h == bounty_hunter,
                None => false,
            };
            (y.is_closed, matched)
        },
        None => { return Err(LedgerError::NotFound) },
    };
    let user = match ledger.token_accounts.get(&req.user_vault.key) {
        Some(a) => *a,
        None => { return Err(LedgerError::NotFound) },
    };
    if !(is_closed && name_matches) {
        return Err(LedgerError::PreconditionFailed);
    }
    if user.mint != board.accepted_mint {
        return Err(LedgerError::AssetMismatch);
    }
    if req.board_authority != board.authority {
        return Err(LedgerError::Unauthorized);
    }
    let vault = match ledger.bounty_vaults.get(&ykey) {
        Some(v) => *v,
        None => unreached(),
    };
    if vault.balance > u64::MAX - user.balance {
        return Err(LedgerError::PreconditionFailed);
    }
    proof {
        let y = ledger.bounties()[spec_bounty_key(board_id, bounty_id)];
        lemma_bounty_key_injective(y.board_id, y.bounty_id, board_id, bounty_id);
    }
    let authority = SigningCapability { address: board_addr, salt: board.board_bump };
    let credited = transfer_all(&vault, &user, &authority);
    ledger.token_accounts.insert(req.user_vault.key, credited);
    ledger.bounty_vaults.remove(&ykey);
    ledger.bounties.remove(&ykey);
    proof {
        assert(ledger.bounty_vaults().dom() =~= ledger.bounties().dom());
        assert(ledger.board_vaults().dom() == ledger.boards().dom());
    }
    Ok(())
}

} // verus!
