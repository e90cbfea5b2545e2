use bounty_board::addr::Address;
use bounty_board::addr::derive_board_address;
use bounty_board::addr::derive_board_vault_address;
use bounty_board::addr::derive_bounty_address;
use bounty_board::addr::derive_bounty_vault_address;
use bounty_board::error::LedgerError;
use bounty_board::ledger::CloseBounty;
use bounty_board::ledger::Deposit;
use bounty_board::ledger::InitializeBoard;
use bounty_board::ledger::InitializeBounty;
use bounty_board::ledger::Ledger;
use bounty_board::ledger::SendBounty;
use bounty_board::ledger::SetBoardAuthority;
use bounty_board::ledger::SetBountyHunter;
use bounty_board::ledger::close_bounty;
use bounty_board::ledger::create_token_account;
use bounty_board::ledger::deposit;
use bounty_board::ledger::initialize_board;
use bounty_board::ledger::initialize_bounty;
use bounty_board::ledger::send_bounty;
use bounty_board::ledger::set_authority;
use bounty_board::ledger::set_bounty_hunter;
use bounty_board::state::Identity;

fn id(key: u64) -> Identity {
    Identity { key }
}

fn usdc() -> Identity {
    id(840)
}

fn new_board(ledger: &mut Ledger, board_id: u32, authority: Identity, mint: Identity) -> Address {
    let board = derive_board_address(board_id);
    let req = InitializeBoard {
        board,
        accepted_mint: mint,
        board_vault: derive_board_vault_address(&board),
        authority,
    };
    initialize_board(ledger, &req, board_id).unwrap()
}

fn new_bounty(ledger: &mut Ledger, board_id: u32, bounty_id: u32, mint: Identity) -> Address {
    let board = derive_board_address(board_id);
    let bounty = derive_bounty_address(&board, bounty_id);
    let req = InitializeBounty {
        board,
        bounty,
        accepted_mint: mint,
        bounty_vault: derive_bounty_vault_address(&bounty),
        authority: id(999),
    };
    initialize_bounty(ledger, &req, board_id, bounty_id).unwrap()
}

fn deposit_req(board_id: u32, bounty_id: u32, sponsor_vault: Identity, signer: Identity) -> Deposit {
    let board = derive_board_address(board_id);
    let bounty = derive_bounty_address(&board, bounty_id);
    Deposit {
        board,
        bounty,
        bounty_vault: derive_bounty_vault_address(&bounty),
        sponsor_vault,
        authority: signer,
    }
}

fn close_req(board_id: u32, bounty_id: u32, signer: Identity) -> CloseBounty {
    let board = derive_board_address(board_id);
    CloseBounty {
        board,
        bounty: derive_bounty_address(&board, bounty_id),
        authority: signer,
    }
}

fn send_req(
    board_id: u32,
    bounty_id: u32,
    user_vault: Identity,
    board_authority: Identity,
    signer: Identity,
) -> SendBounty {
    let board = derive_board_address(board_id);
    let bounty = derive_bounty_address(&board, bounty_id);
    SendBounty {
        board,
        bounty,
        bounty_vault: derive_bounty_vault_address(&bounty),
        user_vault,
        board_authority,
        authority: signer,
    }
}

#[test]
fn initialize_board_creates_record() {
    let mut ledger = Ledger::new();
    let authority = id(1);
    let addr = new_board(&mut ledger, 7, authority, usdc());
    assert_eq!(addr, Address::Board { board_id: 7 });
    let board = ledger.board(7).unwrap();
    assert_eq!(board.authority, authority);
    assert_eq!(board.board_id, 7);
    assert_eq!(board.accepted_mint, usdc());
    assert_eq!(board.board_bump, 22);
    assert_eq!(board.board_vault_bump, 23);
    let vault = ledger.board_vault(7).unwrap();
    assert_eq!(vault.balance, 0);
    assert_eq!(vault.mint, usdc());
    assert_eq!(vault.owner, addr);
}

#[test]
fn reinitialize_board_rejected_and_authority_kept() {
    let mut ledger = Ledger::new();
    new_board(&mut ledger, 7, id(1), usdc());
    let board = derive_board_address(7);
    let hijack = InitializeBoard {
        board,
        accepted_mint: id(555),
        board_vault: derive_board_vault_address(&board),
        authority: id(666),
    };
    let r = initialize_board(&mut ledger, &hijack, 7);
    assert_eq!(r, Err(LedgerError::AlreadyInitialized));
    let kept = ledger.board(7).unwrap();
    assert_eq!(kept.authority, id(1));
    assert_eq!(kept.accepted_mint, usdc());
}

#[test]
fn initialize_board_address_mismatch() {
    let mut ledger = Ledger::new();
    let wrong = InitializeBoard {
        board: derive_board_address(8),
        accepted_mint: usdc(),
        board_vault: derive_board_vault_address(&derive_board_address(8)),
        authority: id(1),
    };
    let r = initialize_board(&mut ledger, &wrong, 7);
    assert_eq!(r, Err(LedgerError::AddressMismatch));
    assert!(ledger.board(7).is_none());
    assert!(ledger.board(8).is_none());
}

#[test]
fn set_authority_requires_current_authority() {
    let mut ledger = Ledger::new();
    new_board(&mut ledger, 7, id(1), usdc());
    let board = derive_board_address(7);

    let intruder = SetBoardAuthority { board, authority: id(2) };
    let r = set_authority(&mut ledger, &intruder, 7, id(2));
    assert_eq!(r, Err(LedgerError::Unauthorized));
    assert_eq!(ledger.board(7).unwrap().authority, id(1));

    let legit = SetBoardAuthority { board, authority: id(1) };
    assert_eq!(set_authority(&mut ledger, &legit, 7, id(2)), Ok(()));
    assert_eq!(ledger.board(7).unwrap().authority, id(2));

    // The old authority has lost its power.
    let stale = SetBoardAuthority { board, authority: id(1) };
    assert_eq!(
        set_authority(&mut ledger, &stale, 7, id(1)),
        Err(LedgerError::Unauthorized)
    );
}

#[test]
fn set_authority_missing_board_not_found() {
    let mut ledger = Ledger::new();
    let board = derive_board_address(7);
    let req = SetBoardAuthority { board, authority: id(1) };
    assert_eq!(
        set_authority(&mut ledger, &req, 7, id(2)),
        Err(LedgerError::NotFound)
    );
}

#[test]
fn initialize_bounty_creates_open_record() {
    let mut ledger = Ledger::new();
    new_board(&mut ledger, 7, id(1), usdc());
    let addr = new_bounty(&mut ledger, 7, 3, usdc());
    assert_eq!(
        addr,
        Address::Bounty { board_id: 7, bounty_id: 3 }
    );
    let bounty = ledger.bounty(7, 3).unwrap();
    assert_eq!(bounty.board_id, 7);
    assert_eq!(bounty.bounty_id, 3);
    assert_eq!(bounty.bounty_hunter, None);
    assert!(!bounty.is_closed);
    assert_eq!(bounty.bounty_bump, 39);
    assert_eq!(bounty.bounty_vault_bump, 40);
    let vault = ledger.bounty_vault(7, 3).unwrap();
    assert_eq!(vault.balance, 0);
    assert_eq!(vault.mint, usdc());
    assert_eq!(vault.owner, derive_board_address(7));
}

#[test]
fn initialize_bounty_guards() {
    let mut ledger = Ledger::new();
    let board = derive_board_address(7);
    let bounty = derive_bounty_address(&board, 3);
    let req = InitializeBounty {
        board,
        bounty,
        accepted_mint: usdc(),
        bounty_vault: derive_bounty_vault_address(&bounty),
        authority: id(9),
    };
    // The board must already exist.
    assert_eq!(
        initialize_bounty(&mut ledger, &req, 7, 3),
        Err(LedgerError::NotFound)
    );
    new_board(&mut ledger, 7, id(1), usdc());
    // The bounty vault must denominate in the board's accepted asset.
    let wrong_mint = InitializeBounty { accepted_mint: id(555), ..req };
    assert_eq!(
        initialize_bounty(&mut ledger, &wrong_mint, 7, 3),
        Err(LedgerError::AssetMismatch)
    );
    assert_eq!(initialize_bounty(&mut ledger, &req, 7, 3), Ok(bounty));
    // Exactly one bounty per address pair.
    assert_eq!(
        initialize_bounty(&mut ledger, &req, 7, 3),
        Err(LedgerError::AlreadyInitialized)
    );
}

#[test]
fn deposit_moves_exact_amount_and_conserves() {
    let mut ledger = Ledger::new();
    new_board(&mut ledger, 7, id(1), usdc());
    new_bounty(&mut ledger, 7, 3, usdc());
    let sponsor = id(50);
    create_token_account(&mut ledger, sponsor, sponsor, usdc(), 5_000_000).unwrap();

    let req = deposit_req(7, 3, sponsor, sponsor);
    assert_eq!(deposit(&mut ledger, &req, 7, 3, 1_000_000), Ok(()));
    let sponsor_after = ledger.token_account(sponsor).unwrap();
    let vault_after = ledger.bounty_vault(7, 3).unwrap();
    assert_eq!(sponsor_after.balance, 4_000_000);
    assert_eq!(vault_after.balance, 1_000_000);
    assert_eq!(sponsor_after.balance + vault_after.balance, 5_000_000);

    assert_eq!(deposit(&mut ledger, &req, 7, 3, 4_000_000), Ok(()));
    assert_eq!(ledger.token_account(sponsor).unwrap().balance, 0);
    assert_eq!(ledger.bounty_vault(7, 3).unwrap().balance, 5_000_000);
}

#[test]
fn deposit_guards() {
    let mut ledger = Ledger::new();
    new_board(&mut ledger, 7, id(1), usdc());
    new_bounty(&mut ledger, 7, 3, usdc());
    let sponsor = id(50);
    let req = deposit_req(7, 3, sponsor, sponsor);
    // The sponsor's account must exist.
    assert_eq!(
        deposit(&mut ledger, &req, 7, 3, 100),
        Err(LedgerError::NotFound)
    );
    create_token_account(&mut ledger, sponsor, sponsor, usdc(), 500).unwrap();
    // More than the sponsor holds.
    assert_eq!(
        deposit(&mut ledger, &req, 7, 3, 501),
        Err(LedgerError::PreconditionFailed)
    );
    // Only the owner signs for the sponsor account.
    let not_owner = deposit_req(7, 3, sponsor, id(51));
    assert_eq!(
        deposit(&mut ledger, &not_owner, 7, 3, 100),
        Err(LedgerError::Unauthorized)
    );
    // A sponsor account of another asset type.
    let other = id(60);
    create_token_account(&mut ledger, other, other, id(555), 500).unwrap();
    let wrong_mint = deposit_req(7, 3, other, other);
    assert_eq!(
        deposit(&mut ledger, &wrong_mint, 7, 3, 100),
        Err(LedgerError::AssetMismatch)
    );
    // A supplied address that does not match the derivation.
    let mut wrong_addr = deposit_req(7, 3, sponsor, sponsor);
    wrong_addr.bounty_vault = derive_board_address(7);
    assert_eq!(
        deposit(&mut ledger, &wrong_addr, 7, 3, 100),
        Err(LedgerError::AddressMismatch)
    );
    // Nothing moved in any failed attempt.
    assert_eq!(ledger.token_account(sponsor).unwrap().balance, 500);
    assert_eq!(ledger.bounty_vault(7, 3).unwrap().balance, 0);
}

#[test]
fn close_bounty_sets_winner_and_flag() {
    let mut ledger = Ledger::new();
    new_board(&mut ledger, 7, id(1), usdc());
    new_bounty(&mut ledger, 7, 3, usdc());

    let intruder = close_req(7, 3, id(2));
    assert_eq!(
        close_bounty(&mut ledger, &intruder, 7, 3, Some("mallory".to_string())),
        Err(LedgerError::Unauthorized)
    );
    assert!(!ledger.bounty(7, 3).unwrap().is_closed);

    let req = close_req(7, 3, id(1));
    assert_eq!(
        close_bounty(&mut ledger, &req, 7, 3, Some("alice".to_string())),
        Ok(())
    );
    let bounty = ledger.bounty(7, 3).unwrap();
    assert!(bounty.is_closed);
    assert_eq!(bounty.bounty_hunter, Some("alice".to_string()));

    // A second close is accepted and overwrites the winner.
    assert_eq!(
        close_bounty(&mut ledger, &req, 7, 3, Some("bob".to_string())),
        Ok(())
    );
    assert_eq!(
        ledger.bounty(7, 3).unwrap().bounty_hunter,
        Some("bob".to_string())
    );
    // Closing with no name clears the winner but never reopens.
    assert_eq!(close_bounty(&mut ledger, &req, 7, 3, None), Ok(()));
    let cleared = ledger.bounty(7, 3).unwrap();
    assert_eq!(cleared.bounty_hunter, None);
    assert!(cleared.is_closed);
}

#[test]
fn set_bounty_hunter_overwrites_until_payout() {
    let mut ledger = Ledger::new();
    new_board(&mut ledger, 7, id(1), usdc());
    new_bounty(&mut ledger, 7, 3, usdc());
    let board = derive_board_address(7);
    let req = SetBountyHunter {
        board,
        bounty: derive_bounty_address(&board, 3),
        authority: id(1),
    };
    assert_eq!(
        set_bounty_hunter(&mut ledger, &req, 7, 3, "carol".to_string()),
        Ok(())
    );
    let bounty = ledger.bounty(7, 3).unwrap();
    assert_eq!(bounty.bounty_hunter, Some("carol".to_string()));
    assert!(!bounty.is_closed);

    let intruder = SetBountyHunter { authority: id(2), ..req };
    assert_eq!(
        set_bounty_hunter(&mut ledger, &intruder, 7, 3, "mallory".to_string()),
        Err(LedgerError::Unauthorized)
    );
    assert_eq!(
        ledger.bounty(7, 3).unwrap().bounty_hunter,
        Some("carol".to_string())
    );

    // Reassignment stays possible after a close, until the payout.
    close_bounty(&mut ledger, &close_req(7, 3, id(1)), 7, 3, Some("alice".to_string())).unwrap();
    assert_eq!(
        set_bounty_hunter(&mut ledger, &req, 7, 3, "dave".to_string()),
        Ok(())
    );
    let after = ledger.bounty(7, 3).unwrap();
    assert_eq!(after.bounty_hunter, Some("dave".to_string()));
    assert!(after.is_closed);
}

#[test]
fn pay_bounty_full_scenario() {
    let mut ledger = Ledger::new();
    let authority = id(1);
    new_board(&mut ledger, 7, authority, usdc());
    new_bounty(&mut ledger, 7, 3, usdc());
    let sponsor = id(50);
    create_token_account(&mut ledger, sponsor, sponsor, usdc(), 1_000_000).unwrap();
    deposit(&mut ledger, &deposit_req(7, 3, sponsor, sponsor), 7, 3, 1_000_000).unwrap();
    close_bounty(
        &mut ledger,
        &close_req(7, 3, authority),
        7,
        3,
        Some("alice".to_string()),
    )
    .unwrap();

    let alice_vault = id(70);
    create_token_account(&mut ledger, alice_vault, id(71), usdc(), 0).unwrap();
    let req = send_req(7, 3, alice_vault, authority, id(999));
    assert_eq!(send_bounty(&mut ledger, &req, 7, 3, "alice".to_string()), Ok(()));

    // The whole balance reached the destination, and the bounty and its
    // vault ceased to exist.
    assert_eq!(ledger.token_account(alice_vault).unwrap().balance, 1_000_000);
    assert!(ledger.bounty(7, 3).is_none());
    assert!(ledger.bounty_vault(7, 3).is_none());
    // The board itself survives.
    assert!(ledger.board(7).is_some());

    // A replay of the same payout now fails: the address no longer
    // resolves to a live record.
    assert_eq!(
        send_bounty(&mut ledger, &req, 7, 3, "alice".to_string()),
        Err(LedgerError::NotFound)
    );
}

#[test]
fn pay_before_close_fails() {
    let mut ledger = Ledger::new();
    new_board(&mut ledger, 7, id(1), usdc());
    new_bounty(&mut ledger, 7, 3, usdc());
    let dest = id(70);
    create_token_account(&mut ledger, dest, dest, usdc(), 0).unwrap();
    let req = send_req(7, 3, dest, id(1), id(999));
    assert_eq!(
        send_bounty(&mut ledger, &req, 7, 3, "bob".to_string()),
        Err(LedgerError::PreconditionFailed)
    );
    assert!(ledger.bounty(7, 3).is_some());
}

#[test]
fn pay_demands_byte_exact_name() {
    let mut ledger = Ledger::new();
    new_board(&mut ledger, 7, id(1), usdc());
    new_bounty(&mut ledger, 7, 3, usdc());
    close_bounty(
        &mut ledger,
        &close_req(7, 3, id(1)),
        7,
        3,
        Some("alice".to_string()),
    )
    .unwrap();
    let dest = id(70);
    create_token_account(&mut ledger, dest, dest, usdc(), 0).unwrap();
    let req = send_req(7, 3, dest, id(1), id(999));
    assert_eq!(
        send_bounty(&mut ledger, &req, 7, 3, "bob".to_string()),
        Err(LedgerError::PreconditionFailed)
    );
    assert_eq!(
        send_bounty(&mut ledger, &req, 7, 3, "Alice".to_string()),
        Err(LedgerError::PreconditionFailed)
    );
    assert_eq!(send_bounty(&mut ledger, &req, 7, 3, "alice".to_string()), Ok(()));
}

#[test]
fn pay_with_no_winner_fails() {
    let mut ledger = Ledger::new();
    new_board(&mut ledger, 7, id(1), usdc());
    new_bounty(&mut ledger, 7, 3, usdc());
    close_bounty(&mut ledger, &close_req(7, 3, id(1)), 7, 3, None).unwrap();
    let dest = id(70);
    create_token_account(&mut ledger, dest, dest, usdc(), 0).unwrap();
    let req = send_req(7, 3, dest, id(1), id(999));
    assert_eq!(
        send_bounty(&mut ledger, &req, 7, 3, "alice".to_string()),
        Err(LedgerError::PreconditionFailed)
    );
}

#[test]
fn pay_destination_and_refund_guards() {
    let mut ledger = Ledger::new();
    new_board(&mut ledger, 7, id(1), usdc());
    new_bounty(&mut ledger, 7, 3, usdc());
    close_bounty(
        &mut ledger,
        &close_req(7, 3, id(1)),
        7,
        3,
        Some("alice".to_string()),
    )
    .unwrap();
    // A destination of another asset type.
    let wrong_dest = id(70);
    create_token_account(&mut ledger, wrong_dest, wrong_dest, id(555), 0).unwrap();
    let req = send_req(7, 3, wrong_dest, id(1), id(999));
    assert_eq!(
        send_bounty(&mut ledger, &req, 7, 3, "alice".to_string()),
        Err(LedgerError::AssetMismatch)
    );
    // The storage refund must name the board's recorded authority.
    let dest = id(71);
    create_token_account(&mut ledger, dest, dest, usdc(), 0).unwrap();
    let wrong_refund = send_req(7, 3, dest, id(2), id(999));
    assert_eq!(
        send_bounty(&mut ledger, &wrong_refund, 7, 3, "alice".to_string()),
        Err(LedgerError::Unauthorized)
    );
    // Nothing was retired by the failed attempts.
    assert!(ledger.bounty(7, 3).is_some());
    assert!(ledger.bounty_vault(7, 3).is_some());
}

#[test]
fn token_account_creation_is_once_per_identity() {
    let mut ledger = Ledger::new();
    let acct = id(50);
    assert_eq!(
        create_token_account(&mut ledger, acct, acct, usdc(), 10),
        Ok(())
    );
    assert_eq!(
        create_token_account(&mut ledger, acct, acct, usdc(), 10),
        Err(LedgerError::AlreadyInitialized)
    );
}
