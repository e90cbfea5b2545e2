use bounty_board::addr::Address;
use bounty_board::addr::derive_board_address;
use bounty_board::addr::derive_board_vault_address;
use bounty_board::addr::derive_bounty_address;
use bounty_board::addr::derive_bounty_vault_address;
use bounty_board::addr::derive_salt;
use bounty_board::ledger::bounty_key;

#[test]
fn derivation_is_deterministic() {
    let once = derive_board_address(7);
    let twice = derive_board_address(7);
    assert_eq!(once, twice);
    assert_eq!(
        derive_bounty_address(&once, 3),
        derive_bounty_address(&twice, 3)
    );
    assert_eq!(
        derive_bounty_vault_address(&derive_bounty_address(&once, 3)),
        derive_bounty_vault_address(&derive_bounty_address(&twice, 3))
    );
}

#[test]
fn derivation_is_collision_free() {
    let board7 = derive_board_address(7);
    let board8 = derive_board_address(8);
    assert_ne!(board7, board8);
    assert_ne!(board7, derive_board_vault_address(&board7));
    assert_ne!(
        derive_bounty_address(&board7, 3),
        derive_bounty_address(&board7, 4)
    );
    assert_ne!(
        derive_bounty_address(&board7, 3),
        derive_bounty_address(&board8, 3)
    );
    assert_ne!(
        derive_bounty_address(&board7, 3),
        derive_bounty_vault_address(&derive_bounty_address(&board7, 3))
    );
}

#[test]
fn derivation_carries_identifiers() {
    assert_eq!(derive_board_address(7), Address::Board { board_id: 7 });
    assert_eq!(
        derive_bounty_address(&derive_board_address(7), 3),
        Address::Bounty {
            board_id: 7,
            bounty_id: 3
        }
    );
}

#[test]
fn salt_formula_exact_values() {
    let board = derive_board_address(7);
    let bounty = derive_bounty_address(&board, 3);
    assert_eq!(derive_salt(&board), 22);
    assert_eq!(derive_salt(&derive_board_vault_address(&board)), 23);
    assert_eq!(derive_salt(&bounty), 39);
    assert_eq!(derive_salt(&derive_bounty_vault_address(&bounty)), 40);
}

#[test]
fn bounty_key_packs_identifiers() {
    assert_eq!(bounty_key(7, 3), 7 * 0x1_0000_0000 + 3);
    assert_eq!(bounty_key(0, 0), 0);
    assert_ne!(bounty_key(0, 1), bounty_key(1, 0));
    assert_eq!(bounty_key(u32::MAX, u32::MAX), u64::MAX);
}
