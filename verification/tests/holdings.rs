use anchor_escrow::state::transfer;
use anchor_escrow::{Address, EscrowError, TokenAccount, TransferError};

fn address(byte: u8) -> Address {
    Address::new([byte; 32])
}

fn holding(mint: u8, owner: u8, amount: u64) -> TokenAccount {
    TokenAccount { mint: address(mint), owner: address(owner), amount }
}

#[test]
fn transfer_moves_the_amount() {
    let mut source = holding(1, 2, 10);
    let mut destination = holding(1, 3, 5);
    assert_eq!(transfer(&mut source, &mut destination, &address(2), &address(1), 4), Ok(()));
    assert_eq!(source, holding(1, 2, 6));
    assert_eq!(destination, holding(1, 3, 9));
}

#[test]
fn transfer_of_nothing_and_of_everything() {
    let mut source = holding(1, 2, 10);
    let mut destination = holding(1, 3, 5);
    assert_eq!(transfer(&mut source, &mut destination, &address(2), &address(1), 0), Ok(()));
    assert_eq!((source.amount, destination.amount), (10, 5));
    assert_eq!(transfer(&mut source, &mut destination, &address(2), &address(1), 10), Ok(()));
    assert_eq!((source.amount, destination.amount), (0, 15));
}

#[test]
fn transfer_of_more_than_is_held_is_refused() {
    let mut source = holding(1, 2, 10);
    let mut destination = holding(1, 3, 5);
    assert_eq!(
        transfer(&mut source, &mut destination, &address(2), &address(1), 11),
        Err(TransferError::InsufficientFunds)
    );
    assert_eq!((source, destination), (holding(1, 2, 10), holding(1, 3, 5)));
}

#[test]
fn transfer_between_assets_is_refused() {
    let mut source = holding(1, 2, 10);
    let mut destination = holding(9, 3, 5);
    assert_eq!(
        transfer(&mut source, &mut destination, &address(2), &address(1), 4),
        Err(TransferError::MintMismatch)
    );
    let mut destination = holding(1, 3, 5);
    assert_eq!(
        transfer(&mut source, &mut destination, &address(2), &address(9), 4),
        Err(TransferError::MintMismatch)
    );
    assert_eq!((source, destination), (holding(1, 2, 10), holding(1, 3, 5)));
}

#[test]
fn transfer_by_another_than_the_holder_is_refused() {
    let mut source = holding(1, 2, 10);
    let mut destination = holding(1, 3, 5);
    assert_eq!(
        transfer(&mut source, &mut destination, &address(3), &address(1), 4),
        Err(TransferError::OwnerMismatch)
    );
    assert_eq!((source, destination), (holding(1, 2, 10), holding(1, 3, 5)));
}

#[test]
fn transfer_beyond_what_a_holding_can_take_is_refused() {
    let mut source = holding(1, 2, 10);
    let mut destination = holding(1, 3, u64::MAX - 3);
    assert_eq!(
        transfer(&mut source, &mut destination, &address(2), &address(1), 4),
        Err(TransferError::Overflow)
    );
    assert_eq!((source.amount, destination.amount), (10, u64::MAX - 3));
    assert_eq!(transfer(&mut source, &mut destination, &address(2), &address(1), 3), Ok(()));
    assert_eq!((source.amount, destination.amount), (7, u64::MAX));
}

#[test]
fn transfer_refusals_come_in_order() {
    let mut source = holding(1, 2, 10);
    let mut destination = holding(9, 3, u64::MAX);
    assert_eq!(
        transfer(&mut source, &mut destination, &address(7), &address(8), 11),
        Err(TransferError::InsufficientFunds)
    );
    assert_eq!(
        transfer(&mut source, &mut destination, &address(7), &address(8), 10),
        Err(TransferError::MintMismatch)
    );
    let mut destination = holding(1, 3, u64::MAX);
    assert_eq!(
        transfer(&mut source, &mut destination, &address(7), &address(1), 10),
        Err(TransferError::OwnerMismatch)
    );
    assert_eq!(
        transfer(&mut source, &mut destination, &address(2), &address(1), 10),
        Err(TransferError::Overflow)
    );
}

#[test]
fn new_holding_is_empty() {
    assert_eq!(TokenAccount::new(address(1), address(2)), holding(1, 2, 0));
}

#[test]
fn zero_identity_is_all_zero_bytes() {
    assert_eq!(Address::default().bytes, [0u8; 32]);
    assert!(Address::default().is_zero());
    assert!(Address::new([0; 32]).is_zero());
    let mut bytes = [0u8; 32];
    bytes[31] = 1;
    assert!(!Address::new(bytes).is_zero());
    bytes = [0u8; 32];
    bytes[0] = 1;
    assert!(!Address::new(bytes).is_zero());
}

#[test]
fn addresses_are_equal_when_their_bytes_are() {
    let mut bytes = [3u8; 32];
    assert_eq!(Address::new(bytes), address(3));
    bytes[17] = 4;
    assert_ne!(Address::new(bytes), address(3));
    assert_eq!(Address::new(bytes).to_vec(), bytes.to_vec());
    assert_eq!(address(3).to_vec(), vec![3u8; 32]);
}

#[test]
fn errors_say_what_went_wrong() {
    assert_eq!(EscrowError::EscrowNotMature.message(), "Escrow has not matured yet");
    assert_eq!(
        EscrowError::InvalidVaultAuthority.message(),
        "Vault token account is not owned by the escrow PDA"
    );
    assert_eq!(EscrowError::EmptyVault.message(), "Vault is empty");
    assert_eq!(EscrowError::InvalidEscrow.message(), "Invalid escrow account");
}
