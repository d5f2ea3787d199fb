use erc20_pallet::{Error, Pallet};

#[test]
fn test_init() {
    let mut pallet = Pallet::new();
    let origin_id = 1;
    let total_supply = 1_000_000_000;

    assert_eq!(pallet.init(origin_id, total_supply), Ok(()));

    assert_eq!(total_supply, pallet.total_supply().unwrap());

    assert_eq!(total_supply, pallet.balance_of(origin_id).unwrap());

    assert_eq!(true, pallet.is_initialized());
}

#[test]
fn test_init_already_initialized() {
    let mut pallet = Pallet::new();
    let origin_id = 1;
    let total_supply = 1_000_000_000;

    let _ = pallet.init(origin_id, total_supply);

    assert_eq!(pallet.init(origin_id, total_supply), Err(Error::AlreadyInitialized));
}

#[test]
fn test_transfer() {
    let mut pallet = Pallet::new();
    let origin_id = 1;
    let receiver_id = 2;
    let total_supply = 1_000_000_000;
    let amount_to_send = 1000;

    let _ = pallet.init(origin_id, total_supply);

    assert_eq!(total_supply, pallet.balance_of(origin_id).unwrap());
    assert_eq!(0, pallet.balance_of(receiver_id).unwrap_or(0));

    assert_eq!(pallet.transfer(origin_id, receiver_id, amount_to_send), Ok(()));

    assert_eq!(999_999_000, pallet.balance_of(origin_id).unwrap());
    assert_eq!(amount_to_send, pallet.balance_of(receiver_id).unwrap());
}

#[test]
fn test_transfer_insufficient_funds() {
    let mut pallet = Pallet::new();
    let origin_id = 1;
    let receiver_id = 2;

    let _ = pallet.init(origin_id, 0);

    assert_eq!(0, pallet.balance_of(origin_id).unwrap());
    assert_eq!(0, pallet.balance_of(receiver_id).unwrap_or(0));

    assert_eq!(pallet.transfer(origin_id, receiver_id, 1000), Err(Error::InsufficientFunds));

    assert_eq!(0, pallet.balance_of(origin_id).unwrap());
    assert_eq!(0, pallet.balance_of(receiver_id).unwrap_or(0));
}

#[test]
fn test_transfer_balance_overflow() {
    let mut pallet = Pallet::new();
    let origin_id = 1;
    let receiver_id = 2;
    let total_supply = 1_000_000_000;
    let amount_to_send = 1;
    let receiver_balance = u64::MAX;

    let _ = pallet.init(origin_id, total_supply);
    pallet.set_balance(receiver_id, receiver_balance);

    assert_eq!(total_supply, pallet.balance_of(origin_id).unwrap());
    assert_eq!(receiver_balance, pallet.balance_of(receiver_id).unwrap_or(0));

    assert_eq!(
        pallet.transfer(origin_id, receiver_id, amount_to_send),
        Err(Error::ArithmeticOverflow)
    );

    assert_eq!(total_supply, pallet.balance_of(origin_id).unwrap());
    assert_eq!(receiver_balance, pallet.balance_of(receiver_id).unwrap_or(0));
}

#[test]
fn test_approve() {
    let mut pallet = Pallet::new();
    let origin_id = 1;
    let spender_id = 2;
    let total_supply = 1_000_000_000;
    let amount_to_approve = 1000;

    let _ = pallet.init(origin_id, total_supply);

    assert_eq!(pallet.approve(origin_id, spender_id, amount_to_approve), Ok(()));

    assert_eq!(amount_to_approve, pallet.allowance(origin_id, spender_id).unwrap());
}

#[test]
fn test_transfer_from() {
    let mut pallet = Pallet::new();
    let origin_id = 1;
    let owner_id = 2;
    let receiver_id = 3;
    let total_supply = 1_000_000_000;
    let owner_balance = 1_000_000;
    let amount_to_approve = 2_000_000;
    let amount_to_send = 1000;

    let _ = pallet.init(origin_id, total_supply);
    let _ = pallet.approve(owner_id, origin_id, amount_to_approve);
    pallet.set_balance(owner_id, owner_balance);

    assert_eq!(pallet.transfer_from(origin_id, owner_id, receiver_id, amount_to_send), Ok(()));

    assert_eq!(999_000, pallet.balance_of(owner_id).unwrap());
    assert_eq!(amount_to_send, pallet.balance_of(receiver_id).unwrap());
    assert_eq!(1_999_000, pallet.allowance(owner_id, origin_id).unwrap());
}

#[test]
fn test_transfer_from_insufficient_approved() {
    let mut pallet = Pallet::new();
    let origin_id = 1;
    let owner_id = 2;
    let receiver_id = 3;
    let total_supply = 1_000_000_000;
    let owner_balance = 1_000_000;
    let amount_to_send = 1;

    let _ = pallet.init(origin_id, total_supply);
    pallet.set_balance(owner_id, owner_balance);

    assert_eq!(
        pallet.transfer_from(origin_id, owner_id, receiver_id, amount_to_send),
        Err(Error::InsufficientApprovedFunds)
    );

    assert_eq!(owner_balance, pallet.balance_of(owner_id).unwrap());
    assert_eq!(0, pallet.balance_of(receiver_id).unwrap_or(0));
    assert_eq!(0, pallet.allowance(owner_id, origin_id).unwrap_or(0));
}

#[test]
fn test_transfer_from_insufficient_owner_balance() {
    let mut pallet = Pallet::new();
    let origin_id = 1;
    let owner_id = 2;
    let receiver_id = 3;
    let total_supply = 1_000_000_000;
    let amount_to_approve = 2_000_000;
    let amount_to_send = 1;

    let _ = pallet.init(origin_id, total_supply);
    let _ = pallet.approve(owner_id, origin_id, amount_to_approve);

    assert_eq!(
        pallet.transfer_from(origin_id, owner_id, receiver_id, amount_to_send),
        Err(Error::InsufficientFunds)
    );

    assert_eq!(0, pallet.balance_of(owner_id).unwrap_or(0));
    assert_eq!(0, pallet.balance_of(receiver_id).unwrap_or(0));
    assert_eq!(amount_to_approve, pallet.allowance(owner_id, origin_id).unwrap());
}

#[test]
fn test_transfer_from_receiver_balance_overflow() {
    let mut pallet = Pallet::new();
    let origin_id = 1;
    let owner_id = 2;
    let receiver_id = 3;
    let total_supply = 1_000_000_000;
    let amount_to_approve = 2_000_000;
    let owner_balance = 1_000_000;
    let receiver_balance = u64::MAX;
    let amount_to_send = 1;

    let _ = pallet.init(origin_id, total_supply);
    let _ = pallet.approve(owner_id, origin_id, amount_to_approve);
    pallet.set_balance(owner_id, owner_balance);
    pallet.set_balance(receiver_id, receiver_balance);

    assert_eq!(
        pallet.transfer_from(origin_id, owner_id, receiver_id, amount_to_send),
        Err(Error::ArithmeticOverflow)
    );

    assert_eq!(owner_balance, pallet.balance_of(owner_id).unwrap());
    assert_eq!(receiver_balance, pallet.balance_of(receiver_id).unwrap());
    assert_eq!(amount_to_approve, pallet.allowance(owner_id, origin_id).unwrap());
}
