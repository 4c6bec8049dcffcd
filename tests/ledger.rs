use stylus_erc20::account::AccountId;
use stylus_erc20::amount::Amount;
use stylus_erc20::erc20::{
    Erc20, Erc20Error, Erc20Params, Event, InsufficientAllowance, InsufficientBalance,
};

fn acct(b: u8) -> AccountId {
    AccountId::new([b; 20])
}

fn amt(v: u64) -> Amount {
    Amount::from_u64(v)
}

fn ledger() -> Erc20 {
    Erc20::new(Erc20Params {
        name: String::from("Example Token"),
        symbol: String::from("EXT"),
        decimals: 18,
    })
}

fn sum_of(l: &Erc20, accounts: &[AccountId]) -> u64 {
    accounts
        .iter()
        .map(|a| {
            let b = l.balance_of(*a);
            assert_eq!([b.l1, b.l2, b.l3], [0, 0, 0]);
            b.l0
        })
        .sum()
}

#[test]
fn mint_on_fresh_ledger() {
    let mut l = ledger();
    let a = acct(1);
    assert_eq!(l.mint(a, amt(1000)), Ok(()));
    assert_eq!(l.total_supply(), amt(1000));
    assert_eq!(l.balance_of(a), amt(1000));
    assert_eq!(
        l.events(),
        &[Event::Transfer { from: AccountId::zero(), to: a, value: amt(1000) }]
    );
}

#[test]
fn transfer_moves_balance() {
    let mut l = ledger();
    let (a, b) = (acct(1), acct(2));
    l.mint(a, amt(1000)).unwrap();
    assert_eq!(l.transfer(a, b, amt(400)), Ok(true));
    assert_eq!(l.balance_of(a), amt(600));
    assert_eq!(l.balance_of(b), amt(400));
    assert_eq!(l.total_supply(), amt(1000));
    assert_eq!(
        l.events().last(),
        Some(&Event::Transfer { from: a, to: b, value: amt(400) })
    );
}

#[test]
fn transfer_beyond_balance_fails() {
    let mut l = ledger();
    let (a, b) = (acct(1), acct(2));
    l.mint(a, amt(1000)).unwrap();
    l.transfer(a, b, amt(400)).unwrap();
    let events = l.events().len();
    assert_eq!(
        l.transfer(a, b, amt(1000)),
        Err(Erc20Error::InsufficientBalance(InsufficientBalance {
            from: a,
            have: amt(600),
            want: amt(1000),
        }))
    );
    assert_eq!(l.balance_of(a), amt(600));
    assert_eq!(l.balance_of(b), amt(400));
    assert_eq!(l.events().len(), events);
}

#[test]
fn transfer_from_spends_allowance() {
    let mut l = ledger();
    let (a, c, d) = (acct(1), acct(3), acct(4));
    l.mint(a, amt(1000)).unwrap();
    assert_eq!(l.approve(a, c, amt(300)), Ok(true));
    assert_eq!(l.allowance(a, c), amt(300));
    assert_eq!(l.transfer_from(c, a, d, amt(300)), Ok(true));
    assert_eq!(l.allowance(a, c), amt(0));
    assert_eq!(l.balance_of(d), amt(300));
    assert_eq!(l.balance_of(a), amt(700));
    assert_eq!(l.balance_of(c), amt(0));
}

#[test]
fn transfer_from_exhausted_allowance_fails() {
    let mut l = ledger();
    let (a, c, d) = (acct(1), acct(3), acct(4));
    l.mint(a, amt(1000)).unwrap();
    l.approve(a, c, amt(300)).unwrap();
    l.transfer_from(c, a, d, amt(300)).unwrap();
    assert_eq!(
        l.transfer_from(c, a, d, amt(1)),
        Err(Erc20Error::InsufficientAllowance(InsufficientAllowance {
            owner: a,
            spender: c,
            have: amt(0),
            want: amt(1),
        }))
    );
    assert_eq!(l.balance_of(a), amt(700));
    assert_eq!(l.balance_of(d), amt(300));
}

#[test]
fn burn_beyond_balance_fails() {
    let mut l = ledger();
    let a = acct(1);
    l.mint(a, amt(1000)).unwrap();
    assert_eq!(
        l.burn(a, amt(1001)),
        Err(Erc20Error::InsufficientBalance(InsufficientBalance {
            from: a,
            have: amt(1000),
            want: amt(1001),
        }))
    );
    assert_eq!(l.total_supply(), amt(1000));
    assert_eq!(l.balance_of(a), amt(1000));
}

#[test]
fn supply_tracks_sum_of_balances() {
    let mut l = ledger();
    let accounts = [acct(1), acct(2), acct(3), acct(4)];
    l.mint(accounts[0], amt(500)).unwrap();
    l.mint(accounts[1], amt(250)).unwrap();
    l.transfer(accounts[0], accounts[2], amt(120)).unwrap();
    l.approve(accounts[1], accounts[3], amt(100)).unwrap();
    l.transfer_from(accounts[3], accounts[1], accounts[0], amt(60)).unwrap();
    l.burn(accounts[2], amt(20)).unwrap();
    let _ = l.transfer(accounts[2], accounts[1], amt(1000));
    let _ = l.burn(accounts[3], amt(1));
    assert_eq!(l.total_supply(), amt(730));
    assert_eq!(sum_of(&l, &accounts), 730);
}

#[test]
fn unknown_accounts_hold_zero() {
    let l = ledger();
    assert_eq!(l.balance_of(acct(9)), amt(0));
    assert_eq!(l.balance_of(AccountId::zero()), amt(0));
    assert_eq!(l.allowance(acct(9), acct(8)), amt(0));
    assert_eq!(l.total_supply(), amt(0));
}

#[test]
fn approve_twice_overwrites() {
    let mut l = ledger();
    let (a, c) = (acct(1), acct(3));
    l.approve(a, c, amt(50)).unwrap();
    l.approve(a, c, amt(50)).unwrap();
    assert_eq!(l.allowance(a, c), amt(50));
    l.approve(a, c, amt(20)).unwrap();
    assert_eq!(l.allowance(a, c), amt(20));
    assert_eq!(l.allowance(c, a), amt(0));
    assert_eq!(
        l.events().last(),
        Some(&Event::Approval { owner: a, spender: c, value: amt(20) })
    );
}

#[test]
fn mint_then_burn_restores() {
    let mut l = ledger();
    let a = acct(1);
    l.mint(a, amt(40)).unwrap();
    l.mint(a, amt(100)).unwrap();
    assert_eq!(l.burn(a, amt(100)), Ok(()));
    assert_eq!(l.total_supply(), amt(40));
    assert_eq!(l.balance_of(a), amt(40));
    assert_eq!(
        l.events().last(),
        Some(&Event::Transfer { from: a, to: AccountId::zero(), value: amt(100) })
    );
}

#[test]
fn transfer_to_self_keeps_balance() {
    let mut l = ledger();
    let a = acct(1);
    l.mint(a, amt(70)).unwrap();
    assert_eq!(l.transfer(a, a, amt(70)), Ok(true));
    assert_eq!(l.balance_of(a), amt(70));
    assert_eq!(l.total_supply(), amt(70));
}

#[test]
fn zero_transfer_succeeds_and_is_announced() {
    let mut l = ledger();
    let (a, b) = (acct(1), acct(2));
    assert_eq!(l.transfer(a, b, amt(0)), Ok(true));
    assert_eq!(l.balance_of(a), amt(0));
    assert_eq!(l.balance_of(b), amt(0));
    assert_eq!(l.events(), &[Event::Transfer { from: a, to: b, value: amt(0) }]);
}

#[test]
fn transfer_from_with_short_balance_changes_nothing() {
    let mut l = ledger();
    let (a, c, d) = (acct(1), acct(3), acct(4));
    l.mint(a, amt(10)).unwrap();
    l.approve(a, c, amt(50)).unwrap();
    assert_eq!(
        l.transfer_from(c, a, d, amt(20)),
        Err(Erc20Error::InsufficientBalance(InsufficientBalance {
            from: a,
            have: amt(10),
            want: amt(20),
        }))
    );
    assert_eq!(l.allowance(a, c), amt(50));
    assert_eq!(l.balance_of(a), amt(10));
    assert_eq!(l.balance_of(d), amt(0));
}

#[test]
fn mint_past_the_range_overflows() {
    let mut l = ledger();
    let (a, b) = (acct(1), acct(2));
    l.mint(a, Amount::max_value()).unwrap();
    assert_eq!(l.mint(b, amt(1)), Err(Erc20Error::Overflow));
    assert_eq!(l.total_supply(), Amount::max_value());
    assert_eq!(l.balance_of(b), amt(0));
}

#[test]
fn amounts_carry_and_borrow_across_limbs() {
    let mut l = ledger();
    let a = acct(1);
    l.mint(a, Amount::from_limbs([u64::MAX, 0, 0, 0])).unwrap();
    l.mint(a, amt(1)).unwrap();
    assert_eq!(l.balance_of(a), Amount::from_limbs([0, 1, 0, 0]));
    assert_eq!(l.total_supply().limbs(), [0, 1, 0, 0]);
    l.burn(a, amt(2)).unwrap();
    assert_eq!(l.balance_of(a), Amount::from_limbs([u64::MAX - 1, 0, 0, 0]));
}

#[test]
fn metadata_is_kept() {
    let l = ledger();
    assert_eq!(l.name(), "Example Token");
    assert_eq!(l.symbol(), "EXT");
    assert_eq!(l.decimals(), 18);
}

#[test]
fn take_events_drains_the_log() {
    let mut l = ledger();
    let (a, b) = (acct(1), acct(2));
    l.mint(a, amt(5)).unwrap();
    l.approve(a, b, amt(3)).unwrap();
    let taken = l.take_events();
    assert_eq!(taken.len(), 2);
    assert_eq!(taken[1], Event::Approval { owner: a, spender: b, value: amt(3) });
    assert!(l.events().is_empty());
    assert_eq!(l.balance_of(a), amt(5));
}

#[test]
fn account_identity_is_bytewise() {
    let a = acct(7);
    let mut bytes = [7u8; 20];
    assert!(a.same(&AccountId::new(bytes)));
    bytes[19] = 8;
    assert!(!a.same(&AccountId::new(bytes)));
    assert_eq!(AccountId::zero().as_bytes(), [0u8; 20]);
}
