use payment_engine::direct::{BusinessConfig, DirectError, PaymentContract, TokenPayment};
use payment_engine::Address;

fn addr(s: &str) -> Address {
    Address::new(String::from(s))
}

fn text(s: &str) -> String {
    String::from(s)
}

fn shop() -> PaymentContract {
    let mut c = PaymentContract::new();
    c.initialize(addr("ADMIN"), vec![addr("SHOP"), addr("CAFE")]).unwrap();
    c.configure_business(addr("SHOP"), 250, 100, 1_000_000).unwrap();
    c
}

#[test]
fn test_initialize_contract() {
    let mut c = PaymentContract::new();
    let admin = addr("ADMIN");
    let authorized_addresses = vec![addr("G1"), addr("G2")];
    c.initialize(admin, authorized_addresses).unwrap();
    let retrieved_addresses = c.get_authorized_addresses();
    assert_eq!(retrieved_addresses.unwrap().len(), 2);
}

#[test]
fn authorized_addresses_unset_at_first() {
    let c = PaymentContract::new();
    assert!(c.get_authorized_addresses().is_none());
    assert_eq!(c.get_payment_counter(), 0);
}

#[test]
fn configure_business_then_read_back() {
    let c = shop();
    assert_eq!(
        c.get_business_config(addr("SHOP")),
        Some(BusinessConfig { fee_rate: 250, min_amount: 100, max_amount: 1_000_000, is_active: true })
    );
    assert_eq!(c.get_business_config(addr("CAFE")), None);
}

#[test]
fn token_payment_splits_fee() {
    let mut c = shop();
    let p = c
        .process_token_payment(addr("BUYER"), addr("SHOP"), addr("USDC"), 10_000, text("Shop"), text("Ann"), text("o-1"), 42)
        .unwrap();
    assert_eq!(p, TokenPayment { payment_id: 1, net_amount: 9_750, fee_amount: 250 });
    let r = c.get_payment(1).unwrap();
    assert_eq!(r.payment_id, 1);
    assert_eq!(r.details.amount, 10_000);
    assert_eq!(r.details.sender, addr("BUYER"));
    assert_eq!(r.details.recipient, addr("SHOP"));
    assert_eq!(r.details.token_address, addr("USDC"));
    assert_eq!(r.details.customer_name, text("Ann"));
    assert_eq!(r.details.order_id, text("o-1"));
    assert_eq!(r.timestamp, 42);
    assert_eq!(r.status, text("COMPLETE"));
    assert_eq!(c.get_payment_counter(), 1);
}

#[test]
fn xlm_payment_numbers_payments() {
    let mut c = shop();
    let make = |c: &mut PaymentContract| {
        c.process_xlm_payment(addr("BUYER"), addr("SHOP"), 500, text("Shop"), text("Bo"), text("o-2"), 7, addr("NATIVE"))
    };
    assert_eq!(make(&mut c), Ok(1));
    assert_eq!(make(&mut c), Ok(2));
    assert_eq!(c.get_payment(2).unwrap().details.token_address, addr("NATIVE"));
    assert!(c.get_payment(3).is_none());
    assert!(c.get_payment(0).is_none());
}

#[test]
fn direct_payment_errors() {
    let mut fresh = PaymentContract::new();
    let pay = |c: &mut PaymentContract, to: &str, amount: i128| {
        c.process_token_payment(addr("BUYER"), addr(to), addr("USDC"), amount, text("n"), text("c"), text("o"), 0)
    };
    assert_eq!(pay(&mut fresh, "SHOP", 500).err(), Some(DirectError::AuthorizedAddressesNotSet));
    let mut c = shop();
    assert_eq!(pay(&mut c, "ELSEWHERE", 500).err(), Some(DirectError::RecipientNotAuthorized));
    assert_eq!(pay(&mut c, "CAFE", 500).err(), Some(DirectError::BusinessNotConfigured));
    assert_eq!(pay(&mut c, "SHOP", 99).err(), Some(DirectError::AmountOutOfRange));
    assert_eq!(pay(&mut c, "SHOP", 1_000_001).err(), Some(DirectError::AmountOutOfRange));
    assert_eq!(pay(&mut c, "SHOP", 100).map(|p| p.fee_amount), Ok(2));
    c.update_business_status(addr("SHOP"), false).unwrap();
    assert_eq!(pay(&mut c, "SHOP", 500).err(), Some(DirectError::BusinessNotActive));
    assert_eq!(c.get_payment_counter(), 1);
    assert_eq!(DirectError::AmountOutOfRange.message(), "Amount out of range");
}

#[test]
fn direct_fee_overflow_is_out_of_range() {
    let mut c = PaymentContract::new();
    c.initialize(addr("ADMIN"), vec![addr("SHOP")]).unwrap();
    c.configure_business(addr("SHOP"), i128::MAX, 0, i128::MAX).unwrap();
    let r = c.process_token_payment(addr("B"), addr("SHOP"), addr("T"), 2, text("n"), text("c"), text("o"), 0);
    assert_eq!(r.err(), Some(DirectError::AmountOutOfRange));
}

#[test]
fn direct_fee_truncates_toward_zero() {
    let mut c = PaymentContract::new();
    c.initialize(addr("ADMIN"), vec![addr("SHOP")]).unwrap();
    c.configure_business(addr("SHOP"), -3, -1_000, 1_000).unwrap();
    let p = c
        .process_token_payment(addr("B"), addr("SHOP"), addr("T"), 5_000 - 4_999, text("n"), text("c"), text("o"), 0)
        .unwrap();
    assert_eq!(p.fee_amount, 0);
    assert_eq!(p.net_amount, 1);
}

#[test]
fn update_status_of_unknown_business() {
    let mut c = shop();
    assert_eq!(c.update_business_status(addr("CAFE"), true), Err(DirectError::BusinessNotConfigured));
    assert_eq!(c.update_business_status(addr("SHOP"), false), Ok(()));
    assert!(!c.get_business_config(addr("SHOP")).unwrap().is_active);
}

#[test]
fn direct_state_round_trips_through_parts() {
    let mut c = shop();
    c.process_xlm_payment(addr("B"), addr("SHOP"), 500, text("n"), text("c"), text("o"), 1, addr("NATIVE")).unwrap();
    let (auth, configs, payments) = c.into_parts();
    assert_eq!(auth.as_ref().map(|v| v.len()), Some(2));
    let mut dup = configs.clone();
    dup.push(configs[0].clone());
    assert!(PaymentContract::from_parts(auth.clone(), dup, payments.clone()).is_none());
    let back = PaymentContract::from_parts(auth, configs, payments).unwrap();
    assert_eq!(back.get_payment_counter(), 1);
    assert_eq!(back.get_payment(1).unwrap().details.amount, 500);
}
