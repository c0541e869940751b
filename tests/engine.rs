use payment_engine::{
    split_amount, Address, Error, PaymentContract, PaymentHistory, PaymentStatus,
};

fn addr(s: &str) -> Address {
    Address::new(String::from(s))
}

fn text(s: &str) -> String {
    String::from(s)
}

/// An initialized engine with "Store" registered at 300 bps.
fn store_engine() -> PaymentContract {
    let mut c = PaymentContract::new();
    c.initialize(addr("OWNER"), 250).unwrap();
    c.register_business(text("Store"), addr("BIZ"), addr("FEES"), 300).unwrap();
    c
}

fn request_in_store(c: &mut PaymentContract, amount: i128, fee: Option<u32>) -> u64 {
    c.create_payment_request(
        amount,
        text("Store"),
        text("Order 7"),
        text("XLM"),
        vec![addr("A"), addr("B"), addr("C")],
        addr("REQ"),
        fee,
        1_700_000_000,
    )
    .unwrap()
}

#[test]
fn initialize_accepts_fee_in_range() {
    let mut c = PaymentContract::new();
    assert_eq!(c.initialize(addr("OWNER"), 250), Ok(()));
}

#[test]
fn initialize_rejects_fee_above_one_hundred_percent() {
    let mut c = PaymentContract::new();
    assert_eq!(c.initialize(addr("OWNER"), 10001), Err(Error::InvalidFeePercentage));
}

#[test]
fn initialize_only_once() {
    let mut c = PaymentContract::new();
    c.initialize(addr("OWNER"), 250).unwrap();
    assert_eq!(c.initialize(addr("OTHER"), 100), Err(Error::NotAuthorized));
    // the first owner still governs
    let id = {
        c.register_business(text("Store"), addr("BIZ"), addr("FEES"), 300).unwrap();
        request_in_store(&mut c, 10, None)
    };
    assert_eq!(c.cancel_payment_request(id, addr("OTHER")), Err(Error::NotAuthorized));
    assert_eq!(c.cancel_payment_request(id, addr("OWNER")), Ok(()));
}

#[test]
fn register_business_then_read_back() {
    let c = store_engine();
    let b = c.get_business_config(text("Store")).unwrap();
    assert_eq!(b.name, text("Store"));
    assert_eq!(b.owner, addr("BIZ"));
    assert_eq!(b.fee_recipient, addr("FEES"));
    assert_eq!(b.default_fee_percentage, 300);
    assert!(b.is_active);
}

#[test]
fn register_business_fee_bounds() {
    let mut c = PaymentContract::new();
    assert_eq!(
        c.register_business(text("Shop"), addr("BIZ"), addr("FEES"), 10001),
        Err(Error::InvalidFeePercentage)
    );
    assert_eq!(c.get_business_config(text("Shop")).err(), Some(Error::BusinessNotActive));
    assert_eq!(c.register_business(text("Shop"), addr("BIZ"), addr("FEES"), 10000), Ok(()));
    assert_eq!(c.get_business_config(text("Shop")).unwrap().default_fee_percentage, 10000);
}

#[test]
fn register_business_overwrites() {
    let mut c = store_engine();
    c.update_business_status(text("Store"), false, addr("BIZ")).unwrap();
    c.register_business(text("Store"), addr("BIZ2"), addr("FEES2"), 50).unwrap();
    let b = c.get_business_config(text("Store")).unwrap();
    assert_eq!(b.owner, addr("BIZ2"));
    assert_eq!(b.fee_recipient, addr("FEES2"));
    assert_eq!(b.default_fee_percentage, 50);
    assert!(b.is_active);
}

#[test]
fn unknown_business_is_not_found() {
    let c = store_engine();
    assert_eq!(c.get_business_config(text("Nowhere")).err(), Some(Error::BusinessNotActive));
}

#[test]
fn create_payment_request_records_request() {
    let mut c = store_engine();
    let id = request_in_store(&mut c, 1_000_000, None);
    let r = c.get_payment_request(id).unwrap();
    assert_eq!(r.id, id);
    assert_eq!(r.amount, 1_000_000);
    assert_eq!(r.business_name, text("Store"));
    assert_eq!(r.description, text("Order 7"));
    assert_eq!(r.denomination, text("XLM"));
    assert_eq!(r.requester, addr("REQ"));
    assert_eq!(r.authorized_addresses, vec![addr("A"), addr("B"), addr("C")]);
    assert_eq!(r.fee_percentage, 300);
    assert_eq!(r.timestamp, 1_700_000_000);
    assert_eq!(r.status, PaymentStatus::Pending);
}

#[test]
fn create_payment_request_with_custom_fee() {
    let mut c = store_engine();
    let id = request_in_store(&mut c, 1_000_000, Some(500));
    assert_eq!(c.get_payment_request(id).unwrap().fee_percentage, 500);
}

#[test]
fn payment_ids_count_up_from_one() {
    let mut c = store_engine();
    assert_eq!(c.get_payment_counter(), 0);
    assert_eq!(request_in_store(&mut c, 5, None), 1);
    assert_eq!(request_in_store(&mut c, 5, None), 2);
    assert_eq!(c.get_payment_counter(), 2);
    assert_eq!(c.get_payment_request(0).err(), Some(Error::PaymentNotFound));
    assert_eq!(c.get_payment_request(3).err(), Some(Error::PaymentNotFound));
}

#[test]
fn create_payment_request_errors() {
    let mut c = store_engine();
    let make = |c: &mut PaymentContract, amount: i128, name: &str, addrs: Vec<Address>, fee: Option<u32>| {
        c.create_payment_request(amount, text(name), text("d"), text("XLM"), addrs, addr("REQ"), fee, 0)
    };
    assert_eq!(make(&mut c, 0, "Store", vec![addr("A")], None), Err(Error::InvalidAmount));
    assert_eq!(make(&mut c, -5, "Store", vec![addr("A")], None), Err(Error::InvalidAmount));
    assert_eq!(make(&mut c, 5, "Store", vec![], None), Err(Error::InvalidAddress));
    assert_eq!(make(&mut c, 5, "Nowhere", vec![addr("A")], None), Err(Error::BusinessNotActive));
    assert_eq!(
        make(&mut c, 5, "Store", vec![addr("A")], Some(10001)),
        Err(Error::InvalidFeePercentage)
    );
    c.update_business_status(text("Store"), false, addr("BIZ")).unwrap();
    assert_eq!(make(&mut c, 5, "Store", vec![addr("A")], None), Err(Error::BusinessNotActive));
    assert_eq!(c.get_payment_counter(), 0);
}

#[test]
fn scenario_any_one_address_settles_once() {
    let mut c = PaymentContract::new();
    c.initialize(addr("OWNER"), 250).unwrap();
    c.register_business(text("Store"), addr("BIZ"), addr("FEES"), 300).unwrap();
    let p = request_in_store(&mut c, 1_000_000, None);
    assert_eq!(c.get_payment_request(p).unwrap().fee_percentage, 300);

    let s = c.execute_payment(p, addr("B"), 1_000_000).unwrap();
    assert_eq!(s.payment_id, p);
    assert_eq!(s.payer, addr("B"));
    assert_eq!(s.requester, addr("REQ"));
    assert_eq!(s.net_amount, 970_000);
    assert_eq!(s.fee_recipient, addr("FEES"));
    assert_eq!(s.fee_amount, 30_000);
    assert_eq!(c.get_payment_request(p).unwrap().status, PaymentStatus::Completed);

    assert_eq!(c.execute_payment(p, addr("A"), 5_000_000).err(), Some(Error::PaymentAlreadyCompleted));
    assert_eq!(c.execute_xlm_payment(p, addr("C")).err(), Some(Error::PaymentAlreadyCompleted));

    let h = c.get_payment_history(addr("B"));
    assert_eq!(h, PaymentHistory { total_payments: 1, total_amount: 1_000_000, last_payment_id: p });
    assert_eq!(
        c.get_payment_history(addr("A")),
        PaymentHistory { total_payments: 0, total_amount: 0, last_payment_id: 0 }
    );
}

#[test]
fn execute_payment_refuses_unauthorized_payer() {
    let mut c = store_engine();
    let p = request_in_store(&mut c, 1_000, None);
    assert_eq!(c.execute_payment(p, addr("REQ"), 10_000).err(), Some(Error::NotAuthorized));
    assert_eq!(c.execute_payment(p, addr("OWNER"), 10_000).err(), Some(Error::NotAuthorized));
    assert_eq!(c.get_payment_request(p).unwrap().status, PaymentStatus::Pending);
}

#[test]
fn execute_payment_checks_balance() {
    let mut c = store_engine();
    let p = request_in_store(&mut c, 1_000, None);
    assert_eq!(c.execute_payment(p, addr("A"), 999).err(), Some(Error::InsufficientBalance));
    assert_eq!(c.get_payment_request(p).unwrap().status, PaymentStatus::Pending);
    assert!(c.execute_payment(p, addr("A"), 1_000).is_ok());
}

#[test]
fn execute_payment_unknown_request() {
    let mut c = store_engine();
    assert_eq!(c.execute_payment(1, addr("A"), 10).err(), Some(Error::PaymentNotFound));
    assert_eq!(c.execute_xlm_payment(0, addr("A")).err(), Some(Error::PaymentNotFound));
}

#[test]
fn execute_xlm_payment_skips_balance_check() {
    let mut c = store_engine();
    let p = request_in_store(&mut c, 10_000, Some(0));
    let s = c.execute_xlm_payment(p, addr("C")).unwrap();
    assert_eq!(s.fee_amount, 0);
    assert_eq!(s.net_amount, 10_000);
}

#[test]
fn fee_snapshot_survives_business_changes() {
    let mut c = store_engine();
    let p = request_in_store(&mut c, 10_000, None);
    c.register_business(text("Store"), addr("BIZ"), addr("FEES9"), 1000).unwrap();
    let s = c.execute_payment(p, addr("A"), 10_000).unwrap();
    assert_eq!(s.fee_amount, 300);
    assert_eq!(s.net_amount, 9_700);
    assert_eq!(s.fee_recipient, addr("FEES9"));
}

#[test]
fn history_accumulates() {
    let mut c = store_engine();
    let first = request_in_store(&mut c, 400, None);
    let second = request_in_store(&mut c, 600, None);
    c.execute_payment(first, addr("A"), 1_000).unwrap();
    c.execute_xlm_payment(second, addr("A")).unwrap();
    assert_eq!(
        c.get_payment_history(addr("A")),
        PaymentHistory { total_payments: 2, total_amount: 1_000, last_payment_id: second }
    );
}

#[test]
fn requester_cancels_pending_request() {
    let mut c = store_engine();
    let p = request_in_store(&mut c, 1_000, None);
    assert_eq!(c.cancel_payment_request(p, addr("REQ")), Ok(()));
    assert_eq!(c.get_payment_request(p).unwrap().status, PaymentStatus::Cancelled);
    assert_eq!(c.execute_payment(p, addr("A"), 10_000).err(), Some(Error::PaymentNotFound));
    assert_eq!(c.cancel_payment_request(p, addr("REQ")), Err(Error::PaymentNotFound));
}

#[test]
fn cancel_after_settlement_fails() {
    let mut c = store_engine();
    let p = request_in_store(&mut c, 1_000, None);
    c.execute_payment(p, addr("A"), 1_000).unwrap();
    assert_eq!(c.cancel_payment_request(p, addr("REQ")), Err(Error::PaymentAlreadyCompleted));
    assert_eq!(c.cancel_payment_request(p, addr("OWNER")), Err(Error::PaymentAlreadyCompleted));
    assert_eq!(c.get_payment_request(p).unwrap().status, PaymentStatus::Completed);
}

#[test]
fn cancel_checks_caller_and_initialization() {
    let mut c = store_engine();
    let p = request_in_store(&mut c, 1_000, None);
    assert_eq!(c.cancel_payment_request(p, addr("A")), Err(Error::NotAuthorized));
    assert_eq!(c.cancel_payment_request(9, addr("REQ")), Err(Error::PaymentNotFound));
    assert_eq!(c.cancel_payment_request(p, addr("OWNER")), Ok(()));

    let mut fresh = PaymentContract::new();
    fresh.register_business(text("Store"), addr("BIZ"), addr("FEES"), 300).unwrap();
    let q = request_in_store(&mut fresh, 1_000, None);
    assert_eq!(fresh.cancel_payment_request(q, addr("REQ")), Err(Error::ContractNotInitialized));
}

#[test]
fn update_business_status_rules() {
    let mut c = store_engine();
    assert_eq!(c.update_business_status(text("Store"), false, addr("A")), Err(Error::NotAuthorized));
    assert_eq!(c.update_business_status(text("Nowhere"), false, addr("BIZ")), Err(Error::BusinessNotActive));
    assert_eq!(c.update_business_status(text("Store"), false, addr("OWNER")), Ok(()));
    assert!(!c.get_business_config(text("Store")).unwrap().is_active);
    assert_eq!(c.update_business_status(text("Store"), true, addr("BIZ")), Ok(()));
    assert!(c.get_business_config(text("Store")).unwrap().is_active);

    let mut fresh = PaymentContract::new();
    fresh.register_business(text("Store"), addr("BIZ"), addr("FEES"), 300).unwrap();
    assert_eq!(
        fresh.update_business_status(text("Store"), false, addr("BIZ")),
        Err(Error::ContractNotInitialized)
    );
}

#[test]
fn split_amount_exact_values() {
    assert_eq!(split_amount(1_000_000, 300), (30_000, 970_000));
    assert_eq!(split_amount(9_999, 1), (0, 9_999));
    assert_eq!(split_amount(10_001, 5_000), (5_000, 5_001));
    assert_eq!(split_amount(77, 0), (0, 77));
    assert_eq!(split_amount(77, 10_000), (77, 0));
    assert_eq!(split_amount(i128::MAX, 10_000), (i128::MAX, 0));
    assert_eq!(
        split_amount(i128::MAX, 9_999),
        (170124169342123184808514134985512517316, 17014118346046923173168730371588411)
    );
}

#[test]
fn split_amount_conserves_amount() {
    for amount in [1i128, 2, 3, 9_999, 10_000, 123_456_789] {
        for bps in [0u32, 1, 250, 3_333, 9_999, 10_000] {
            let (fee, net) = split_amount(amount, bps);
            assert_eq!(fee + net, amount);
            assert_eq!(fee, amount * bps as i128 / 10_000);
        }
    }
}

#[test]
fn engine_state_round_trips_through_parts() {
    let mut c = store_engine();
    let p = request_in_store(&mut c, 1_000, None);
    c.execute_payment(p, addr("B"), 1_000).unwrap();
    let (owner, fee, businesses, requests, histories) = c.into_parts();
    assert_eq!(owner, Some(addr("OWNER")));
    assert_eq!(fee, 250);
    assert_eq!(businesses.len(), 1);
    assert_eq!(requests.len(), 1);
    assert_eq!(histories.len(), 1);
    let back = PaymentContract::from_parts(owner, fee, businesses, requests, histories).unwrap();
    assert_eq!(back.get_payment_request(p).unwrap().status, PaymentStatus::Completed);
    assert_eq!(back.get_payment_history(addr("B")).total_payments, 1);
    assert_eq!(back.get_business_config(text("Store")).unwrap().fee_recipient, addr("FEES"));
}

#[test]
fn engine_parts_must_be_well_formed() {
    let c = store_engine();
    let (owner, _, businesses, requests, histories) = c.into_parts();
    assert!(PaymentContract::from_parts(owner.clone(), 10_001, businesses.clone(), requests.clone(), histories.clone()).is_none());
    let mut twice = businesses.clone();
    twice.push(businesses[0].clone());
    assert!(PaymentContract::from_parts(owner.clone(), 250, twice, requests.clone(), histories.clone()).is_none());
    let mut c2 = store_engine();
    request_in_store(&mut c2, 5, None);
    let (_, _, _, mut reqs, _) = c2.into_parts();
    reqs[0].id = 7;
    assert!(PaymentContract::from_parts(owner, 250, businesses, reqs, histories).is_none());
}
