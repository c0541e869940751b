//! The payment engine: the contract's owner and default fee, the business
//! registry, payment requests and their state machine, and each payer's
//! settlement history.
//!
//! Every operation is one unit of work: it either succeeds with the effect
//! its contract states or fails with a typed error and changes nothing.
//! The caller of each operation is taken to have proved its consent already.
use vstd::prelude::*;
use crate::fee::{fee_of, split_amount, MAX_FEE_BPS};
use crate::keyed::{
    business_in, value_in, lemma_business_absent, lemma_business_at, lemma_business_push,
    lemma_business_update, lemma_entry_absent, lemma_entry_at, lemma_entry_push,
    lemma_entry_update, names_unique, keys_unique,
};
use crate::types::{
    addresses_view, contains_address, empty_history, history_after, Address, BusinessConfig,
    BusinessView, Error, PaymentHistory, PaymentRequest, PaymentStatus, RequestView, Settlement,
    SettlementView,
};

verus! {

/// The businesses of `v`, as plain values.
pub open spec fn businesses_of(v: Seq<BusinessConfig>) -> Seq<BusinessView> {
    v.map_values(|b: BusinessConfig| b@)
}

/// The histories of `v`, as plain values.
pub open spec fn histories_of(v: Seq<HistoryEntry>) -> Seq<(Seq<char>, PaymentHistory)> {
    v.map_values(|e: HistoryEntry| (e.payer@, e.history))
}

/// The requests of `v`, as plain values.
pub open spec fn requests_of(v: Seq<PaymentRequest>) -> Seq<RequestView> {
    v.map_values(|r: PaymentRequest| r@)
}

/// Whether these parts make a well-formed engine state: fees within range,
/// one configuration per business name, one history per payer, and each
/// request numbered by its place, with a positive amount, a fee within
/// range and at least one authorized address.
pub open spec fn parts_valid(
    default_fee_percentage: u32,
    businesses: Seq<BusinessView>,
    requests: Seq<RequestView>,
    histories: Seq<(Seq<char>, PaymentHistory)>,
) -> bool {
    &&& default_fee_percentage <= MAX_FEE_BPS
    &&& names_unique(businesses)
    &&& keys_unique(histories)
    &&& forall|i: int| 0 <= i < businesses.len() ==> (#[trigger] businesses[i]).default_fee_percentage <= MAX_FEE_BPS
    &&& forall|i: int|
        0 <= i < requests.len() ==> {
            let r = #[trigger] requests[i];
            &&& r.id == i + 1
            &&& r.amount > 0
            &&& r.fee_percentage <= MAX_FEE_BPS
            &&& r.authorized_addresses.len() > 0
        }
}

/// Whether no two of `v` share a name.
fn business_names_unique(v: &Vec<BusinessConfig>) -> (r: bool)
    ensures
        r == names_unique(businesses_of(v@)),
{
    let ghost s = businesses_of(v@);
    let mut i: usize = 0;
    while i < v.len()
        invariant
            i <= v@.len(),
            s == businesses_of(v@),
            forall|a: int, b: int| 0 <= a < i && 0 <= b < i && a != b ==> (#[trigger] s[a]).name != (#[trigger] s[b]).name,
        decreases v@.len() - i,
    {
        let mut j: usize = 0;
        while j < i
            invariant
                i < v@.len(),
                j <= i,
                s == businesses_of(v@),
                forall|a: int, b: int| 0 <= a < i && 0 <= b < i && a != b ==> (#[trigger] s[a]).name != (#[trigger] s[b]).name,
                forall|k: int| 0 <= k < j ==> (#[trigger] s[k]).name != s[i as int].name,
            decreases i - j,
        {
            if v[j].name == v[i].name {
                assert(s[j as int].name == s[i as int].name);
                return false;
            }
            j = j + 1;
        }
        i = i + 1;
    }
    true
}

/// Whether no two of `v` are for the same payer.
fn payers_distinct(v: &Vec<HistoryEntry>) -> (r: bool)
    ensures
        r == keys_unique(histories_of(v@)),
{
    let ghost s = histories_of(v@);
    let mut i: usize = 0;
    while i < v.len()
        invariant
            i <= v@.len(),
            s == histories_of(v@),
            forall|a: int, b: int| 0 <= a < i && 0 <= b < i && a != b ==> (#[trigger] s[a]).0 != (#[trigger] s[b]).0,
        decreases v@.len() - i,
    {
        let mut j: usize = 0;
        while j < i
            invariant
                i < v@.len(),
                j <= i,
                s == histories_of(v@),
                forall|a: int, b: int| 0 <= a < i && 0 <= b < i && a != b ==> (#[trigger] s[a]).0 != (#[trigger] s[b]).0,
                forall|k: int| 0 <= k < j ==> (#[trigger] s[k]).0 != s[i as int].0,
            decreases i - j,
        {
            if v[j].payer.same_as(&v[i].payer) {
                assert(s[j as int].0 == s[i as int].0);
                return false;
            }
            j = j + 1;
        }
        i = i + 1;
    }
    true
}

/// Whether every business of `v` has a fee within range.
fn business_fees_valid(v: &Vec<BusinessConfig>) -> (r: bool)
    ensures
        r == forall|i: int| 0 <= i < v@.len() ==> (#[trigger] businesses_of(v@)[i]).default_fee_percentage <= MAX_FEE_BPS,
{
    let mut i: usize = 0;
    while i < v.len()
        invariant
            i <= v@.len(),
            forall|k: int| 0 <= k < i ==> (#[trigger] businesses_of(v@)[k]).default_fee_percentage <= MAX_FEE_BPS,
        decreases v@.len() - i,
    {
        if v[i].default_fee_percentage > MAX_FEE_BPS {
            assert(businesses_of(v@)[i as int].default_fee_percentage > MAX_FEE_BPS);
            return false;
        }
        i = i + 1;
    }
    true
}

/// Whether every request of `v` is numbered by its place and has a
/// positive amount, a fee within range and an authorized address.
fn requests_valid(v: &Vec<PaymentRequest>) -> (r: bool)
    ensures
        r == forall|i: int|
            0 <= i < v@.len() ==> {
                let q = #[trigger] requests_of(v@)[i];
                &&& q.id == i + 1
                &&& q.amount > 0
                &&& q.fee_percentage <= MAX_FEE_BPS
                &&& q.authorized_addresses.len() > 0
            },
{
    let mut i: usize = 0;
    while i < v.len()
        invariant
            i <= v@.len(),
            forall|k: int|
                0 <= k < i ==> {
                    let q = #[trigger] requests_of(v@)[k];
                    &&& q.id == k + 1
                    &&& q.amount > 0
                    &&& q.fee_percentage <= MAX_FEE_BPS
                    &&& q.authorized_addresses.len() > 0
                },
        decreases v@.len() - i,
    {
        let q = &v[i];
        assert(requests_of(v@)[i as int] == q@);
        if q.id as u128 != i as u128 + 1 || q.amount <= 0 || q.fee_percentage > MAX_FEE_BPS
            || q.authorized_addresses.len() == 0 {
            return false;
        }
        i = i + 1;
    }
    true
}

/// A payer and what it has settled.
#[derive(Debug, Clone)]
pub struct HistoryEntry {
    pub payer: Address,
    pub history: PaymentHistory,
}

/// `r` with its status set to `status`.
pub open spec fn with_status(r: RequestView, status: PaymentStatus) -> RequestView {
    RequestView { status, ..r }
}

/// The engine's whole state. Requests are numbered from 1 in the order they
/// were made, and never removed.
pub struct PaymentContract {
    owner: Option<Address>,
    default_fee_percentage: u32,
    businesses: Vec<BusinessConfig>,
    requests: Vec<PaymentRequest>,
    histories: Vec<HistoryEntry>,
}

impl PaymentContract {
    /// The contract's owner, once initialized.
    pub closed spec fn owner_view(&self) -> Option<Seq<char>> {
        match self.owner {
            Some(a) => Some(a@),
            None => None,
        }
    }

    /// The contract-wide default fee, in basis points.
    pub closed spec fn default_fee(&self) -> u32 {
        self.default_fee_percentage
    }

    pub closed spec fn businesses_view(&self) -> Seq<BusinessView> {
        businesses_of(self.businesses@)
    }

    /// The requests made so far; request `id` stands at `id - 1`.
    pub closed spec fn requests_view(&self) -> Seq<RequestView> {
        requests_of(self.requests@)
    }

    pub closed spec fn histories_view(&self) -> Seq<(Seq<char>, PaymentHistory)> {
        histories_of(self.histories@)
    }

    /// The state's invariant: fees within range, one configuration per
    /// business name, one history per payer, and each request numbered by
    /// its place, with a positive amount, a fee within range and at least
    /// one authorized address.
    pub closed spec fn wf(&self) -> bool {
        &&& self.default_fee_percentage <= MAX_FEE_BPS
        &&& names_unique(self.businesses_view())
        &&& keys_unique(self.histories_view())
        &&& forall|i: int|
            0 <= i < self.businesses@.len() ==> (#[trigger] self.businesses@[i]).default_fee_percentage
                <= MAX_FEE_BPS
        &&& forall|i: int|
            0 <= i < self.requests@.len() ==> {
                let r = #[trigger] self.requests@[i];
                &&& r.id == i + 1
                &&& r.amount > 0
                &&& r.fee_percentage <= MAX_FEE_BPS
                &&& r.authorized_addresses@.len() > 0
            }
    }

    /// Each request of a well-formed state carries its own id, a positive
    /// amount, a fee of at most 100% and at least one authorized address.
    pub proof fn lemma_requests_valid(&self)
        requires
            self.wf(),
        ensures
            forall|id: u64|
                #[trigger] self.lookup_request(id) is Some ==> {
                    let r = self.lookup_request(id)->0;
                    &&& r.id == id
                    &&& r.amount > 0
                    &&& r.fee_percentage <= MAX_FEE_BPS
                    &&& r.authorized_addresses.len() > 0
                },
    {
        assert forall|id: u64| #[trigger] self.lookup_request(id) is Some implies {
            let r = self.lookup_request(id)->0;
            &&& r.id == id
            &&& r.amount > 0
            &&& r.fee_percentage <= MAX_FEE_BPS
            &&& r.authorized_addresses.len() > 0
        } by {
            let q = self.requests@[id - 1];
            assert(self.requests_view()[id - 1] == q@);
        }
    }

    /// The configuration registered under `name`, if any.
    pub open spec fn lookup_business(&self, name: Seq<char>) -> Option<BusinessView> {
        business_in(self.businesses_view(), name)
    }

    /// The request numbered `id`, if it was made.
    pub open spec fn lookup_request(&self, id: u64) -> Option<RequestView> {
        if 1 <= id <= self.requests_view().len() {
            Some(self.requests_view()[id - 1])
        } else {
            None
        }
    }

    /// What `payer` has settled so far.
    pub open spec fn history_of(&self, payer: Seq<char>) -> PaymentHistory {
        match value_in(self.histories_view(), payer) {
            Some(h) => h,
            None => empty_history(),
        }
    }

    /// Whether the owner, the fee and the registry are those of `o`.
    pub open spec fn same_admin_and_registry(&self, o: &PaymentContract) -> bool {
        &&& self.owner_view() == o.owner_view()
        &&& self.default_fee() == o.default_fee()
        &&& self.businesses_view() == o.businesses_view()
    }

    /// Whether the requests and the histories are those of `o`.
    pub open spec fn same_payments(&self, o: &PaymentContract) -> bool {
        &&& self.requests_view() == o.requests_view()
        &&& self.histories_view() == o.histories_view()
    }

    /// What `initialize` returns: the fee must be in range, and the owner
    /// can be set only once.
    pub open spec fn initialize_outcome(&self, default_fee_percentage: u32) -> Result<(), Error> {
        if default_fee_percentage > MAX_FEE_BPS {
            Err(Error::InvalidFeePercentage)
        } else if self.owner_view() is Some {
            Err(Error::NotAuthorized)
        } else {
            Ok(())
        }
    }

    /// An engine with no owner, no business, no request and no history.
    pub fn new() -> (r: PaymentContract)
        ensures
            r.wf(),
            r.owner_view() is None,
            r.default_fee() == 0,
            forall|n: Seq<char>| #[trigger] r.lookup_business(n) is None,
            r.requests_view().len() == 0,
            forall|p: Seq<char>| #[trigger] r.history_of(p) == empty_history(),
    {
        let r = PaymentContract {
            owner: None,
            default_fee_percentage: 0,
            businesses: Vec::new(),
            requests: Vec::new(),
            histories: Vec::new(),
        };
        assert(r.requests_view().len() == 0);
        r
    }

    /// Sets the contract's owner and default fee. The owner is set once: a
    /// second call fails with `NotAuthorized` and changes nothing.
    pub fn initialize(&mut self, owner: Address, default_fee_percentage: u32) -> (r: Result<(), Error>)
        requires
            old(self).wf(),
        ensures
            final(self).wf(),
            r == old(self).initialize_outcome(default_fee_percentage),
            r is Ok ==> final(self).owner_view() == Some(owner@) && final(self).default_fee()
                == default_fee_percentage && final(self).businesses_view() == old(
                self,
            ).businesses_view() && final(self).same_payments(old(self)),
            r is Err ==> *final(self) == *old(self),
    {
        if default_fee_percentage > MAX_FEE_BPS {
            return Err(Error::InvalidFeePercentage);
        }
        if self.owner.is_some() {
            return Err(Error::NotAuthorized);
        }
        self.owner = Some(owner);
        self.default_fee_percentage = default_fee_percentage;
        Ok(())
    }

    /// The place of the business named `name`, if it is registered.
    fn find_business(&self, name: &String) -> (r: Option<usize>)
        requires
            self.wf(),
        ensures
            match r {
                Some(i) => i < self.businesses@.len() && self.lookup_business(name@) == Some(
                    self.businesses_view()[i as int],
                ) && self.businesses@[i as int].name@ == name@,
                None => self.lookup_business(name@) is None,
            },
    {
        let mut i: usize = 0;
        while i < self.businesses.len()
            invariant
                self.wf(),
                i <= self.businesses@.len(),
                forall|k: int| 0 <= k < i ==> (#[trigger] self.businesses_view()[k]).name != name@,
            decreases self.businesses@.len() - i,
        {
            if self.businesses[i].name == *name {
                proof {
                    lemma_business_at(self.businesses_view(), i as int);
                }
                return Some(i);
            }
            i = i + 1;
        }
        proof {
            lemma_business_absent(self.businesses_view(), name@);
        }
        None
    }

    /// Registers `business_name`, active, replacing any configuration it had.
    /// Fails with `InvalidFeePercentage` when the fee is above 100%.
    pub fn register_business(
        &mut self,
        business_name: String,
        business_owner: Address,
        fee_recipient: Address,
        fee_percentage: u32,
    ) -> (r: Result<(), Error>)
        requires
            old(self).wf(),
        ensures
            final(self).wf(),
            (r is Err) == (fee_percentage > MAX_FEE_BPS),
            r is Err ==> r == Err::<(), Error>(Error::InvalidFeePercentage) && *final(self) == *old(
                self,
            ),
            r is Ok ==> final(self).lookup_business(business_name@) == Some(
                (BusinessView {
                    name: business_name@,
                    owner: business_owner@,
                    fee_recipient: fee_recipient@,
                    default_fee_percentage: fee_percentage,
                    is_active: true,
                }),
            ),
            r is Ok ==> forall|n: Seq<char>|
                n != business_name@ ==> #[trigger] final(self).lookup_business(n) == old(
                    self,
                ).lookup_business(n),
            r is Ok ==> final(self).owner_view() == old(self).owner_view() && final(self).default_fee()
                == old(self).default_fee() && final(self).same_payments(old(self)),
    {
        if fee_percentage > MAX_FEE_BPS {
            return Err(Error::InvalidFeePercentage);
        }
        let found = self.find_business(&business_name);
        let config = BusinessConfig {
            name: business_name,
            owner: business_owner,
            fee_recipient,
            default_fee_percentage: fee_percentage,
            is_active: true,
        };
        let ghost pre = self.businesses_view();
        let ghost cv = config@;
        match found {
            Some(i) => {
                self.businesses.set(i, config);
                proof {
                    lemma_business_update(pre, i as int, cv);
                    assert(self.businesses_view() =~= pre.update(i as int, cv));
                }
            },
            None => {
                self.businesses.push(config);
                proof {
                    lemma_business_push(pre, cv);
                    assert(self.businesses_view() =~= pre.push(cv));
                }
            },
        }
        Ok(())
    }
    /// What `create_payment_request` decides: the fee it resolves, or why
    /// the request is refused.
    pub open spec fn creation_outcome(
        &self,
        amount: i128,
        business_name: Seq<char>,
        n_authorized: nat,
        custom_fee_percentage: Option<u32>,
    ) -> Result<u32, Error> {
        if amount <= 0 {
            Err(Error::InvalidAmount)
        } else if n_authorized == 0 {
            Err(Error::InvalidAddress)
        } else {
            match self.lookup_business(business_name) {
                None => Err(Error::BusinessNotActive),
                Some(b) => if !b.is_active {
                    Err(Error::BusinessNotActive)
                } else {
                    let fee = match custom_fee_percentage {
                        Some(f) => f,
                        None => b.default_fee_percentage,
                    };
                    if fee > MAX_FEE_BPS {
                        Err(Error::InvalidFeePercentage)
                    } else {
                        Ok(fee)
                    }
                },
            }
        }
    }

    /// The number of requests made so far, which is also the last id given.
    pub fn get_payment_counter(&self) -> (r: u64)
        requires
            self.wf(),
        ensures
            r == self.requests_view().len(),
    {
        self.requests.len() as u64
    }

    /// Makes a pending request for `amount` to `business_name`, which any one
    /// of `authorized_addresses` may settle, and returns its id. The fee is
    /// `custom_fee_percentage` or else the business's default, fixed now.
    pub fn create_payment_request(
        &mut self,
        amount: i128,
        business_name: String,
        description: String,
        denomination: String,
        authorized_addresses: Vec<Address>,
        requester: Address,
        custom_fee_percentage: Option<u32>,
        timestamp: u64,
    ) -> (r: Result<u64, Error>)
        requires
            old(self).wf(),
            old(self).requests_view().len() < u64::MAX,
        ensures
            final(self).wf(),
            match old(self).creation_outcome(
                amount,
                business_name@,
                authorized_addresses@.len(),
                custom_fee_percentage,
            ) {
                Err(e) => r == Err::<u64, Error>(e) && *final(self) == *old(self),
                Ok(fee) => {
                    let id = (old(self).requests_view().len() + 1) as u64;
                    &&& r == Ok::<u64, Error>(id)
                    &&& final(self).requests_view() == old(self).requests_view().push(
                        (RequestView {
                            id,
                            amount,
                            business_name: business_name@,
                            description: description@,
                            denomination: denomination@,
                            authorized_addresses: addresses_view(authorized_addresses@),
                            requester: requester@,
                            timestamp,
                            status: PaymentStatus::Pending,
                            fee_percentage: fee,
                        }),
                    )
                    &&& final(self).same_admin_and_registry(old(self))
                    &&& final(self).histories_view() == old(self).histories_view()
                },
            },
    {
        if amount <= 0 {
            return Err(Error::InvalidAmount);
        }
        if authorized_addresses.len() == 0 {
            return Err(Error::InvalidAddress);
        }
        let i = match self.find_business(&business_name) {
            None => {
                return Err(Error::BusinessNotActive);
            },
            Some(i) => i,
        };
        if !self.businesses[i].is_active {
            return Err(Error::BusinessNotActive);
        }
        let fee_percentage = match custom_fee_percentage {
            Some(f) => f,
            None => self.businesses[i].default_fee_percentage,
        };
        if fee_percentage > MAX_FEE_BPS {
            return Err(Error::InvalidFeePercentage);
        }
        let id: u64 = self.requests.len() as u64 + 1;
        let request = PaymentRequest {
            id,
            amount,
            business_name,
            description,
            denomination,
            authorized_addresses,
            requester,
            timestamp,
            status: PaymentStatus::Pending,
            fee_percentage,
        };
        let ghost pre = self.requests_view();
        self.requests.push(request);
        assert(self.requests_view() =~= pre.push(request@));
        Ok(id)
    }

    /// The request numbered `payment_id`.
    pub fn get_payment_request(&self, payment_id: u64) -> (r: Result<PaymentRequest, Error>)
        requires
            self.wf(),
        ensures
            match r {
                Ok(q) => self.lookup_request(payment_id) == Some(q@),
                Err(e) => self.lookup_request(payment_id) is None && e == Error::PaymentNotFound,
            },
    {
        if payment_id == 0 || payment_id > self.requests.len() as u64 {
            return Err(Error::PaymentNotFound);
        }
        Ok(self.requests[(payment_id - 1) as usize].duplicate())
    }

    /// The configuration registered under `business_name`.
    pub fn get_business_config(&self, business_name: String) -> (r: Result<BusinessConfig, Error>)
        requires
            self.wf(),
        ensures
            match r {
                Ok(b) => self.lookup_business(business_name@) == Some(b@),
                Err(e) => self.lookup_business(business_name@) is None && e == Error::BusinessNotActive,
            },
    {
        match self.find_business(&business_name) {
            Some(i) => Ok(self.businesses[i].duplicate()),
            None => Err(Error::BusinessNotActive),
        }
    }

    /// The place of `payer`'s history, if it has one.
    fn find_history(&self, payer: &Address) -> (r: Option<usize>)
        requires
            self.wf(),
        ensures
            match r {
                Some(i) => i < self.histories@.len() && value_in(self.histories_view(), payer@)
                    == Some(self.histories@[i as int].history) && self.histories@[i as int].payer@
                    == payer@,
                None => value_in(self.histories_view(), payer@) is None,
            },
    {
        let mut i: usize = 0;
        while i < self.histories.len()
            invariant
                self.wf(),
                i <= self.histories@.len(),
                forall|k: int| 0 <= k < i ==> (#[trigger] self.histories_view()[k]).0 != payer@,
            decreases self.histories@.len() - i,
        {
            if self.histories[i].payer.same_as(payer) {
                proof {
                    lemma_entry_at(self.histories_view(), i as int);
                }
                return Some(i);
            }
            i = i + 1;
        }
        proof {
            lemma_entry_absent(self.histories_view(), payer@);
        }
        None
    }

    /// What `address` has settled so far; all zero before its first
    /// settlement.
    pub fn get_payment_history(&self, address: Address) -> (r: PaymentHistory)
        requires
            self.wf(),
        ensures
            r == self.history_of(address@),
    {
        match self.find_history(&address) {
            Some(i) => self.histories[i].history,
            None => PaymentHistory::empty(),
        }
    }

    /// Counts one more settlement of `amount`, for request `payment_id`, in
    /// `payer`'s history, which it makes if there is none.
    fn update_payment_history(&mut self, payer: &Address, payment_id: u64, amount: i128)
        requires
            old(self).wf(),
        ensures
            final(self).wf(),
            final(self).same_admin_and_registry(old(self)),
            final(self).requests_view() == old(self).requests_view(),
            final(self).history_of(payer@) == history_after(
                old(self).history_of(payer@),
                payment_id,
                amount,
            ),
            forall|p: Seq<char>|
                p != payer@ ==> #[trigger] final(self).history_of(p) == old(self).history_of(p),
    {
        let ghost pre = self.histories_view();
        match self.find_history(payer) {
            Some(i) => {
                let mut history = self.histories[i].history;
                history.record(payment_id, amount);
                let entry = HistoryEntry { payer: payer.duplicate(), history };
                self.histories.set(i, entry);
                proof {
                    lemma_entry_update(pre, i as int, (payer@, history));
                    assert(self.histories_view() =~= pre.update(i as int, (payer@, history)));
                }
            },
            None => {
                let mut history = PaymentHistory::empty();
                history.record(payment_id, amount);
                let entry = HistoryEntry { payer: payer.duplicate(), history };
                self.histories.push(entry);
                proof {
                    lemma_entry_push(pre, (payer@, history));
                    assert(self.histories_view() =~= pre.push((payer@, history)));
                }
            },
        }
    }
    /// What a settlement of request `payment_id` by `payer` decides, where
    /// `payer_balance` is the payer's balance in the asset, when it is
    /// checked. The request must be pending, the payer one of its authorized
    /// addresses, its business still registered and the balance enough; the
    /// fee goes to the business's fee recipient and the rest to the requester.
    pub open spec fn settlement_outcome(
        &self,
        payment_id: u64,
        payer: Seq<char>,
        payer_balance: Option<i128>,
    ) -> Result<SettlementView, Error> {
        match self.lookup_request(payment_id) {
            None => Err(Error::PaymentNotFound),
            Some(req) => if req.status == PaymentStatus::Completed {
                Err(Error::PaymentAlreadyCompleted)
            } else if req.status != PaymentStatus::Pending {
                Err(Error::PaymentNotFound)
            } else if !req.authorized_addresses.contains(payer) {
                Err(Error::NotAuthorized)
            } else {
                match self.lookup_business(req.business_name) {
                    None => Err(Error::BusinessNotActive),
                    Some(b) => if payer_balance is Some && payer_balance->0 < req.amount {
                        Err(Error::InsufficientBalance)
                    } else {
                        let fee = fee_of(req.amount as int, req.fee_percentage as int);
                        Ok(
                            SettlementView {
                                payment_id,
                                payer,
                                requester: req.requester,
                                fee_recipient: b.fee_recipient,
                                net_amount: (req.amount - fee) as i128,
                                fee_amount: fee as i128,
                            },
                        )
                    },
                }
            },
        }
    }

    /// Whether `post` is `pre` after request `payment_id` was settled by
    /// `payer`: the request is completed, the payer's history counts it, and
    /// nothing else changed.
    pub open spec fn settled(
        pre: &PaymentContract,
        post: &PaymentContract,
        payment_id: u64,
        payer: Seq<char>,
    ) -> bool {
        let req = pre.requests_view()[payment_id - 1];
        &&& post.same_admin_and_registry(pre)
        &&& post.requests_view() == pre.requests_view().update(
            payment_id - 1,
            with_status(req, PaymentStatus::Completed),
        )
        &&& post.history_of(payer) == history_after(pre.history_of(payer), payment_id, req.amount)
        &&& forall|p: Seq<char>| p != payer ==> #[trigger] post.history_of(p) == pre.history_of(p)
    }

    /// Decides a settlement without making it.
    fn settlement_for(&self, payment_id: u64, payer: &Address, payer_balance: Option<i128>) -> (r:
        Result<Settlement, Error>)
        requires
            self.wf(),
        ensures
            match r {
                Ok(s) => self.settlement_outcome(payment_id, payer@, payer_balance) == Ok::<
                    SettlementView,
                    Error,
                >(s@),
                Err(e) => self.settlement_outcome(payment_id, payer@, payer_balance) == Err::<
                    SettlementView,
                    Error,
                >(e),
            },
    {
        if payment_id == 0 || payment_id > self.requests.len() as u64 {
            return Err(Error::PaymentNotFound);
        }
        let idx = (payment_id - 1) as usize;
        let req = &self.requests[idx];
        assert(self.requests_view()[idx as int] == req@);
        match req.status {
            PaymentStatus::Pending => {},
            PaymentStatus::Completed => {
                return Err(Error::PaymentAlreadyCompleted);
            },
            _ => {
                return Err(Error::PaymentNotFound);
            },
        }
        if !contains_address(&req.authorized_addresses, payer) {
            return Err(Error::NotAuthorized);
        }
        let b = match self.find_business(&req.business_name) {
            None => {
                return Err(Error::BusinessNotActive);
            },
            Some(b) => b,
        };
        match payer_balance {
            Some(balance) => {
                if balance < req.amount {
                    return Err(Error::InsufficientBalance);
                }
            },
            None => {},
        }
        let (fee_amount, net_amount) = split_amount(req.amount, req.fee_percentage);
        Ok(
            Settlement {
                payment_id,
                payer: payer.duplicate(),
                requester: req.requester.duplicate(),
                fee_recipient: self.businesses[b].fee_recipient.duplicate(),
                net_amount,
                fee_amount,
            },
        )
    }

    /// Marks request `payment_id` completed and counts it in `payer`'s
    /// history.
    fn complete(&mut self, payment_id: u64, payer: &Address)
        requires
            old(self).wf(),
            old(self).lookup_request(payment_id) is Some,
        ensures
            final(self).wf(),
            PaymentContract::settled(old(self), final(self), payment_id, payer@),
    {
        let len = self.requests.len();
        assert(payment_id - 1 < len);
        let idx = (payment_id - 1) as usize;
        let ghost pre = self.requests_view();
        let amount = self.requests[idx].amount;
        assert(pre[idx as int] == self.requests@[idx as int]@);
        self.requests[idx].status = PaymentStatus::Completed;
        assert(self.requests_view() =~= pre.update(idx as int, with_status(pre[idx as int], PaymentStatus::Completed)));
        self.update_payment_history(payer, payment_id, amount);
    }

    /// Settles request `payment_id` by `payer`, whose balance in the asset
    /// is `payer_balance`, and returns the transfers that settle it. On
    /// success the request is completed and `payer`'s history counts it; a
    /// completed request is never settled again.
    pub fn execute_payment(&mut self, payment_id: u64, payer: Address, payer_balance: i128) -> (r:
        Result<Settlement, Error>)
        requires
            old(self).wf(),
        ensures
            final(self).wf(),
            match r {
                Ok(s) => old(self).settlement_outcome(payment_id, payer@, Some(payer_balance))
                    == Ok::<SettlementView, Error>(s@) && PaymentContract::settled(
                    old(self),
                    final(self),
                    payment_id,
                    payer@,
                ),
                Err(e) => old(self).settlement_outcome(payment_id, payer@, Some(payer_balance))
                    == Err::<SettlementView, Error>(e) && *final(self) == *old(self),
            },
    {
        let s = self.settlement_for(payment_id, &payer, Some(payer_balance))?;
        self.complete(payment_id, &payer);
        Ok(s)
    }

    /// Settles request `payment_id` by `payer` in the ledger's native asset,
    /// where the ledger itself refuses a transfer beyond the payer's balance.
    pub fn execute_xlm_payment(&mut self, payment_id: u64, payer: Address) -> (r: Result<
        Settlement,
        Error,
    >)
        requires
            old(self).wf(),
        ensures
            final(self).wf(),
            match r {
                Ok(s) => old(self).settlement_outcome(payment_id, payer@, None) == Ok::<
                    SettlementView,
                    Error,
                >(s@) && PaymentContract::settled(old(self), final(self), payment_id, payer@),
                Err(e) => old(self).settlement_outcome(payment_id, payer@, None) == Err::<
                    SettlementView,
                    Error,
                >(e) && *final(self) == *old(self),
            },
    {
        let s = self.settlement_for(payment_id, &payer, None)?;
        self.complete(payment_id, &payer);
        Ok(s)
    }

    /// Whether `caller` is `other` or the contract's owner.
    fn is_owner_or(&self, caller: &Address, other: &Address) -> (r: bool)
        ensures
            r == (caller@ == other@ || self.owner_view() == Some(caller@)),
    {
        if caller.same_as(other) {
            return true;
        }
        match &self.owner {
            Some(o) => o.same_as(caller),
            None => false,
        }
    }

    /// What `cancel_payment_request` decides: the caller must be the
    /// requester or the owner, and the request still pending.
    pub open spec fn cancel_outcome(&self, payment_id: u64, caller: Seq<char>) -> Result<(), Error> {
        match self.lookup_request(payment_id) {
            None => Err(Error::PaymentNotFound),
            Some(req) => match self.owner_view() {
                None => Err(Error::ContractNotInitialized),
                Some(o) => if caller != req.requester && caller != o {
                    Err(Error::NotAuthorized)
                } else if req.status == PaymentStatus::Completed {
                    Err(Error::PaymentAlreadyCompleted)
                } else if req.status != PaymentStatus::Pending {
                    Err(Error::PaymentNotFound)
                } else {
                    Ok(())
                },
            },
        }
    }

    /// Cancels pending request `payment_id` on behalf of `caller`.
    pub fn cancel_payment_request(&mut self, payment_id: u64, caller: Address) -> (r: Result<
        (),
        Error,
    >)
        requires
            old(self).wf(),
        ensures
            final(self).wf(),
            r == old(self).cancel_outcome(payment_id, caller@),
            r is Ok ==> final(self).requests_view() == old(self).requests_view().update(
                payment_id - 1,
                with_status(old(self).requests_view()[payment_id - 1], PaymentStatus::Cancelled),
            ) && final(self).same_admin_and_registry(old(self)) && final(self).histories_view()
                == old(self).histories_view(),
            r is Err ==> *final(self) == *old(self),
    {
        if payment_id == 0 || payment_id > self.requests.len() as u64 {
            return Err(Error::PaymentNotFound);
        }
        let idx = (payment_id - 1) as usize;
        if self.owner.is_none() {
            return Err(Error::ContractNotInitialized);
        }
        if !self.is_owner_or(&caller, &self.requests[idx].requester) {
            return Err(Error::NotAuthorized);
        }
        match self.requests[idx].status {
            PaymentStatus::Pending => {},
            PaymentStatus::Completed => {
                return Err(Error::PaymentAlreadyCompleted);
            },
            _ => {
                return Err(Error::PaymentNotFound);
            },
        }
        let ghost pre = self.requests_view();
        self.requests[idx].status = PaymentStatus::Cancelled;
        assert(self.requests_view() =~= pre.update(idx as int, with_status(pre[idx as int], PaymentStatus::Cancelled)));
        Ok(())
    }

    /// What `update_business_status` decides: the business must be
    /// registered, and the caller its owner or the contract's owner.
    pub open spec fn status_update_outcome(&self, business_name: Seq<char>, caller: Seq<char>) -> Result<
        (),
        Error,
    > {
        match self.lookup_business(business_name) {
            None => Err(Error::BusinessNotActive),
            Some(b) => match self.owner_view() {
                None => Err(Error::ContractNotInitialized),
                Some(o) => if caller != b.owner && caller != o {
                    Err(Error::NotAuthorized)
                } else {
                    Ok(())
                },
            },
        }
    }

    /// Activates or deactivates `business_name` on behalf of `caller`.
    pub fn update_business_status(&mut self, business_name: String, is_active: bool, caller: Address) -> (r:
        Result<(), Error>)
        requires
            old(self).wf(),
        ensures
            final(self).wf(),
            r == old(self).status_update_outcome(business_name@, caller@),
            r is Ok ==> final(self).lookup_business(business_name@) == Some(
                (BusinessView { is_active, ..old(self).lookup_business(business_name@)->0 }),
            ),
            r is Ok ==> forall|n: Seq<char>|
                n != business_name@ ==> #[trigger] final(self).lookup_business(n) == old(
                    self,
                ).lookup_business(n),
            r is Ok ==> final(self).owner_view() == old(self).owner_view() && final(self).default_fee()
                == old(self).default_fee() && final(self).same_payments(old(self)),
            r is Err ==> *final(self) == *old(self),
    {
        let i = match self.find_business(&business_name) {
            None => {
                return Err(Error::BusinessNotActive);
            },
            Some(i) => i,
        };
        if self.owner.is_none() {
            return Err(Error::ContractNotInitialized);
        }
        if !self.is_owner_or(&caller, &self.businesses[i].owner) {
            return Err(Error::NotAuthorized);
        }
        let ghost pre = self.businesses_view();
        let mut config = self.businesses[i].duplicate();
        config.is_active = is_active;
        let ghost cv = config@;
        self.businesses.set(i, config);
        proof {
            lemma_business_update(pre, i as int, cv);
            assert(self.businesses_view() =~= pre.update(i as int, cv));
        }
        Ok(())
    }
    /// The engine's state as its parts: owner, default fee, businesses,
    /// requests and histories.
    pub fn into_parts(self) -> (r: (
        Option<Address>,
        u32,
        Vec<BusinessConfig>,
        Vec<PaymentRequest>,
        Vec<HistoryEntry>,
    ))
        ensures
            match r.0 {
                Some(a) => self.owner_view() == Some(a@),
                None => self.owner_view() is None,
            },
            r.1 == self.default_fee(),
            businesses_of(r.2@) == self.businesses_view(),
            requests_of(r.3@) == self.requests_view(),
            histories_of(r.4@) == self.histories_view(),
    {
        (self.owner, self.default_fee_percentage, self.businesses, self.requests, self.histories)
    }

    /// The engine whose state is these parts, where they make a well-formed
    /// state.
    pub fn from_parts(
        owner: Option<Address>,
        default_fee_percentage: u32,
        businesses: Vec<BusinessConfig>,
        requests: Vec<PaymentRequest>,
        histories: Vec<HistoryEntry>,
    ) -> (r: Option<PaymentContract>)
        ensures
            (r is Some) == parts_valid(
                default_fee_percentage,
                businesses_of(businesses@),
                requests_of(requests@),
                histories_of(histories@),
            ),
            r matches Some(c) ==> {
                &&& c.wf()
                &&& c.owner_view() == match owner {
                    Some(a) => Some(a@),
                    None => None,
                }
                &&& c.default_fee() == default_fee_percentage
                &&& c.businesses_view() == businesses_of(businesses@)
                &&& c.requests_view() == requests_of(requests@)
                &&& c.histories_view() == histories_of(histories@)
            },
    {
        if default_fee_percentage > MAX_FEE_BPS || !business_names_unique(&businesses)
            || !payers_distinct(&histories) || !business_fees_valid(&businesses) || !requests_valid(
            &requests,
        ) {
            return None;
        }
        let c = PaymentContract { owner, default_fee_percentage, businesses, requests, histories };
        assert forall|i: int| 0 <= i < c.businesses@.len() implies (
        #[trigger] c.businesses@[i]).default_fee_percentage <= MAX_FEE_BPS by {
            assert(businesses_of(c.businesses@)[i] == c.businesses@[i]@);
        }
        assert forall|i: int| 0 <= i < c.requests@.len() implies {
            let q = #[trigger] c.requests@[i];
            &&& q.id == i + 1
            &&& q.amount > 0
            &&& q.fee_percentage <= MAX_FEE_BPS
            &&& q.authorized_addresses@.len() > 0
        } by {
            assert(requests_of(c.requests@)[i] == c.requests@[i]@);
        }
        Some(c)
    }
}

} // verus!
