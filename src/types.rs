//! The records that the payment engine keeps and hands out.
use vstd::prelude::*;

verus! {

/// An account on the ledger, by its public string form.
#[derive(Debug, Clone)]
pub struct Address {
    pub key: String,
}

impl View for Address {
    type V = Seq<char>;

    open spec fn view(&self) -> Seq<char> {
        self.key@
    }
}

impl PartialEq for Address {
    fn eq(&self, o: &Address) -> (r: bool) {
        self.key == o.key
    }
}

impl vstd::std_specs::cmp::PartialEqSpecImpl for Address {
    open spec fn obeys_eq_spec() -> bool {
        true
    }

    open spec fn eq_spec(&self, o: &Address) -> bool {
        self.key@ == o.key@
    }
}

impl Eq for Address {
}

impl Address {
    pub fn new(key: String) -> (r: Address)
        ensures
            r.key == key,
    {
        Address { key }
    }

    /// An equal copy of this address.
    pub fn duplicate(&self) -> (r: Address)
        ensures
            r == *self,
    {
        Address { key: self.key.clone() }
    }

    pub fn same_as(&self, o: &Address) -> (r: bool)
        ensures
            r == (self@ == o@),
    {
        self.key == o.key
    }
}

/// The states of a payment request. `Authorized` and `Failed` are declared
/// for later use; no operation of the engine enters them.
#[derive(Debug, Clone, Copy, PartialEq, Eq, Structural)]
pub enum PaymentStatus {
    Pending,
    Authorized,
    Completed,
    Failed,
    Cancelled,
}

/// The typed failures of the engine's operations.
#[derive(Debug, Clone, Copy, PartialEq, Eq, Structural)]
pub enum Error {
    NotAuthorized,
    PaymentNotFound,
    InvalidAmount,
    InvalidFeePercentage,
    PaymentAlreadyCompleted,
    BusinessNotActive,
    InsufficientBalance,
    InvalidAddress,
    PaymentExpired,
    ContractNotInitialized,
}

/// A registered business: who owns it, who receives its fees, and its fee in
/// basis points.
#[derive(Debug, Clone)]
pub struct BusinessConfig {
    pub name: String,
    pub owner: Address,
    pub fee_recipient: Address,
    pub default_fee_percentage: u32,
    pub is_active: bool,
}

/// What a business configuration says, as plain values.
pub ghost struct BusinessView {
    pub name: Seq<char>,
    pub owner: Seq<char>,
    pub fee_recipient: Seq<char>,
    pub default_fee_percentage: u32,
    pub is_active: bool,
}

impl View for BusinessConfig {
    type V = BusinessView;

    open spec fn view(&self) -> BusinessView {
        BusinessView {
            name: self.name@,
            owner: self.owner@,
            fee_recipient: self.fee_recipient@,
            default_fee_percentage: self.default_fee_percentage,
            is_active: self.is_active,
        }
    }
}

impl BusinessConfig {
    /// An equal copy of this configuration.
    pub fn duplicate(&self) -> (r: BusinessConfig)
        ensures
            r == *self,
            r@ == self@,
    {
        BusinessConfig {
            name: self.name.clone(),
            owner: self.owner.duplicate(),
            fee_recipient: self.fee_recipient.duplicate(),
            default_fee_percentage: self.default_fee_percentage,
            is_active: self.is_active,
        }
    }
}

/// A request for `amount` that any one of `authorized_addresses` may settle.
/// `fee_percentage` is fixed when the request is made.
#[derive(Debug, Clone)]
pub struct PaymentRequest {
    pub id: u64,
    pub amount: i128,
    pub business_name: String,
    pub description: String,
    pub denomination: String,
    pub authorized_addresses: Vec<Address>,
    pub requester: Address,
    pub timestamp: u64,
    pub status: PaymentStatus,
    pub fee_percentage: u32,
}

/// A list of addresses as plain values.
pub open spec fn addresses_view(addrs: Seq<Address>) -> Seq<Seq<char>> {
    addrs.map_values(|a: Address| a@)
}

/// What a payment request says, as plain values.
pub ghost struct RequestView {
    pub id: u64,
    pub amount: i128,
    pub business_name: Seq<char>,
    pub description: Seq<char>,
    pub denomination: Seq<char>,
    pub authorized_addresses: Seq<Seq<char>>,
    pub requester: Seq<char>,
    pub timestamp: u64,
    pub status: PaymentStatus,
    pub fee_percentage: u32,
}

impl View for PaymentRequest {
    type V = RequestView;

    open spec fn view(&self) -> RequestView {
        RequestView {
            id: self.id,
            amount: self.amount,
            business_name: self.business_name@,
            description: self.description@,
            denomination: self.denomination@,
            authorized_addresses: addresses_view(self.authorized_addresses@),
            requester: self.requester@,
            timestamp: self.timestamp,
            status: self.status,
            fee_percentage: self.fee_percentage,
        }
    }
}

/// An equal copy of a list of addresses.
pub fn duplicate_addresses(addrs: &Vec<Address>) -> (r: Vec<Address>)
    ensures
        r@ == addrs@,
{
    let mut r: Vec<Address> = Vec::new();
    let mut i: usize = 0;
    while i < addrs.len()
        invariant
            i <= addrs@.len(),
            r@ == addrs@.subrange(0, i as int),
        decreases addrs@.len() - i,
    {
        r.push(addrs[i].duplicate());
        i = i + 1;
        assert(r@ =~= addrs@.subrange(0, i as int));
    }
    assert(r@ =~= addrs@);
    r
}

/// Whether `addr` is in `addrs`, by a scan.
pub fn contains_address(addrs: &Vec<Address>, addr: &Address) -> (r: bool)
    ensures
        r == addresses_view(addrs@).contains(addr@),
{
    proof {
        if addresses_view(addrs@).contains(addr@) {
            let k = choose|k: int| 0 <= k < addrs@.len() && addresses_view(addrs@)[k] == addr@;
            assert(addrs@[k]@ == addr@);
        }
    }
    let mut i: usize = 0;
    while i < addrs.len()
        invariant
            i <= addrs@.len(),
            forall|k: int| 0 <= k < i ==> (#[trigger] addrs@[k])@ != addr@,
        decreases addrs@.len() - i,
    {
        if addrs[i].same_as(addr) {
            assert(addresses_view(addrs@)[i as int] == addr@);
            return true;
        }
        i = i + 1;
    }
    false
}

impl PaymentRequest {
    /// An equal copy of this request.
    pub fn duplicate(&self) -> (r: PaymentRequest)
        ensures
            r@ == self@,
    {
        let addrs = duplicate_addresses(&self.authorized_addresses);
        PaymentRequest {
            id: self.id,
            amount: self.amount,
            business_name: self.business_name.clone(),
            description: self.description.clone(),
            denomination: self.denomination.clone(),
            authorized_addresses: addrs,
            requester: self.requester.duplicate(),
            timestamp: self.timestamp,
            status: self.status,
            fee_percentage: self.fee_percentage,
        }
    }
}

/// What one payer has settled so far.
#[derive(Debug, Clone, Copy, PartialEq, Eq, Structural)]
pub struct PaymentHistory {
    pub total_payments: u64,
    pub total_amount: i128,
    pub last_payment_id: u64,
}

/// The history of a payer who has settled nothing.
pub open spec fn empty_history() -> PaymentHistory {
    PaymentHistory { total_payments: 0, total_amount: 0, last_payment_id: 0 }
}

/// `h` after one more settlement of `amount` for request `payment_id`. The
/// counters stop at their largest values rather than wrap.
pub open spec fn history_after(h: PaymentHistory, payment_id: u64, amount: i128) -> PaymentHistory {
    PaymentHistory {
        total_payments: if h.total_payments == u64::MAX {
            u64::MAX
        } else {
            (h.total_payments + 1) as u64
        },
        total_amount: if h.total_amount + amount > i128::MAX {
            i128::MAX
        } else if h.total_amount + amount < i128::MIN {
            i128::MIN
        } else {
            (h.total_amount + amount) as i128
        },
        last_payment_id: payment_id,
    }
}

impl PaymentHistory {
    pub fn empty() -> (r: PaymentHistory)
        ensures
            r == empty_history(),
    {
        PaymentHistory { total_payments: 0, total_amount: 0, last_payment_id: 0 }
    }

    /// Counts one more settlement of `amount` for request `payment_id`.
    pub fn record(&mut self, payment_id: u64, amount: i128)
        ensures
            *final(self) == history_after(*old(self), payment_id, amount),
    {
        self.total_payments = self.total_payments.saturating_add(1);
        self.total_amount = match self.total_amount.checked_add(amount) {
            Some(v) => v,
            None => if amount > 0 {
                i128::MAX
            } else {
                i128::MIN
            },
        };
        self.last_payment_id = payment_id;
    }
}

/// The transfers that settle a request: `net_amount` from `payer` to
/// `requester` and `fee_amount` from `payer` to `fee_recipient`. A leg of
/// zero is not made.
#[derive(Debug, Clone)]
pub struct Settlement {
    pub payment_id: u64,
    pub payer: Address,
    pub requester: Address,
    pub fee_recipient: Address,
    pub net_amount: i128,
    pub fee_amount: i128,
}

/// What a settlement says, as plain values.
pub ghost struct SettlementView {
    pub payment_id: u64,
    pub payer: Seq<char>,
    pub requester: Seq<char>,
    pub fee_recipient: Seq<char>,
    pub net_amount: i128,
    pub fee_amount: i128,
}

impl View for Settlement {
    type V = SettlementView;

    open spec fn view(&self) -> SettlementView {
        SettlementView {
            payment_id: self.payment_id,
            payer: self.payer@,
            requester: self.requester@,
            fee_recipient: self.fee_recipient@,
            net_amount: self.net_amount,
            fee_amount: self.fee_amount,
        }
    }
}

} // verus!
