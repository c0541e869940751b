//! Direct payments: a sender pays a business's own address, which must be
//! one of the contract's authorized addresses and have an active
//! configuration that admits the amount. Each payment gets the next id of a
//! counter and is kept as a record.
use vstd::prelude::*;
use crate::keyed::{
    keys_unique, lemma_entry_absent, lemma_entry_at, lemma_entry_push, lemma_entry_update,
    value_in,
};
use crate::types::{addresses_view, contains_address, duplicate_addresses, Address};

verus! {

/// The configurations of `v`, as plain values.
pub open spec fn configs_of(v: Seq<(Address, BusinessConfig)>) -> Seq<(Seq<char>, BusinessConfig)> {
    v.map_values(|e: (Address, BusinessConfig)| (e.0@, e.1))
}

/// The payments of `v`, as plain values.
pub open spec fn payments_of(v: Seq<PaymentRecord>) -> Seq<RecordView> {
    v.map_values(|p: PaymentRecord| p@)
}

/// Whether no two of `v` configure the same business.
fn config_keys_unique(v: &Vec<(Address, BusinessConfig)>) -> (r: bool)
    ensures
        r == keys_unique(configs_of(v@)),
{
    let ghost s = configs_of(v@);
    let mut i: usize = 0;
    while i < v.len()
        invariant
            i <= v@.len(),
            s == configs_of(v@),
            forall|a: int, b: int| 0 <= a < i && 0 <= b < i && a != b ==> (#[trigger] s[a]).0 != (#[trigger] s[b]).0,
        decreases v@.len() - i,
    {
        let mut j: usize = 0;
        while j < i
            invariant
                i < v@.len(),
                j <= i,
                s == configs_of(v@),
                forall|a: int, b: int| 0 <= a < i && 0 <= b < i && a != b ==> (#[trigger] s[a]).0 != (#[trigger] s[b]).0,
                forall|k: int| 0 <= k < j ==> (#[trigger] s[k]).0 != s[i as int].0,
            decreases i - j,
        {
            if v[j].0.same_as(&v[i].0) {
                assert(s[j as int].0 == s[i as int].0);
                return false;
            }
            j = j + 1;
        }
        i = i + 1;
    }
    true
}

/// Whether every payment of `v` is numbered by its place.
fn payments_numbered(v: &Vec<PaymentRecord>) -> (r: bool)
    ensures
        r == forall|i: int| 0 <= i < v@.len() ==> (#[trigger] v@[i]).payment_id == i + 1,
{
    let mut i: usize = 0;
    while i < v.len()
        invariant
            i <= v@.len(),
            forall|k: int| 0 <= k < i ==> (#[trigger] v@[k]).payment_id == k + 1,
        decreases v@.len() - i,
    {
        if v[i].payment_id as u128 != i as u128 + 1 {
            return false;
        }
        i = i + 1;
    }
    true
}

/// A business's terms for direct payments: its fee in basis points and the
/// amounts it accepts, both ends included.
#[derive(Debug, Clone, Copy, PartialEq, Eq, Structural)]
pub struct BusinessConfig {
    pub fee_rate: i128,
    pub min_amount: i128,
    pub max_amount: i128,
    pub is_active: bool,
}

/// Why a direct payment was refused.
#[derive(Debug, Clone, Copy, PartialEq, Eq, Structural)]
pub enum DirectError {
    AuthorizedAddressesNotSet,
    RecipientNotAuthorized,
    BusinessNotConfigured,
    BusinessNotActive,
    AmountOutOfRange,
}

impl DirectError {
    /// The error's message.
    pub fn message(&self) -> &'static str {
        match self {
            DirectError::AuthorizedAddressesNotSet => "Authorized addresses not set",
            DirectError::RecipientNotAuthorized => "Recipient not authorized",
            DirectError::BusinessNotConfigured => "Business not configured",
            DirectError::BusinessNotActive => "Business not active",
            DirectError::AmountOutOfRange => "Amount out of range",
        }
    }
}

/// What a direct payment was.
#[derive(Debug, Clone)]
pub struct PaymentDetails {
    pub amount: i128,
    pub sender: Address,
    pub recipient: Address,
    pub token_address: Address,
    pub business_name: String,
    pub customer_name: String,
    pub order_id: String,
}

/// A direct payment, as kept.
#[derive(Debug, Clone)]
pub struct PaymentRecord {
    pub payment_id: u64,
    pub details: PaymentDetails,
    pub timestamp: u64,
    pub status: String,
}

/// What a payment record says, as plain values.
pub ghost struct RecordView {
    pub payment_id: u64,
    pub amount: i128,
    pub sender: Seq<char>,
    pub recipient: Seq<char>,
    pub token_address: Seq<char>,
    pub business_name: Seq<char>,
    pub customer_name: Seq<char>,
    pub order_id: Seq<char>,
    pub timestamp: u64,
    pub status: Seq<char>,
}

impl View for PaymentRecord {
    type V = RecordView;

    open spec fn view(&self) -> RecordView {
        RecordView {
            payment_id: self.payment_id,
            amount: self.details.amount,
            sender: self.details.sender@,
            recipient: self.details.recipient@,
            token_address: self.details.token_address@,
            business_name: self.details.business_name@,
            customer_name: self.details.customer_name@,
            order_id: self.details.order_id@,
            timestamp: self.timestamp,
            status: self.status@,
        }
    }
}

impl PaymentRecord {
    /// An equal copy of this record.
    pub fn duplicate(&self) -> (r: PaymentRecord)
        ensures
            r@ == self@,
    {
        PaymentRecord {
            payment_id: self.payment_id,
            details: PaymentDetails {
                amount: self.details.amount,
                sender: self.details.sender.duplicate(),
                recipient: self.details.recipient.duplicate(),
                token_address: self.details.token_address.duplicate(),
                business_name: self.details.business_name.clone(),
                customer_name: self.details.customer_name.clone(),
                order_id: self.details.order_id.clone(),
            },
            timestamp: self.timestamp,
            status: self.status.clone(),
        }
    }
}

/// The transfers of a token payment: `net_amount` from the sender to the
/// recipient, and `fee_amount` from the sender to the contract when it is
/// positive.
#[derive(Debug, Clone, Copy, PartialEq, Eq, Structural)]
pub struct TokenPayment {
    pub payment_id: u64,
    pub net_amount: i128,
    pub fee_amount: i128,
}

/// Division by a positive `d` that truncates toward zero.
pub open spec fn trunc_div(x: int, d: int) -> int {
    if x >= 0 {
        x / d
    } else {
        -((-x) / d)
    }
}

/// The fee and the net amount of a direct payment of `amount` at `fee_rate`
/// basis points; the fee truncates toward zero. `None` where a value does not
/// fit in an `i128`.
pub open spec fn direct_split(amount: i128, fee_rate: i128) -> Option<(i128, i128)> {
    let product = amount * fee_rate;
    let fee = trunc_div(product, 10000);
    if product < i128::MIN || product > i128::MAX || amount - fee < i128::MIN || amount - fee
        > i128::MAX {
        None
    } else {
        Some((fee as i128, (amount - fee) as i128))
    }
}

fn split_direct(amount: i128, fee_rate: i128) -> (r: Option<(i128, i128)>)
    ensures
        r == direct_split(amount, fee_rate),
{
    let product = match amount.checked_mul(fee_rate) {
        Some(p) => p,
        None => {
            return None;
        },
    };
    let fee: i128 = product / 10000;
    assert(fee == trunc_div(product as int, 10000)) by {
        if product < 0 {
            assert(-(product as int) >= 0);
        }
    }
    match amount.checked_sub(fee) {
        Some(net) => Some((fee, net)),
        None => None,
    }
}

/// The direct-payment contract's whole state. Payments are numbered from 1
/// in the order they were made.
pub struct PaymentContract {
    authorized_addresses: Option<Vec<Address>>,
    configs: Vec<(Address, BusinessConfig)>,
    payments: Vec<PaymentRecord>,
}

impl PaymentContract {
    pub closed spec fn authorized_view(&self) -> Option<Seq<Seq<char>>> {
        match self.authorized_addresses {
            Some(v) => Some(addresses_view(v@)),
            None => None,
        }
    }

    pub closed spec fn configs_view(&self) -> Seq<(Seq<char>, BusinessConfig)> {
        configs_of(self.configs@)
    }

    /// The payments made so far; payment `id` stands at `id - 1`.
    pub closed spec fn payments_view(&self) -> Seq<RecordView> {
        payments_of(self.payments@)
    }

    /// The invariant: one configuration per business address, and each
    /// payment numbered by its place.
    pub closed spec fn wf(&self) -> bool {
        &&& keys_unique(self.configs_view())
        &&& forall|i: int| 0 <= i < self.payments@.len() ==> (#[trigger] self.payments@[i]).payment_id == i + 1
    }

    /// The configuration of the business at `business`, if it has one.
    pub open spec fn config_of(&self, business: Seq<char>) -> Option<BusinessConfig> {
        value_in(self.configs_view(), business)
    }

    /// The payment numbered `id`, if it was made.
    pub open spec fn lookup_payment(&self, id: u64) -> Option<RecordView> {
        if 1 <= id <= self.payments_view().len() {
            Some(self.payments_view()[id - 1])
        } else {
            None
        }
    }

    /// What a payment of `amount` to `recipient` decides: its fee and net
    /// amount, or why it is refused.
    pub open spec fn payment_outcome(&self, recipient: Seq<char>, amount: i128) -> Result<
        (i128, i128),
        DirectError,
    > {
        match self.authorized_view() {
            None => Err(DirectError::AuthorizedAddressesNotSet),
            Some(auth) => if !auth.contains(recipient) {
                Err(DirectError::RecipientNotAuthorized)
            } else {
                match self.config_of(recipient) {
                    None => Err(DirectError::BusinessNotConfigured),
                    Some(c) => if !c.is_active {
                        Err(DirectError::BusinessNotActive)
                    } else if amount < c.min_amount || amount > c.max_amount {
                        Err(DirectError::AmountOutOfRange)
                    } else {
                        match direct_split(amount, c.fee_rate) {
                            None => Err(DirectError::AmountOutOfRange),
                            Some(split) => Ok(split),
                        }
                    },
                }
            },
        }
    }

    /// A contract with no authorized address, no configuration and no
    /// payment.
    pub fn new() -> (r: PaymentContract)
        ensures
            r.wf(),
            r.authorized_view() is None,
            forall|b: Seq<char>| #[trigger] r.config_of(b) is None,
            r.payments_view().len() == 0,
    {
        let r = PaymentContract { authorized_addresses: None, configs: Vec::new(), payments: Vec::new() };
        assert(r.payments_view().len() == 0);
        r
    }

    /// Sets the addresses that may receive direct payments, on behalf of
    /// `admin`. Payments already made, and their numbering, stay.
    pub fn initialize(&mut self, admin: Address, authorized_addresses: Vec<Address>) -> (r: Result<
        (),
        DirectError,
    >)
        requires
            old(self).wf(),
        ensures
            final(self).wf(),
            r is Ok,
            final(self).authorized_view() == Some(addresses_view(authorized_addresses@)),
            final(self).configs_view() == old(self).configs_view(),
            final(self).payments_view() == old(self).payments_view(),
    {
        self.authorized_addresses = Some(authorized_addresses);
        Ok(())
    }

    /// The place of `business`'s configuration, if it has one.
    fn find_config(&self, business: &Address) -> (r: Option<usize>)
        requires
            self.wf(),
        ensures
            match r {
                Some(i) => i < self.configs@.len() && self.config_of(business@) == Some(
                    self.configs@[i as int].1,
                ) && self.configs@[i as int].0@ == business@,
                None => self.config_of(business@) is None,
            },
    {
        let mut i: usize = 0;
        while i < self.configs.len()
            invariant
                self.wf(),
                i <= self.configs@.len(),
                forall|k: int| 0 <= k < i ==> (#[trigger] self.configs_view()[k]).0 != business@,
            decreases self.configs@.len() - i,
        {
            if self.configs[i].0.same_as(business) {
                proof {
                    lemma_entry_at(self.configs_view(), i as int);
                }
                return Some(i);
            }
            i = i + 1;
        }
        proof {
            lemma_entry_absent(self.configs_view(), business@);
        }
        None
    }

    /// Sets the terms of the business at `business_address`, active,
    /// replacing any it had.
    pub fn configure_business(
        &mut self,
        business_address: Address,
        fee_rate: i128,
        min_amount: i128,
        max_amount: i128,
    ) -> (r: Result<(), DirectError>)
        requires
            old(self).wf(),
        ensures
            final(self).wf(),
            r is Ok,
            final(self).config_of(business_address@) == Some(
                (BusinessConfig { fee_rate, min_amount, max_amount, is_active: true }),
            ),
            forall|b: Seq<char>|
                b != business_address@ ==> #[trigger] final(self).config_of(b) == old(self).config_of(b),
            final(self).authorized_view() == old(self).authorized_view(),
            final(self).payments_view() == old(self).payments_view(),
    {
        let config = BusinessConfig { fee_rate, min_amount, max_amount, is_active: true };
        self.store_config(business_address, config);
        Ok(())
    }

    fn store_config(&mut self, business: Address, config: BusinessConfig)
        requires
            old(self).wf(),
        ensures
            final(self).wf(),
            final(self).config_of(business@) == Some(config),
            forall|b: Seq<char>|
                b != business@ ==> #[trigger] final(self).config_of(b) == old(self).config_of(b),
            final(self).authorized_view() == old(self).authorized_view(),
            final(self).payments_view() == old(self).payments_view(),
    {
        let ghost pre = self.configs_view();
        let ghost e = (business@, config);
        match self.find_config(&business) {
            Some(i) => {
                self.configs.set(i, (business, config));
                proof {
                    lemma_entry_update(pre, i as int, e);
                    assert(self.configs_view() =~= pre.update(i as int, e));
                }
            },
            None => {
                self.configs.push((business, config));
                proof {
                    lemma_entry_push(pre, e);
                    assert(self.configs_view() =~= pre.push(e));
                }
            },
        }
    }

    /// Activates or deactivates the business at `business_address`, which
    /// must be configured.
    pub fn update_business_status(&mut self, business_address: Address, is_active: bool) -> (r:
        Result<(), DirectError>)
        requires
            old(self).wf(),
        ensures
            final(self).wf(),
            (r is Err) == (old(self).config_of(business_address@) is None),
            r is Err ==> r == Err::<(), DirectError>(DirectError::BusinessNotConfigured),
            r is Err ==> *final(self) == *old(self),
            r is Ok ==> final(self).config_of(business_address@) == Some(
                (BusinessConfig { is_active, ..old(self).config_of(business_address@)->0 }),
            ),
            r is Ok ==> forall|b: Seq<char>|
                b != business_address@ ==> #[trigger] final(self).config_of(b) == old(self).config_of(b),
            final(self).authorized_view() == old(self).authorized_view(),
            final(self).payments_view() == old(self).payments_view(),
    {
        let i = match self.find_config(&business_address) {
            None => {
                return Err(DirectError::BusinessNotConfigured);
            },
            Some(i) => i,
        };
        let mut config = self.configs[i].1;
        config.is_active = is_active;
        self.store_config(business_address, config);
        Ok(())
    }

    /// The terms of the business at `business_address`, if it has any.
    pub fn get_business_config(&self, business_address: Address) -> (r: Option<BusinessConfig>)
        requires
            self.wf(),
        ensures
            r == self.config_of(business_address@),
    {
        match self.find_config(&business_address) {
            Some(i) => Some(self.configs[i].1),
            None => None,
        }
    }

    /// The addresses that may receive direct payments, once set.
    pub fn get_authorized_addresses(&self) -> (r: Option<Vec<Address>>)
        ensures
            match r {
                Some(v) => self.authorized_view() == Some(addresses_view(v@)),
                None => self.authorized_view() is None,
            },
    {
        match &self.authorized_addresses {
            Some(v) => Some(duplicate_addresses(v)),
            None => None,
        }
    }

    /// The number of payments made, which is also the last id given.
    pub fn get_payment_counter(&self) -> (r: u64)
        ensures
            r == self.payments_view().len(),
    {
        self.payments.len() as u64
    }

    /// The payment numbered `payment_id`, if it was made.
    pub fn get_payment(&self, payment_id: u64) -> (r: Option<PaymentRecord>)
        requires
            self.wf(),
        ensures
            match r {
                Some(p) => self.lookup_payment(payment_id) == Some(p@),
                None => self.lookup_payment(payment_id) is None,
            },
    {
        if payment_id == 0 || payment_id > self.payments.len() as u64 {
            return None;
        }
        Some(self.payments[(payment_id - 1) as usize].duplicate())
    }
    /// Whether `post` is `pre` with one more payment, numbered next, and
    /// nothing else changed.
    pub open spec fn recorded(pre: &PaymentContract, post: &PaymentContract, record: RecordView) -> bool {
        &&& record.payment_id == pre.payments_view().len() + 1
        &&& post.payments_view() == pre.payments_view().push(record)
        &&& post.authorized_view() == pre.authorized_view()
        &&& post.configs_view() == pre.configs_view()
    }

    /// Checks a payment of `amount` to `recipient` and keeps its record.
    fn record_payment(
        &mut self,
        sender: Address,
        recipient: Address,
        token_address: Address,
        amount: i128,
        business_name: String,
        customer_name: String,
        order_id: String,
        timestamp: u64,
    ) -> (r: Result<TokenPayment, DirectError>)
        requires
            old(self).wf(),
            old(self).payments_view().len() < u64::MAX,
        ensures
            final(self).wf(),
            match old(self).payment_outcome(recipient@, amount) {
                Err(e) => r == Err::<TokenPayment, DirectError>(e) && *final(self) == *old(self),
                Ok(split) => {
                    let id = (old(self).payments_view().len() + 1) as u64;
                    &&& r == Ok::<TokenPayment, DirectError>(
                        TokenPayment { payment_id: id, net_amount: split.1, fee_amount: split.0 },
                    )
                    &&& PaymentContract::recorded(
                        old(self),
                        final(self),
                        RecordView {
                            payment_id: id,
                            amount,
                            sender: sender@,
                            recipient: recipient@,
                            token_address: token_address@,
                            business_name: business_name@,
                            customer_name: customer_name@,
                            order_id: order_id@,
                            timestamp,
                            status: "COMPLETE"@,
                        },
                    )
                },
            },
    {
        let authorized = match &self.authorized_addresses {
            None => {
                return Err(DirectError::AuthorizedAddressesNotSet);
            },
            Some(v) => v,
        };
        if !contains_address(authorized, &recipient) {
            return Err(DirectError::RecipientNotAuthorized);
        }
        let i = match self.find_config(&recipient) {
            None => {
                return Err(DirectError::BusinessNotConfigured);
            },
            Some(i) => i,
        };
        let config = self.configs[i].1;
        if !config.is_active {
            return Err(DirectError::BusinessNotActive);
        }
        if amount < config.min_amount || amount > config.max_amount {
            return Err(DirectError::AmountOutOfRange);
        }
        let (fee, net) = match split_direct(amount, config.fee_rate) {
            None => {
                return Err(DirectError::AmountOutOfRange);
            },
            Some(split) => split,
        };
        let payment_id: u64 = self.payments.len() as u64 + 1;
        let record = PaymentRecord {
            payment_id,
            details: PaymentDetails {
                amount,
                sender,
                recipient,
                token_address,
                business_name,
                customer_name,
                order_id,
            },
            timestamp,
            status: String::from_str("COMPLETE"),
        };
        let ghost pre = self.payments_view();
        self.payments.push(record);
        assert(self.payments_view() =~= pre.push(record@));
        Ok(TokenPayment { payment_id, net_amount: net, fee_amount: fee })
    }

    /// Records a payment of `amount` in the ledger's native asset from
    /// `sender` to the business at `recipient`, and returns its id. The
    /// record names `native_asset` as the asset.
    pub fn process_xlm_payment(
        &mut self,
        sender: Address,
        recipient: Address,
        amount: i128,
        business_name: String,
        customer_name: String,
        order_id: String,
        timestamp: u64,
        native_asset: Address,
    ) -> (r: Result<u64, DirectError>)
        requires
            old(self).wf(),
            old(self).payments_view().len() < u64::MAX,
        ensures
            final(self).wf(),
            match old(self).payment_outcome(recipient@, amount) {
                Err(e) => r == Err::<u64, DirectError>(e) && *final(self) == *old(self),
                Ok(_) => {
                    let id = (old(self).payments_view().len() + 1) as u64;
                    &&& r == Ok::<u64, DirectError>(id)
                    &&& PaymentContract::recorded(
                        old(self),
                        final(self),
                        RecordView {
                            payment_id: id,
                            amount,
                            sender: sender@,
                            recipient: recipient@,
                            token_address: native_asset@,
                            business_name: business_name@,
                            customer_name: customer_name@,
                            order_id: order_id@,
                            timestamp,
                            status: "COMPLETE"@,
                        },
                    )
                },
            },
    {
        let p = self.record_payment(
            sender,
            recipient,
            native_asset,
            amount,
            business_name,
            customer_name,
            order_id,
            timestamp,
        )?;
        Ok(p.payment_id)
    }

    /// Records a payment of `amount` in the token at `token_address` from
    /// `sender` to the business at `recipient`, and returns the transfers
    /// that make it.
    pub fn process_token_payment(
        &mut self,
        sender: Address,
        recipient: Address,
        token_address: Address,
        amount: i128,
        business_name: String,
        customer_name: String,
        order_id: String,
        timestamp: u64,
    ) -> (r: Result<TokenPayment, DirectError>)
        requires
            old(self).wf(),
            old(self).payments_view().len() < u64::MAX,
        ensures
            final(self).wf(),
            match old(self).payment_outcome(recipient@, amount) {
                Err(e) => r == Err::<TokenPayment, DirectError>(e) && *final(self) == *old(self),
                Ok(split) => {
                    let id = (old(self).payments_view().len() + 1) as u64;
                    &&& r == Ok::<TokenPayment, DirectError>(
                        TokenPayment { payment_id: id, net_amount: split.1, fee_amount: split.0 },
                    )
                    &&& PaymentContract::recorded(
                        old(self),
                        final(self),
                        RecordView {
                            payment_id: id,
                            amount,
                            sender: sender@,
                            recipient: recipient@,
                            token_address: token_address@,
                            business_name: business_name@,
                            customer_name: customer_name@,
                            order_id: order_id@,
                            timestamp,
                            status: "COMPLETE"@,
                        },
                    )
                },
            },
    {
        self.record_payment(
            sender,
            recipient,
            token_address,
            amount,
            business_name,
            customer_name,
            order_id,
            timestamp,
        )
    }
    /// The contract's state as its parts: authorized addresses,
    /// configurations and payments.
    pub fn into_parts(self) -> (r: (
        Option<Vec<Address>>,
        Vec<(Address, BusinessConfig)>,
        Vec<PaymentRecord>,
    ))
        ensures
            match r.0 {
                Some(v) => self.authorized_view() == Some(addresses_view(v@)),
                None => self.authorized_view() is None,
            },
            configs_of(r.1@) == self.configs_view(),
            payments_of(r.2@) == self.payments_view(),
    {
        (self.authorized_addresses, self.configs, self.payments)
    }

    /// The contract whose state is these parts, where no business has two
    /// configurations and each payment is numbered by its place.
    pub fn from_parts(
        authorized_addresses: Option<Vec<Address>>,
        configs: Vec<(Address, BusinessConfig)>,
        payments: Vec<PaymentRecord>,
    ) -> (r: Option<PaymentContract>)
        ensures
            (r is Some) == (keys_unique(configs_of(configs@)) && forall|i: int|
                0 <= i < payments@.len() ==> (#[trigger] payments@[i]).payment_id == i + 1),
            r matches Some(c) ==> {
                &&& c.wf()
                &&& c.authorized_view() == match authorized_addresses {
                    Some(v) => Some(addresses_view(v@)),
                    None => None,
                }
                &&& c.configs_view() == configs_of(configs@)
                &&& c.payments_view() == payments_of(payments@)
            },
    {
        if !config_keys_unique(&configs) || !payments_numbered(&payments) {
            return None;
        }
        Some(PaymentContract { authorized_addresses, configs, payments })
    }
}

} // verus!
