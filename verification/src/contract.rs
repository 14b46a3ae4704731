//! The subscription ledger itself: one value of [`CreatorDirect`] is the
//! whole committed state, and every operation is a single atomic transition
//! on it.
//!
//! The ledger runtime is an external collaborator: each operation takes the
//! caller identity, the current height and the attached amount as plain
//! arguments, and a failed operation returns its error with the state
//! untouched.

use vstd::prelude::*;
use crate::arith::{periods_of, sat_mul_u32, saturating_mul_u32, whole_periods};
use crate::record::{
    SubscriberRecord, active_in, check_table, distinct_accounts, has_account, index_of,
    record_of, table_wf, lemma_found_at, lemma_lookup_push, lemma_lookup_update,
    lemma_active_in_all, lemma_active_in_antitone, lemma_active_in_push, lemma_active_in_strict,
    lemma_active_in_take_step, lemma_active_in_update,
};
use crate::types::{AccountId, Error};
use vstd::pervasive::VecAdditionalExecFns;

verus! {

/// The default price of a tier right after construction: the base price
/// times one more than the tier index, clamped to the representable
/// maximum; tiers outside {0, 1, 2} have no slot.
pub open spec fn default_tier_price(base: u128, tier: u8) -> u128 {
    if tier == 0 {
        base
    } else if tier == 1 {
        if base + base > u128::MAX {
            u128::MAX
        } else {
            (base + base) as u128
        }
    } else if tier == 2 {
        if base + base + base > u128::MAX {
            u128::MAX
        } else {
            (base + base + base) as u128
        }
    } else {
        0
    }
}

/// `post` keeps `pre`'s creator, pricing parameters and metadata.
pub open spec fn same_config(pre: CreatorDirect, post: CreatorDirect) -> bool {
    &&& post.spec_creator() == pre.spec_creator()
    &&& post.spec_price() == pre.spec_price()
    &&& post.spec_period() == pre.spec_period()
    &&& post.spec_name() == pre.spec_name()
    &&& post.spec_description() == pre.spec_description()
}

/// `post` keeps every one of `pre`'s tier price slots.
pub open spec fn same_tier_prices(pre: CreatorDirect, post: CreatorDirect) -> bool {
    forall|t: u8| #[trigger] post.spec_tier_price(t) == pre.spec_tier_price(t)
}

/// `post` keeps every account's record exactly as `pre` had it.
pub open spec fn same_records(pre: CreatorDirect, post: CreatorDirect) -> bool {
    forall|a: AccountId|
        {
            &&& #[trigger] post.spec_expiry_of(a) == pre.spec_expiry_of(a)
            &&& post.spec_has_pass(a) == pre.spec_has_pass(a)
            &&& post.spec_tier_of(a) == pre.spec_tier_of(a)
            &&& post.spec_token_of(a) == pre.spec_token_of(a)
            &&& post.spec_auto_renewal_of(a) == pre.spec_auto_renewal_of(a)
        }
}

/// `post` keeps `pre`'s token counter and analytics counters.
pub open spec fn same_counters(pre: CreatorDirect, post: CreatorDirect) -> bool {
    &&& post.spec_nft_counter() == pre.spec_nft_counter()
    &&& post.spec_total_subscribers() == pre.spec_total_subscribers()
    &&& post.spec_total_revenue() == pre.spec_total_revenue()
}

/// `post`'s active count equals `pre`'s at every height.
pub open spec fn same_active_counts(pre: CreatorDirect, post: CreatorDirect) -> bool {
    forall|h: u32| #[trigger] post.spec_active_count(h) == pre.spec_active_count(h)
}

/// The error a subscription request draws, if any: the validations in the
/// order the engine applies them.  `None` means the payment is accepted.
pub open spec fn subscription_error(pre: CreatorDirect, tier: u8, amount: u128) -> Option<Error> {
    if tier > 2 {
        Some(Error::InvalidTier)
    } else if pre.spec_tier_price(tier) == 0 {
        Some(Error::TierNotConfigured)
    } else if amount < pre.spec_tier_price(tier) {
        Some(Error::InsufficientFunds)
    } else {
        None
    }
}

/// The expiry a successful subscription sets: the purchased periods appended
/// to the later of the prior expiry and the present, every step clamped to
/// the representable maximum.
pub open spec fn extended_expiry(prior: u32, now: u32, period: u32, periods: u32) -> u32 {
    (if prior > now {
        prior
    } else {
        now
    }).saturating_add(sat_mul_u32(period, periods))
}

/// One accepted subscription: how `post` relates to `pre` when
/// `subscriber`'s payment of `amount` at height `now` for `tier` was
/// accepted with result `(periods, new_expiry)`.
pub open spec fn subscription_accepted(
    pre: CreatorDirect,
    post: CreatorDirect,
    subscriber: AccountId,
    tier: u8,
    amount: u128,
    now: u32,
    periods: u32,
    new_expiry: u32,
) -> bool {
    let price = pre.spec_tier_price(tier);
    &&& subscription_error(pre, tier, amount) is None
    &&& periods == periods_of(amount, price)
    &&& new_expiry == extended_expiry(
        pre.spec_expiry_of(subscriber),
        now,
        pre.spec_period(),
        periods,
    )
    &&& same_config(pre, post)
    &&& same_tier_prices(pre, post)
    &&& post.spec_expiry_of(subscriber) == new_expiry
    &&& post.spec_tier_of(subscriber) == tier
    &&& post.spec_has_pass(subscriber)
    &&& post.spec_auto_renewal_of(subscriber) == pre.spec_auto_renewal_of(subscriber)
    &&& forall|a: AccountId|
        a != subscriber ==> {
            &&& #[trigger] post.spec_expiry_of(a) == pre.spec_expiry_of(a)
            &&& post.spec_has_pass(a) == pre.spec_has_pass(a)
            &&& post.spec_tier_of(a) == pre.spec_tier_of(a)
            &&& post.spec_token_of(a) == pre.spec_token_of(a)
            &&& post.spec_auto_renewal_of(a) == pre.spec_auto_renewal_of(a)
        }
    &&& post.spec_total_revenue() == pre.spec_total_revenue().saturating_add(amount)
    &&& if pre.spec_has_pass(subscriber) {
        &&& post.spec_nft_counter() == pre.spec_nft_counter()
        &&& post.spec_total_subscribers() == pre.spec_total_subscribers()
        &&& post.spec_token_of(subscriber) == pre.spec_token_of(subscriber)
    } else {
        &&& post.spec_nft_counter() == pre.spec_nft_counter().saturating_add(1)
        &&& post.spec_total_subscribers() == pre.spec_total_subscribers().saturating_add(1)
        &&& post.spec_token_of(subscriber) == Some(pre.spec_nft_counter().saturating_add(1))
    }
    &&& forall|h: u32|
        #[trigger] post.spec_active_count(h) + (if pre.spec_expiry_of(subscriber) > h {
            1nat
        } else {
            0nat
        }) == pre.spec_active_count(h) + (if new_expiry > h {
            1nat
        } else {
            0nat
        })
}

/// The creator-subscription ledger state.
pub struct CreatorDirect {
    /// The privileged account set at construction.
    creator: AccountId,
    /// Base price of one period at tier 0.
    price_per_period: u128,
    /// Length of one access period, in height units.
    period_in_blocks: u32,
    /// Display name.
    name: String,
    /// Display description.
    description: String,
    /// Price slot per tier; always exactly three entries.
    tier_prices: Vec<u128>,
    /// One record per account ever referenced, accounts pairwise distinct.
    subs: Vec<SubscriberRecord>,
    /// Monotonic token counter; the last token id issued.
    nft_counter: u64,
    /// Count of distinct accounts that ever gained a pass.
    total_subscribers: u64,
    /// Lifetime sum of accepted amounts; withdrawal never lowers it.
    total_revenue: u128,
}

impl CreatorDirect {
    /// Well-formedness: the shape every operation preserves.
    pub closed spec fn wf(&self) -> bool {
        &&& self.tier_prices@.len() == 3
        &&& table_wf(self.subs@, self.nft_counter)
        &&& self.total_subscribers == self.nft_counter
    }

    /// The privileged creator account.
    pub closed spec fn spec_creator(&self) -> AccountId {
        self.creator
    }

    /// The configured base price.
    pub closed spec fn spec_price(&self) -> u128 {
        self.price_per_period
    }

    /// The configured period length.
    pub closed spec fn spec_period(&self) -> u32 {
        self.period_in_blocks
    }

    /// The configured name.
    pub closed spec fn spec_name(&self) -> Seq<char> {
        self.name@
    }

    /// The configured description.
    pub closed spec fn spec_description(&self) -> Seq<char> {
        self.description@
    }

    /// The price slot of a tier; zero for a tier outside {0, 1, 2}.
    pub closed spec fn spec_tier_price(&self, tier: u8) -> u128 {
        if tier <= 2 {
            self.tier_prices@[tier as int]
        } else {
            0
        }
    }

    /// An account's expiry height; zero while it has never subscribed.
    pub closed spec fn spec_expiry_of(&self, a: AccountId) -> u32 {
        if has_account(self.subs@, a) {
            record_of(self.subs@, a).expiry
        } else {
            0
        }
    }

    /// Whether an account ever completed a subscription.
    pub closed spec fn spec_has_pass(&self, a: AccountId) -> bool {
        if has_account(self.subs@, a) {
            record_of(self.subs@, a).has_pass
        } else {
            false
        }
    }

    /// The tier an account last purchased; zero if it never did.
    pub closed spec fn spec_tier_of(&self, a: AccountId) -> u8 {
        if has_account(self.subs@, a) {
            record_of(self.subs@, a).tier
        } else {
            0
        }
    }

    /// An account's advisory auto-renewal flag.
    pub closed spec fn spec_auto_renewal_of(&self, a: AccountId) -> bool {
        if has_account(self.subs@, a) {
            record_of(self.subs@, a).auto_renewal
        } else {
            false
        }
    }

    /// The token an account holds, if it ever gained a pass.
    pub closed spec fn spec_token_of(&self, a: AccountId) -> Option<u64> {
        if has_account(self.subs@, a) {
            record_of(self.subs@, a).token
        } else {
            None
        }
    }

    /// The last token id issued.
    pub closed spec fn spec_nft_counter(&self) -> u64 {
        self.nft_counter
    }

    /// The count of distinct accounts that ever gained a pass.
    pub closed spec fn spec_total_subscribers(&self) -> u64 {
        self.total_subscribers
    }

    /// The lifetime revenue counter.
    pub closed spec fn spec_total_revenue(&self) -> u128 {
        self.total_revenue
    }

    /// How many recorded accounts are active at `height`.
    pub closed spec fn spec_active_count(&self, height: u32) -> nat {
        active_in(self.subs@, height)
    }

    /// The record table itself, in storage order.
    pub closed spec fn spec_records(&self) -> Seq<SubscriberRecord> {
        self.subs@
    }

    /// A copy of every subscriber record, in storage order: one half of
    /// what the host shell persists between invocations.
    pub fn records(&self) -> (r: Vec<SubscriberRecord>)
        ensures
            r@ == self.spec_records(),
    {
        let n = self.subs.len();
        let mut out: Vec<SubscriberRecord> = Vec::new();
        let mut i: usize = 0;
        while i < n
            invariant
                n == self.subs@.len(),
                i <= n,
                out@ == self.subs@.take(i as int),
            decreases n - i,
        {
            out.push(self.subs[i]);
            proof {
                assert(self.subs@.take(i as int).push(self.subs@[i as int]) =~= self.subs@.take(
                    i + 1,
                ));
            }
            i += 1;
        }
        proof {
            assert(self.subs@.take(n as int) =~= self.subs@);
        }
        out
    }

    /// The last token id issued: the other half of what the host shell
    /// persists beside the parameters, prices and counters it already
    /// reads through the query surface.
    pub fn token_counter(&self) -> (r: u64)
        ensures
            r == self.spec_nft_counter(),
    {
        self.nft_counter
    }

    /// Rebuilds a ledger from stored parts, accepting exactly the
    /// well-formed ones: the record table must satisfy [`table_wf`] under
    /// the token counter, and the distinct-subscriber count must equal
    /// that counter.  The host shell persists the parts between
    /// invocations and restores the ledger through here.
    pub fn from_parts(
        creator: AccountId,
        price_per_period: u128,
        period_in_blocks: u32,
        name: String,
        description: String,
        tier_prices: (u128, u128, u128),
        records: Vec<SubscriberRecord>,
        nft_counter: u64,
        total_subscribers: u64,
        total_revenue: u128,
    ) -> (r: Option<CreatorDirect>)
        ensures
            r is Some <==> (table_wf(records@, nft_counter) && total_subscribers == nft_counter),
            r matches Some(c) ==> {
                &&& c.wf()
                &&& c.spec_creator() == creator
                &&& c.spec_price() == price_per_period
                &&& c.spec_period() == period_in_blocks
                &&& c.spec_name() == name@
                &&& c.spec_description() == description@
                &&& c.spec_tier_price(0) == tier_prices.0
                &&& c.spec_tier_price(1) == tier_prices.1
                &&& c.spec_tier_price(2) == tier_prices.2
                &&& c.spec_records() == records@
                &&& c.spec_nft_counter() == nft_counter
                &&& c.spec_total_subscribers() == total_subscribers
                &&& c.spec_total_revenue() == total_revenue
            },
    {
        if total_subscribers != nft_counter {
            return None;
        }
        if !check_table(&records, nft_counter) {
            return None;
        }
        let mut slots: Vec<u128> = Vec::new();
        slots.push(tier_prices.0);
        slots.push(tier_prices.1);
        slots.push(tier_prices.2);
        Some(
            CreatorDirect {
                creator,
                price_per_period,
                period_in_blocks,
                name,
                description,
                tier_prices: slots,
                subs: records,
                nft_counter,
                total_subscribers,
                total_revenue,
            },
        )
    }

    /// Instantiates the ledger: the caller becomes the creator, and each
    /// tier's price slot starts at the base price times one more than the
    /// tier index.
    pub fn new(
        caller: AccountId,
        price_per_period: u128,
        period_in_blocks: u32,
        name: String,
        description: String,
    ) -> (r: CreatorDirect)
        ensures
            r.wf(),
            r.spec_creator() == caller,
            r.spec_price() == price_per_period,
            r.spec_period() == period_in_blocks,
            r.spec_name() == name@,
            r.spec_description() == description@,
            forall|t: u8| r.spec_tier_price(t) == default_tier_price(price_per_period, t),
            forall|a: AccountId|
                {
                    &&& #[trigger] r.spec_expiry_of(a) == 0
                    &&& !r.spec_has_pass(a)
                    &&& r.spec_token_of(a) is None
                    &&& r.spec_tier_of(a) == 0
                    &&& !r.spec_auto_renewal_of(a)
                },
            r.spec_nft_counter() == 0,
            r.spec_total_subscribers() == 0,
            r.spec_total_revenue() == 0,
            forall|h: u32| #[trigger] r.spec_active_count(h) == 0,
    {
        let silver: u128 = price_per_period.saturating_add(price_per_period);
        let gold: u128 = silver.saturating_add(price_per_period);
        let mut tier_prices: Vec<u128> = Vec::new();
        tier_prices.push(price_per_period);
        tier_prices.push(silver);
        tier_prices.push(gold);
        let r = CreatorDirect {
            creator: caller,
            price_per_period,
            period_in_blocks,
            name,
            description,
            tier_prices,
            subs: Vec::new(),
            nft_counter: 0,
            total_subscribers: 0,
            total_revenue: 0,
        };
        proof {
            assert(forall|a: AccountId| !has_account(r.subs@, a));
            assert(forall|h: u32| #[trigger] active_in(r.subs@, h) == 0);
        }
        r
    }

    /// Finds the position of an account's record, if it has one.
    fn find_index(&self, account: AccountId) -> (r: Option<usize>)
        ensures
            match r {
                Some(i) => i < self.subs@.len() && self.subs@[i as int].account == account,
                None => !has_account(self.subs@, account),
            },
    {
        let n = self.subs.len();
        let mut i: usize = 0;
        while i < n
            invariant
                n == self.subs@.len(),
                i <= n,
                forall|j: int| 0 <= j < i ==> #[trigger] self.subs@[j].account != account,
            decreases n - i,
        {
            if self.subs[i].account == account {
                return Some(i);
            }
            i += 1;
        }
        None
    }

    /// Subscription info for an account at the current height:
    /// `(is_active, expiry, now, has_pass)`.
    pub fn get_subscription_info(&self, account: AccountId, now: u32) -> (r: (bool, u32, u32, bool))
        requires
            self.wf(),
        ensures
            r.0 == (self.spec_expiry_of(account) > now),
            r.1 == self.spec_expiry_of(account),
            r.2 == now,
            r.3 == self.spec_has_pass(account),
    {
        match self.find_index(account) {
            Some(i) => {
                proof {
                    lemma_found_at(self.subs@, i as int);
                }
                let rec = self.subs[i];
                (rec.expiry > now, rec.expiry, now, rec.has_pass)
            },
            None => (false, 0, now, false),
        }
    }

    /// Whether an account's access runs beyond the current height.
    pub fn is_active(&self, account: AccountId, now: u32) -> (r: bool)
        requires
            self.wf(),
        ensures
            r == (self.spec_expiry_of(account) > now),
    {
        match self.find_index(account) {
            Some(i) => {
                proof {
                    lemma_found_at(self.subs@, i as int);
                }
                self.subs[i].expiry > now
            },
            None => false,
        }
    }

    /// The configured parameters:
    /// `(price, period, name, description, creator)`.
    pub fn get_params(&self) -> (r: (u128, u32, String, String, AccountId))
        ensures
            r.0 == self.spec_price(),
            r.1 == self.spec_period(),
            r.2@ == self.spec_name(),
            r.3@ == self.spec_description(),
            r.4 == self.spec_creator(),
    {
        (
            self.price_per_period,
            self.period_in_blocks,
            self.name.clone(),
            self.description.clone(),
            self.creator,
        )
    }

    /// The access-control guard: only the creator passes.
    fn ensure_creator(&self, caller: AccountId) -> (r: Result<(), Error>)
        ensures
            r is Ok <==> caller == self.spec_creator(),
            r is Err ==> r == Result::<(), Error>::Err(Error::Unauthorized),
    {
        if caller != self.creator {
            Err(Error::Unauthorized)
        } else {
            Ok(())
        }
    }

    /// Overwrites the base price and the period length; creator only.
    pub fn update_params(&mut self, caller: AccountId, price_per_period: u128, period_in_blocks: u32) -> (r:
        Result<(), Error>)
        requires
            old(self).wf(),
        ensures
            final(self).wf(),
            match r {
                Ok(()) => {
                    &&& caller == old(self).spec_creator()
                    &&& final(self).spec_creator() == old(self).spec_creator()
                    &&& final(self).spec_price() == price_per_period
                    &&& final(self).spec_period() == period_in_blocks
                    &&& final(self).spec_name() == old(self).spec_name()
                    &&& final(self).spec_description() == old(self).spec_description()
                    &&& same_tier_prices(*old(self), *final(self))
                    &&& same_records(*old(self), *final(self))
                    &&& same_counters(*old(self), *final(self))
                    &&& same_active_counts(*old(self), *final(self))
                },
                Err(e) => {
                    &&& e == Error::Unauthorized
                    &&& caller != old(self).spec_creator()
                    &&& *final(self) == *old(self)
                },
            },
    {
        match self.ensure_creator(caller) {
            Err(e) => Err(e),
            Ok(()) => {
                self.price_per_period = price_per_period;
                self.period_in_blocks = period_in_blocks;
                Ok(())
            },
        }
    }

    /// Decides a withdrawal: only the creator may withdraw, and the entire
    /// held balance is paid out.  The ledger runtime holds the balance and
    /// performs the transfer, so both are the host shell's: it attempts the
    /// transfer exactly when the returned amount is positive, and reports
    /// [`Error::TransferFailed`] if the primitive rejects it.  No committed
    /// state changes here, whoever calls.
    pub fn withdraw(&self, caller: AccountId, balance: u128) -> (r: Result<u128, Error>)
        ensures
            caller == self.spec_creator() ==> r == Result::<u128, Error>::Ok(balance),
            caller != self.spec_creator() ==> r == Result::<u128, Error>::Err(Error::Unauthorized),
    {
        match self.ensure_creator(caller) {
            Err(e) => Err(e),
            Ok(()) => Ok(balance),
        }
    }

    /// Stores the caller's advisory auto-renewal flag.  Any account controls
    /// exactly its own flag, and nothing in the engine ever reads it to
    /// trigger a renewal.
    pub fn toggle_auto_renewal(&mut self, caller: AccountId, enabled: bool) -> (r: Result<(), Error>)
        requires
            old(self).wf(),
        ensures
            final(self).wf(),
            r is Ok,
            final(self).spec_auto_renewal_of(caller) == enabled,
            final(self).spec_expiry_of(caller) == old(self).spec_expiry_of(caller),
            final(self).spec_has_pass(caller) == old(self).spec_has_pass(caller),
            final(self).spec_tier_of(caller) == old(self).spec_tier_of(caller),
            final(self).spec_token_of(caller) == old(self).spec_token_of(caller),
            forall|a: AccountId|
                a != caller ==> {
                    &&& #[trigger] final(self).spec_expiry_of(a) == old(self).spec_expiry_of(a)
                    &&& final(self).spec_has_pass(a) == old(self).spec_has_pass(a)
                    &&& final(self).spec_tier_of(a) == old(self).spec_tier_of(a)
                    &&& final(self).spec_token_of(a) == old(self).spec_token_of(a)
                    &&& final(self).spec_auto_renewal_of(a) == old(self).spec_auto_renewal_of(a)
                },
            same_config(*old(self), *final(self)),
            same_tier_prices(*old(self), *final(self)),
            same_counters(*old(self), *final(self)),
            same_active_counts(*old(self), *final(self)),
    {
        match self.find_index(caller) {
            Some(i) => {
                proof {
                    lemma_found_at(self.subs@, i as int);
                }
                let mut rec = self.subs[i];
                rec.auto_renewal = enabled;
                proof {
                    lemma_lookup_update(self.subs@, i as int, rec);
                    lemma_active_in_update(self.subs@, i as int, rec);
                }
                self.subs.set(i, rec);
                Ok(())
            },
            None => {
                let rec = SubscriberRecord {
                    account: caller,
                    expiry: 0,
                    has_pass: false,
                    tier: 0,
                    auto_renewal: enabled,
                    token: None,
                };
                proof {
                    lemma_lookup_push(self.subs@, rec);
                    lemma_active_in_push(self.subs@, rec);
                }
                self.subs.push(rec);
                Ok(())
            },
        }
    }

    /// Whether an account has auto-renewal switched on.
    pub fn is_auto_renewal_enabled(&self, account: AccountId) -> (r: bool)
        requires
            self.wf(),
        ensures
            r == self.spec_auto_renewal_of(account),
    {
        match self.find_index(account) {
            Some(i) => {
                proof {
                    lemma_found_at(self.subs@, i as int);
                }
                self.subs[i].auto_renewal
            },
            None => false,
        }
    }

    /// The access-pass token an account holds, if any.
    pub fn get_nft_token(&self, account: AccountId) -> (r: Option<u64>)
        requires
            self.wf(),
        ensures
            r == self.spec_token_of(account),
    {
        match self.find_index(account) {
            Some(i) => {
                proof {
                    lemma_found_at(self.subs@, i as int);
                }
                self.subs[i].token
            },
            None => None,
        }
    }

    /// The tier an account last purchased; 0 if it never subscribed.
    pub fn get_subscriber_tier(&self, account: AccountId) -> (r: u8)
        requires
            self.wf(),
        ensures
            r == self.spec_tier_of(account),
    {
        match self.find_index(account) {
            Some(i) => {
                proof {
                    lemma_found_at(self.subs@, i as int);
                }
                self.subs[i].tier
            },
            None => 0,
        }
    }

    /// The price slot of a tier; 0 for a tier outside {0, 1, 2}.
    pub fn get_tier_price(&self, tier: u8) -> (r: u128)
        requires
            self.wf(),
        ensures
            r == self.spec_tier_price(tier),
    {
        if tier <= 2 {
            self.tier_prices[tier as usize]
        } else {
            0
        }
    }

    /// Overwrites one tier's price slot; creator only, tier in {0, 1, 2}.
    pub fn update_tier_price(&mut self, caller: AccountId, tier: u8, price: u128) -> (r: Result<
        (),
        Error,
    >)
        requires
            old(self).wf(),
        ensures
            final(self).wf(),
            r is Ok <==> (caller == old(self).spec_creator() && tier <= 2),
            match r {
                Ok(()) => {
                    &&& caller == old(self).spec_creator()
                    &&& tier <= 2
                    &&& final(self).spec_tier_price(tier) == price
                    &&& forall|t: u8|
                        t != tier ==> #[trigger] final(self).spec_tier_price(t) == old(
                            self,
                        ).spec_tier_price(t)
                    &&& same_config(*old(self), *final(self))
                    &&& same_records(*old(self), *final(self))
                    &&& same_counters(*old(self), *final(self))
                    &&& same_active_counts(*old(self), *final(self))
                },
                Err(e) => {
                    &&& *final(self) == *old(self)
                    &&& (e == Error::Unauthorized || e == Error::InvalidTier)
                    &&& (e == Error::Unauthorized <==> caller != old(self).spec_creator())
                    &&& (e == Error::InvalidTier <==> caller == old(self).spec_creator() && tier
                        > 2)
                },
            },
    {
        match self.ensure_creator(caller) {
            Err(e) => Err(e),
            Ok(()) => {
                if tier > 2 {
                    return Err(Error::InvalidTier);
                }
                self.tier_prices.set(tier as usize, price);
                Ok(())
            },
        }
    }

    /// All three tier prices at once: `(bronze, silver, gold)`.
    pub fn get_all_tier_prices(&self) -> (r: (u128, u128, u128))
        requires
            self.wf(),
        ensures
            r.0 == self.spec_tier_price(0),
            r.1 == self.spec_tier_price(1),
            r.2 == self.spec_tier_price(2),
    {
        (self.tier_prices[0], self.tier_prices[1], self.tier_prices[2])
    }

    /// The subscription-processing engine: validates the payment against
    /// the tier's price, computes the whole periods it buys, extends the
    /// subscriber's expiry, issues a first-time pass and token, and updates
    /// the analytics.  Nothing is written before every validation has
    /// passed, so a failed call leaves the state untouched.  The payer is
    /// recorded nowhere: only the subscriber's record moves.
    fn process_subscription(
        &mut self,
        _payer: AccountId,
        subscriber: AccountId,
        tier: u8,
        transferred: u128,
        now: u32,
    ) -> (r: Result<(u32, u32), Error>)
        requires
            old(self).wf(),
        ensures
            final(self).wf(),
            match r {
                Ok(pe) => subscription_accepted(
                    *old(self),
                    *final(self),
                    subscriber,
                    tier,
                    transferred,
                    now,
                    pe.0,
                    pe.1,
                ),
                Err(e) => Some(e) == subscription_error(*old(self), tier, transferred) && *final(self) == *old(self),
            },
    {
        if tier > 2 {
            return Err(Error::InvalidTier);
        }
        let tier_price = self.get_tier_price(tier);
        if tier_price == 0 {
            return Err(Error::TierNotConfigured);
        }
        if transferred < tier_price {
            return Err(Error::InsufficientFunds);
        }
        let periods = whole_periods(transferred, tier_price);
        let idx = self.find_index(subscriber);
        let current_expiry = match idx {
            Some(i) => {
                proof {
                    lemma_found_at(self.subs@, i as int);
                }
                self.subs[i].expiry
            },
            None => 0,
        };
        let base = if current_expiry > now {
            current_expiry
        } else {
            now
        };
        let added_blocks = saturating_mul_u32(self.period_in_blocks, periods);
        let new_expiry = base.saturating_add(added_blocks);

        self.total_revenue = self.total_revenue.saturating_add(transferred);

        match idx {
            Some(i) => {
                let mut rec = self.subs[i];
                if !rec.has_pass {
                    rec.has_pass = true;
                    self.nft_counter = self.nft_counter.saturating_add(1);
                    self.total_subscribers = self.total_subscribers.saturating_add(1);
                    rec.token = Some(self.nft_counter);
                }
                rec.expiry = new_expiry;
                rec.tier = tier;
                proof {
                    lemma_found_at(self.subs@, i as int);
                    lemma_lookup_update(self.subs@, i as int, rec);
                    lemma_active_in_update(self.subs@, i as int, rec);
                }
                self.subs.set(i, rec);
                proof {
                    self.lemma_after_record_write(*old(self), i as int, rec, subscriber);
                }
            },
            None => {
                self.nft_counter = self.nft_counter.saturating_add(1);
                self.total_subscribers = self.total_subscribers.saturating_add(1);
                let rec = SubscriberRecord {
                    account: subscriber,
                    expiry: new_expiry,
                    has_pass: true,
                    tier,
                    auto_renewal: false,
                    token: Some(self.nft_counter),
                };
                proof {
                    lemma_lookup_push(self.subs@, rec);
                    lemma_active_in_push(self.subs@, rec);
                }
                self.subs.push(rec);
                proof {
                    self.lemma_after_record_append(*old(self), rec, subscriber);
                }
            },
        }
        Ok((periods, new_expiry))
    }

    /// After overwriting the subscriber's record in place, every other
    /// account's view of the ledger is as it was, and the active count
    /// swaps the subscriber's old contribution for the new one.
    proof fn lemma_after_record_write(
        &self,
        pre: CreatorDirect,
        i: int,
        rec: SubscriberRecord,
        subscriber: AccountId,
    )
        requires
            distinct_accounts(pre.subs@),
            0 <= i < pre.subs@.len(),
            pre.subs@[i].account == subscriber,
            rec.account == subscriber,
            self.subs@ == pre.subs@.update(i, rec),
        ensures
            has_account(self.subs@, subscriber),
            record_of(self.subs@, subscriber) == rec,
            self.spec_expiry_of(subscriber) == rec.expiry,
            self.spec_has_pass(subscriber) == rec.has_pass,
            self.spec_tier_of(subscriber) == rec.tier,
            self.spec_token_of(subscriber) == rec.token,
            self.spec_auto_renewal_of(subscriber) == rec.auto_renewal,
            forall|a: AccountId|
                a != subscriber ==> {
                    &&& #[trigger] self.spec_expiry_of(a) == pre.spec_expiry_of(a)
                    &&& self.spec_has_pass(a) == pre.spec_has_pass(a)
                    &&& self.spec_tier_of(a) == pre.spec_tier_of(a)
                    &&& self.spec_token_of(a) == pre.spec_token_of(a)
                    &&& self.spec_auto_renewal_of(a) == pre.spec_auto_renewal_of(a)
                },
            forall|h: u32|
                #[trigger] self.spec_active_count(h) + (if pre.spec_expiry_of(subscriber) > h {
                    1nat
                } else {
                    0nat
                }) == pre.spec_active_count(h) + (if rec.expiry > h {
                    1nat
                } else {
                    0nat
                }),
    {
        let s0 = pre.subs@;
        let s1 = self.subs@;
        lemma_found_at(s0, i);
        lemma_lookup_update(s0, i, rec);
        assert forall|a: AccountId|
            a != subscriber implies {
            &&& #[trigger] self.spec_expiry_of(a) == pre.spec_expiry_of(a)
            &&& self.spec_has_pass(a) == pre.spec_has_pass(a)
            &&& self.spec_tier_of(a) == pre.spec_tier_of(a)
            &&& self.spec_token_of(a) == pre.spec_token_of(a)
            &&& self.spec_auto_renewal_of(a) == pre.spec_auto_renewal_of(a)
        } by {
            assert(has_account(s1, a) == has_account(s0, a));
            if has_account(s0, a) {
                assert(record_of(s1, a) == record_of(s0, a));
            }
        }
        lemma_active_in_update(s0, i, rec);
        assert forall|h: u32|
            #[trigger] self.spec_active_count(h) + (if pre.spec_expiry_of(subscriber) > h {
                1nat
            } else {
                0nat
            }) == pre.spec_active_count(h) + (if rec.expiry > h {
                1nat
            } else {
                0nat
            }) by {
            assert(active_in(s1, h) + (if s0[i].expiry > h {
                1nat
            } else {
                0nat
            }) == active_in(s0, h) + (if rec.expiry > h {
                1nat
            } else {
                0nat
            }));
        }
    }

    /// After appending a record for an account the ledger had never seen,
    /// every other account's view is as it was, and the active count gains
    /// the new record's contribution.
    proof fn lemma_after_record_append(
        &self,
        pre: CreatorDirect,
        rec: SubscriberRecord,
        subscriber: AccountId,
    )
        requires
            distinct_accounts(pre.subs@),
            !has_account(pre.subs@, subscriber),
            rec.account == subscriber,
            self.subs@ == pre.subs@.push(rec),
        ensures
            has_account(self.subs@, subscriber),
            record_of(self.subs@, subscriber) == rec,
            self.spec_expiry_of(subscriber) == rec.expiry,
            self.spec_has_pass(subscriber) == rec.has_pass,
            self.spec_tier_of(subscriber) == rec.tier,
            self.spec_token_of(subscriber) == rec.token,
            self.spec_auto_renewal_of(subscriber) == rec.auto_renewal,
            pre.spec_expiry_of(subscriber) == 0,
            !pre.spec_has_pass(subscriber),
            pre.spec_token_of(subscriber) is None,
            forall|a: AccountId|
                a != subscriber ==> {
                    &&& #[trigger] self.spec_expiry_of(a) == pre.spec_expiry_of(a)
                    &&& self.spec_has_pass(a) == pre.spec_has_pass(a)
                    &&& self.spec_tier_of(a) == pre.spec_tier_of(a)
                    &&& self.spec_token_of(a) == pre.spec_token_of(a)
                    &&& self.spec_auto_renewal_of(a) == pre.spec_auto_renewal_of(a)
                },
            forall|h: u32|
                #[trigger] self.spec_active_count(h) == pre.spec_active_count(h) + (if rec.expiry
                    > h {
                    1nat
                } else {
                    0nat
                }),
    {
        let s0 = pre.subs@;
        let s1 = self.subs@;
        lemma_lookup_push(s0, rec);
        assert forall|a: AccountId|
            a != subscriber implies {
            &&& #[trigger] self.spec_expiry_of(a) == pre.spec_expiry_of(a)
            &&& self.spec_has_pass(a) == pre.spec_has_pass(a)
            &&& self.spec_tier_of(a) == pre.spec_tier_of(a)
            &&& self.spec_token_of(a) == pre.spec_token_of(a)
            &&& self.spec_auto_renewal_of(a) == pre.spec_auto_renewal_of(a)
        } by {
            assert(has_account(s1, a) == has_account(s0, a));
            if has_account(s0, a) {
                assert(record_of(s1, a) == record_of(s0, a));
            }
        }
        lemma_active_in_push(s0, rec);
    }

    /// Subscribes the caller at the default tier 0.
    pub fn subscribe(&mut self, caller: AccountId, transferred: u128, now: u32) -> (r: Result<
        (u32, u32),
        Error,
    >)
        requires
            old(self).wf(),
        ensures
            final(self).wf(),
            match r {
                Ok(pe) => subscription_accepted(
                    *old(self),
                    *final(self),
                    caller,
                    0,
                    transferred,
                    now,
                    pe.0,
                    pe.1,
                ),
                Err(e) => Some(e) == subscription_error(*old(self), 0, transferred) && *final(self)
                    == *old(self),
            },
    {
        self.subscribe_with_tier(caller, transferred, now, 0)
    }

    /// Subscribes the caller at an explicit tier.
    pub fn subscribe_with_tier(
        &mut self,
        caller: AccountId,
        transferred: u128,
        now: u32,
        tier: u8,
    ) -> (r: Result<(u32, u32), Error>)
        requires
            old(self).wf(),
        ensures
            final(self).wf(),
            match r {
                Ok(pe) => subscription_accepted(
                    *old(self),
                    *final(self),
                    caller,
                    tier,
                    transferred,
                    now,
                    pe.0,
                    pe.1,
                ),
                Err(e) => Some(e) == subscription_error(*old(self), tier, transferred) && *final(self) == *old(self),
            },
    {
        self.process_subscription(caller, caller, tier, transferred, now)
    }

    /// Pays for a subscription on another account's behalf.  The engine runs
    /// unchanged on the recipient; only the extra gift notification carries
    /// the payer.
    pub fn gift_subscription(
        &mut self,
        caller: AccountId,
        recipient: AccountId,
        transferred: u128,
        now: u32,
        tier: u8,
    ) -> (r: Result<(u32, u32), Error>)
        requires
            old(self).wf(),
        ensures
            final(self).wf(),
            match r {
                Ok(pe) => subscription_accepted(
                    *old(self),
                    *final(self),
                    recipient,
                    tier,
                    transferred,
                    now,
                    pe.0,
                    pe.1,
                ),
                Err(e) => Some(e) == subscription_error(*old(self), tier, transferred) && *final(self) == *old(self),
            },
    {
        self.process_subscription(caller, recipient, tier, transferred, now)
    }

    /// Analytics for the creator's dashboard:
    /// `(total_subscribers, total_revenue, active_count)`.  The active count
    /// is recomputed here on every call by scanning the records; it is never
    /// cached.
    pub fn get_analytics(&self, now: u32) -> (r: (u64, u128, u32))
        requires
            self.wf(),
        ensures
            r.0 == self.spec_total_subscribers(),
            r.1 == self.spec_total_revenue(),
            r.2 == if self.spec_active_count(now) > u32::MAX {
                u32::MAX as nat
            } else {
                self.spec_active_count(now)
            },
    {
        let n = self.subs.len();
        let mut active_count: u32 = 0;
        let mut i: usize = 0;
        while i < n
            invariant
                n == self.subs@.len(),
                i <= n,
                active_count == if active_in(self.subs@.take(i as int), now) > u32::MAX {
                    u32::MAX as nat
                } else {
                    active_in(self.subs@.take(i as int), now)
                },
            decreases n - i,
        {
            proof {
                lemma_active_in_take_step(self.subs@, i as int, now);
            }
            if self.subs[i].expiry > now {
                active_count = active_count.saturating_add(1);
            }
            i += 1;
        }
        proof {
            lemma_active_in_all(self.subs@, now);
        }
        (self.total_subscribers, self.total_revenue, active_count)
    }
}

// What follows are the laws the engine answers to, each proved once and for
// all from the operation contracts above.

/// Law: a payment below the tier's price always draws `InsufficientFunds`;
/// the `Err` contracts of the subscribe operations then leave the state
/// untouched.
pub proof fn lemma_insufficient_funds_rejected(pre: CreatorDirect, tier: u8, amount: u128)
    requires
        tier <= 2,
        pre.spec_tier_price(tier) > 0,
        amount < pre.spec_tier_price(tier),
    ensures
        subscription_error(pre, tier, amount) == Some(Error::InsufficientFunds),
{
}

/// Law: right after construction the three price slots are the base price
/// times one, two and three, whenever those products fit the amount type.
pub proof fn lemma_initial_prices_scale_with_tier(base: u128, tier: u8)
    requires
        tier <= 2,
        (tier as int + 1) * base <= u128::MAX,
    ensures
        default_tier_price(base, tier) == (tier as int + 1) * base,
{
    if tier == 0 {
        assert(1 * (base as int) == base as int) by (nonlinear_arith);
        assert(tier as int + 1 == 1);
    } else if tier == 1 {
        assert(2 * (base as int) == base + base) by (nonlinear_arith);
        assert(tier as int + 1 == 2);
    } else {
        assert(3 * (base as int) == base + base + base) by (nonlinear_arith);
        assert(tier as int + 1 == 3);
    }
}

/// Law: a payment of exactly `k` times the tier's price buys exactly `k`
/// periods, and the new expiry appends exactly `k` period lengths to the
/// later of the prior expiry and the present.  Stated away from the clamp:
/// the new expiry must fit the height type.
pub proof fn lemma_exact_multiple_buys_k_periods(
    pre: CreatorDirect,
    post: CreatorDirect,
    subscriber: AccountId,
    tier: u8,
    k: u32,
    amount: u128,
    now: u32,
    periods: u32,
    new_expiry: u32,
)
    requires
        subscription_accepted(pre, post, subscriber, tier, amount, now, periods, new_expiry),
        k >= 1,
        amount == k * pre.spec_tier_price(tier),
        (if pre.spec_expiry_of(subscriber) > now {
            pre.spec_expiry_of(subscriber)
        } else {
            now
        }) + k * pre.spec_period() <= u32::MAX,
    ensures
        periods == k,
        new_expiry == (if pre.spec_expiry_of(subscriber) > now {
            pre.spec_expiry_of(subscriber)
        } else {
            now
        }) + k * pre.spec_period(),
{
    let price = pre.spec_tier_price(tier);
    assert(price > 0);
    vstd::arithmetic::div_mod::lemma_div_multiples_vanish(k as int, price as int);
    assert(amount as int == price as int * k as int);
    assert(amount as int / price as int == k as int);
    assert(periods == k);
    let prior = pre.spec_expiry_of(subscriber);
    let base: u32 = if prior > now {
        prior
    } else {
        now
    };
    assert(k as int * pre.spec_period() == pre.spec_period() * (k as int)) by (nonlinear_arith);
    assert(pre.spec_period() * k <= u32::MAX);
    assert(sat_mul_u32(pre.spec_period(), k) == pre.spec_period() * k);
    assert(new_expiry == base.saturating_add((pre.spec_period() * k) as u32));
}

/// Law: renewing before expiry extends from the prior expiry, never from
/// the present.
pub proof fn lemma_renewal_before_expiry_extends(prior: u32, now: u32, period: u32, periods: u32)
    requires
        now <= prior,
        prior + period * periods <= u32::MAX,
    ensures
        extended_expiry(prior, now, period, periods) == prior + period * periods,
{
}

/// Law: renewing after expiry starts fresh from the present, never
/// retroactively.
pub proof fn lemma_renewal_after_expiry_starts_fresh(
    prior: u32,
    now: u32,
    period: u32,
    periods: u32,
)
    requires
        prior <= now,
        now + period * periods <= u32::MAX,
    ensures
        extended_expiry(prior, now, period, periods) == now + period * periods,
{
}

/// Law: a successful subscription never lowers any account's expiry; the
/// subscriber's own horizon only moves forward.
pub proof fn lemma_expiry_never_retreats(
    pre: CreatorDirect,
    post: CreatorDirect,
    subscriber: AccountId,
    tier: u8,
    amount: u128,
    now: u32,
    periods: u32,
    new_expiry: u32,
)
    requires
        subscription_accepted(pre, post, subscriber, tier, amount, now, periods, new_expiry),
    ensures
        post.spec_expiry_of(subscriber) >= pre.spec_expiry_of(subscriber),
        forall|a: AccountId|
            a != subscriber ==> #[trigger] post.spec_expiry_of(a) == pre.spec_expiry_of(a),
{
}

/// Law: token ids follow subscriber-acquisition order.  Across two accepted
/// subscriptions by two distinct first-time subscribers, the first receives
/// the next token id and the second the one after, whatever the tiers,
/// amounts or heights; the first's token is not reassigned, and the
/// distinct-subscriber count grows by exactly two.
pub proof fn lemma_tokens_in_acquisition_order(
    s0: CreatorDirect,
    s1: CreatorDirect,
    s2: CreatorDirect,
    first: AccountId,
    second: AccountId,
    tier1: u8,
    tier2: u8,
    amount1: u128,
    amount2: u128,
    now1: u32,
    now2: u32,
    periods1: u32,
    periods2: u32,
    expiry1: u32,
    expiry2: u32,
)
    requires
        s0.wf(),
        subscription_accepted(s0, s1, first, tier1, amount1, now1, periods1, expiry1),
        subscription_accepted(s1, s2, second, tier2, amount2, now2, periods2, expiry2),
        first != second,
        !s0.spec_has_pass(first),
        !s0.spec_has_pass(second),
        s0.spec_nft_counter() + 2 <= u64::MAX,
    ensures
        s1.spec_token_of(first) == Some((s0.spec_nft_counter() + 1) as u64),
        s2.spec_token_of(second) == Some((s0.spec_nft_counter() + 2) as u64),
        s2.spec_token_of(first) == s1.spec_token_of(first),
        s2.spec_total_subscribers() == s0.spec_total_subscribers() + 2,
{
    assert(s1.spec_expiry_of(second) == s0.spec_expiry_of(second));
    assert(!s1.spec_has_pass(second));
    assert(s1.spec_nft_counter() == s0.spec_nft_counter() + 1);
    assert(s2.spec_expiry_of(first) == s1.spec_expiry_of(first));
    assert(s2.spec_token_of(first) == s1.spec_token_of(first));
}

/// Law: re-subscribing an account that already holds a pass neither
/// reassigns its token nor moves the token counter or the
/// distinct-subscriber count.
pub proof fn lemma_resubscription_keeps_token(
    pre: CreatorDirect,
    post: CreatorDirect,
    subscriber: AccountId,
    tier: u8,
    amount: u128,
    now: u32,
    periods: u32,
    new_expiry: u32,
)
    requires
        subscription_accepted(pre, post, subscriber, tier, amount, now, periods, new_expiry),
        pre.spec_has_pass(subscriber),
    ensures
        post.spec_token_of(subscriber) == pre.spec_token_of(subscriber),
        post.spec_nft_counter() == pre.spec_nft_counter(),
        post.spec_total_subscribers() == pre.spec_total_subscribers(),
{
}

/// Law: in a well-formed ledger whose token counter has not saturated, two
/// distinct pass-holding accounts never share a token id.
pub proof fn lemma_tokens_unique(c: CreatorDirect, a1: AccountId, a2: AccountId)
    requires
        c.wf(),
        a1 != a2,
        c.spec_has_pass(a1),
        c.spec_has_pass(a2),
        c.spec_nft_counter() < u64::MAX,
    ensures
        c.spec_token_of(a1) != c.spec_token_of(a2),
{
    let s = c.subs@;
    let i1 = index_of(s, a1);
    let i2 = index_of(s, a2);
    assert(0 <= i1 < s.len() && s[i1].account == a1);
    assert(0 <= i2 < s.len() && s[i2].account == a2);
    lemma_found_at(s, i1);
    lemma_found_at(s, i2);
    if i1 < i2 {
        assert(s[i1].token != s[i2].token);
    } else {
        assert(s[i2].token != s[i1].token);
    }
}

/// Law: with no intervening write, the active count never grows as the
/// height advances, and falls strictly once the height passes an active
/// account's expiry.
pub proof fn lemma_active_count_falls_with_height(
    c: CreatorDirect,
    account: AccountId,
    h1: u32,
    h2: u32,
)
    requires
        c.wf(),
        h1 <= h2,
    ensures
        c.spec_active_count(h2) <= c.spec_active_count(h1),
        h1 < c.spec_expiry_of(account) && c.spec_expiry_of(account) <= h2
            ==> c.spec_active_count(h2) < c.spec_active_count(h1),
{
    lemma_active_in_antitone(c.subs@, h1, h2);
    if h1 < c.spec_expiry_of(account) && c.spec_expiry_of(account) <= h2 {
        assert(has_account(c.subs@, account));
        let i = index_of(c.subs@, account);
        assert(0 <= i < c.subs@.len() && c.subs@[i].account == account);
        lemma_found_at(c.subs@, i);
        lemma_active_in_strict(c.subs@, i, h1, h2);
    }
}

} // verus!
