//! Orders: the tickets that a shop's waiter awaits, and their results as they
//! arrive.
use vstd::prelude::*;
use crate::errors::shop_error::CoffeeShopError;
use crate::message::MulticastMessage;

verus! {

/// Reads the system clock: `std::time::SystemTime::now` measured with
/// `duration_since(UNIX_EPOCH)`, as whole seconds and the nanoseconds beyond
/// them, or `None` where the clock is before the epoch. The contract claims
/// only that the nanoseconds are fewer than a second's worth, as
/// `Duration::subsec_nanos` documents; nothing of the time itself.
#[verifier::external_body]
fn clock_since_epoch() -> (r: Option<(u64, u32)>)
    ensures
        is_clock_reading(r),
{
    match std::time::SystemTime::now().duration_since(std::time::UNIX_EPOCH) {
        Ok(d) => Some((d.as_secs(), d.subsec_nanos())),
        Err(_) => None,
    }
}

/// A reading of the clock: whole seconds since the Unix epoch and fewer
/// than a second's worth of nanoseconds beyond them, or none before the
/// epoch.
pub open spec fn is_clock_reading(reading: Option<(u64, u32)>) -> bool {
    reading matches Some((_, nanos)) ==> nanos < 1_000_000_000
}

/// The nanoseconds since the Unix epoch of a clock reading: zero for a
/// reading before the epoch, and the largest value where the count does not
/// fit.
pub open spec fn spec_epoch_nanos(reading: Option<(u64, u32)>) -> u64 {
    match reading {
        Some((secs, nanos)) => if secs * 1_000_000_000 + nanos <= u64::MAX {
            (secs * 1_000_000_000 + nanos) as u64
        } else {
            u64::MAX
        },
        None => 0,
    }
}

/// The nanoseconds since the Unix epoch of a clock reading (see
/// [`spec_epoch_nanos`]).
pub fn epoch_nanos(reading: Option<(u64, u32)>) -> (r: u64)
    ensures
        r == spec_epoch_nanos(reading),
{
    match reading {
        Some((secs, nanos)) => {
            let total: u128 = (secs as u128) * 1_000_000_000 + (nanos as u128);
            if total <= (u64::MAX as u128) {
                total as u64
            } else {
                u64::MAX
            }
        },
        None => 0,
    }
}

/// The current time, in nanoseconds since the Unix epoch (see
/// [`spec_epoch_nanos`]): the unit of the times that orders are completed,
/// settled and purged at. Which time the clock gives is left open.
pub fn now_nanos() -> (r: u64)
    ensures
        exists|reading: Option<(u64, u32)>| #![trigger spec_epoch_nanos(reading)]
            is_clock_reading(reading) && r == spec_epoch_nanos(reading),
{
    let reading = clock_since_epoch();
    let r = epoch_nanos(reading);
    assert(is_clock_reading(reading) && r == spec_epoch_nanos(reading));
    r
}

/// An order: a ticket, the result once one is known (when it became known,
/// in nanoseconds, and whether the ticket succeeded) and the number of
/// waiters awaiting it.
#[derive(Debug, Clone)]
pub struct Order {
    ticket: String,
    result: Option<(u64, bool)>,
    waiters: usize,
}

/// The content of an [`Order`].
pub struct OrderView {
    pub ticket: Seq<char>,
    pub result: Option<(u64, bool)>,
    pub waiters: usize,
}

impl View for Order {
    type V = OrderView;

    closed spec fn view(&self) -> OrderView {
        OrderView { ticket: self.ticket@, result: self.result, waiters: self.waiters }
    }
}

/// An order is stale when its result has been known for longer than
/// `max_age` and nobody waits for it.
pub open spec fn order_is_stale(o: OrderView, now: u64, max_age: u64) -> bool {
    o.waiters == 0 && match o.result {
        Some((t, _)) => (if now >= t { now - t } else { 0 }) > max_age,
        None => false,
    }
}

/// The orders that remain once the stale ones at `now` are removed.
pub open spec fn purged(m: Map<Seq<char>, OrderView>, now: u64, max_age: u64) -> Map<Seq<char>, OrderView> {
    Map::new(|k: Seq<char>| m.contains_key(k) && !order_is_stale(m[k], now, max_age), |k: Seq<char>| m[k])
}

/// The orders once `ticket` has one: an existing order is kept, else a new
/// one without result or waiters is added.
pub open spec fn spawned(m: Map<Seq<char>, OrderView>, t: Seq<char>) -> Map<Seq<char>, OrderView> {
    if m.contains_key(t) {
        m
    } else {
        m.insert(t, OrderView { ticket: t, result: None, waiters: 0 })
    }
}

/// The orders once one more waiter awaits the order for `t`; a count at its
/// limit stays.
pub open spec fn waiter_added(m: Map<Seq<char>, OrderView>, t: Seq<char>) -> Map<Seq<char>, OrderView> {
    if m.contains_key(t) && m[t].waiters < usize::MAX {
        m.insert(t, OrderView { waiters: (m[t].waiters + 1) as usize, ..m[t] })
    } else {
        m
    }
}

/// The orders once a waiter no longer awaits the order for `t`.
pub open spec fn waiter_removed(m: Map<Seq<char>, OrderView>, t: Seq<char>) -> Map<Seq<char>, OrderView> {
    if m.contains_key(t) {
        m.insert(t, OrderView { waiters: (if m[t].waiters > 0 { m[t].waiters - 1 } else { 0 }) as usize, ..m[t] })
    } else {
        m
    }
}

impl Order {
    /// A new order for `ticket`, with no result and no waiters.
    pub fn new(ticket: String) -> (r: Order)
        ensures
            r@ == (OrderView { ticket: ticket@, result: None, waiters: 0 }),
    {
        Order { ticket, result: None, waiters: 0 }
    }

    /// The ticket of the order.
    pub fn ticket(&self) -> (r: &String)
        ensures
            r@ == self@.ticket,
    {
        &self.ticket
    }

    /// The result of the ticket, if one is known.
    pub fn result(&self) -> (r: Option<(u64, bool)>)
        ensures
            r == self@.result,
    {
        self.result
    }

    /// How long the result has been known at `now`, if it is.
    pub fn age_of_result(&self, now: u64) -> (r: Option<u64>)
        ensures
            self@.result matches Some((t, _)) ==> r == Some((if now >= t { now - t } else { 0 }) as u64),
            self@.result is None ==> r is None,
    {
        match self.result {
            Some((t, _)) => Some(if now >= t { now - t } else { 0 }),
            None => None,
        }
    }

    /// Sets the result, known since `timestamp`; a result can be set once.
    pub fn complete_with_timestamp(&mut self, success: bool, timestamp: u64) -> (r: Result<(), CoffeeShopError>)
        ensures
            old(self)@.result is None ==> r is Ok && final(self)@ == (OrderView {
                result: Some((timestamp, success)),
                ..old(self)@
            }),
            old(self)@.result is Some ==> (r matches Err(CoffeeShopError::ResultAlreadySet) && final(self)@ == old(
                self,
            )@),
    {
        if self.result.is_some() {
            Err(CoffeeShopError::ResultAlreadySet)
        } else {
            self.result = Some((timestamp, success));
            Ok(())
        }
    }

    /// Sets the result, known since the clock gave `reading` (seconds and
    /// nanoseconds since the Unix epoch, as [`spec_epoch_nanos`] counts
    /// them); a result can be set once.
    pub fn complete_at(&mut self, success: bool, reading: Option<(u64, u32)>) -> (r: Result<(), CoffeeShopError>)
        ensures
            old(self)@.result is None ==> r is Ok && final(self)@ == (OrderView {
                result: Some((spec_epoch_nanos(reading), success)),
                ..old(self)@
            }),
            old(self)@.result is Some ==> (r matches Err(CoffeeShopError::ResultAlreadySet) && final(self)@ == old(
                self,
            )@),
    {
        let timestamp = epoch_nanos(reading);
        self.complete_with_timestamp(success, timestamp)
    }

    /// Sets the result, known from now on: since the clock's current reading,
    /// in nanoseconds since the Unix epoch (see [`Self::complete_at`]); a
    /// result can be set once.
    pub fn complete(&mut self, success: bool) -> (r: Result<(), CoffeeShopError>)
        ensures
            old(self)@.result is None ==> r is Ok && exists|reading: Option<(u64, u32)>|
                #![trigger spec_epoch_nanos(reading)]
                is_clock_reading(reading) && final(self)@ == (OrderView {
                    result: Some((spec_epoch_nanos(reading), success)),
                    ..old(self)@
                }),
            old(self)@.result is Some ==> (r matches Err(CoffeeShopError::ResultAlreadySet) && final(self)@ == old(
                self,
            )@),
    {
        let reading = clock_since_epoch();
        let r = self.complete_at(success, reading);
        assert(is_clock_reading(reading) && spec_epoch_nanos(reading) == spec_epoch_nanos(reading));
        r
    }

    /// Whether the result is known.
    pub fn is_fulfilled(&self) -> (r: bool)
        ensures
            r == self@.result is Some,
    {
        self.result.is_some()
    }

    /// Whether the order is stale at `now` (see [`order_is_stale`]).
    pub fn is_stale(&self, now: u64, max_age: u64) -> (r: bool)
        ensures
            r == order_is_stale(self@, now, max_age),
    {
        if self.waiters != 0 {
            return false;
        }
        match self.age_of_result(now) {
            Some(age) => age > max_age,
            None => false,
        }
    }

    /// Notes that one more waiter awaits the order.
    pub fn add_waiter(&mut self)
        requires
            old(self)@.waiters < usize::MAX,
        ensures
            final(self)@ == (OrderView { waiters: (old(self)@.waiters + 1) as usize, ..old(self)@ }),
    {
        self.waiters = self.waiters + 1;
    }

    /// Notes that a waiter no longer awaits the order.
    pub fn remove_waiter(&mut self)
        ensures
            final(self)@ == (OrderView {
                waiters: (if old(self)@.waiters > 0 { old(self)@.waiters - 1 } else { 0 }) as usize,
                ..old(self)@
            }),
    {
        if self.waiters > 0 {
            self.waiters = self.waiters - 1;
        }
    }
}

} // verus!

verus! {

/// The orders of a shop, one per ticket.
#[derive(Debug)]
pub struct Orders {
    orders: Vec<Order>,
}

/// The tickets of a list of orders are distinct.
pub open spec fn distinct_tickets(s: Seq<Order>) -> bool {
    forall|i: int, j: int| 0 <= i < j < s.len() ==> #[trigger] s[i]@.ticket != #[trigger] s[j]@.ticket
}

/// Whether some order of the list has this ticket.
pub open spec fn has_ticket(s: Seq<Order>, k: Seq<char>) -> bool {
    exists|i: int| 0 <= i < s.len() && #[trigger] s[i]@.ticket == k
}

/// The orders of a list, by ticket.
pub open spec fn orders_map(s: Seq<Order>) -> Map<Seq<char>, OrderView> {
    Map::new(
        |k: Seq<char>| has_ticket(s, k),
        |k: Seq<char>| s[choose|i: int| 0 <= i < s.len() && #[trigger] s[i]@.ticket == k]@,
    )
}

proof fn lemma_orders_map_at(s: Seq<Order>, i: int)
    requires
        distinct_tickets(s),
        0 <= i < s.len(),
    ensures
        orders_map(s).contains_key(s[i]@.ticket),
        orders_map(s)[s[i]@.ticket] == s[i]@,
{
    let k = s[i]@.ticket;
    assert(has_ticket(s, k));
    let j = choose|j: int| 0 <= j < s.len() && #[trigger] s[j]@.ticket == k;
    if j != i {
        if j < i {
            assert(s[j]@.ticket != s[i]@.ticket);
        } else {
            assert(s[i]@.ticket != s[j]@.ticket);
        }
    }
}

proof fn lemma_orders_map_update(s: Seq<Order>, i: int, o: Order)
    requires
        distinct_tickets(s),
        0 <= i < s.len(),
        o@.ticket == s[i]@.ticket,
    ensures
        distinct_tickets(s.update(i, o)),
        orders_map(s.update(i, o)) == orders_map(s).insert(o@.ticket, o@),
{
    let t = s.update(i, o);
    assert forall|a: int, b: int| 0 <= a < b < t.len() implies #[trigger] t[a]@.ticket != #[trigger] t[b]@.ticket by {
        assert(s[a]@.ticket != s[b]@.ticket);
    }
    let m = orders_map(s).insert(o@.ticket, o@);
    assert forall|k: Seq<char>| #[trigger] orders_map(t).contains_key(k) == m.contains_key(k) by {
        if has_ticket(s, k) {
            let j = choose|j: int| 0 <= j < s.len() && #[trigger] s[j]@.ticket == k;
            assert(t[j]@.ticket == k);
        }
        if has_ticket(t, k) {
            let j = choose|j: int| 0 <= j < t.len() && #[trigger] t[j]@.ticket == k;
            assert(s[j]@.ticket == k);
        }
    }
    assert forall|k: Seq<char>| #[trigger] orders_map(t).contains_key(k) implies orders_map(t)[k] == m[k] by {
        let j = choose|j: int| 0 <= j < t.len() && #[trigger] t[j]@.ticket == k;
        lemma_orders_map_at(t, j);
        if j != i {
            lemma_orders_map_at(s, j);
        }
    }
    assert(orders_map(t) =~= m);
}

proof fn lemma_orders_map_push(s: Seq<Order>, o: Order)
    requires
        distinct_tickets(s),
        !has_ticket(s, o@.ticket),
    ensures
        distinct_tickets(s.push(o)),
        orders_map(s.push(o)) == orders_map(s).insert(o@.ticket, o@),
{
    let t = s.push(o);
    assert forall|a: int, b: int| 0 <= a < b < t.len() implies #[trigger] t[a]@.ticket != #[trigger] t[b]@.ticket by {
        if b == s.len() {
            assert(t[a] == s[a]);
        } else {
            assert(s[a]@.ticket != s[b]@.ticket);
        }
    }
    let m = orders_map(s).insert(o@.ticket, o@);
    assert forall|k: Seq<char>| #[trigger] orders_map(t).contains_key(k) == m.contains_key(k) by {
        if has_ticket(s, k) {
            let j = choose|j: int| 0 <= j < s.len() && #[trigger] s[j]@.ticket == k;
            assert(t[j]@.ticket == k);
        }
        if has_ticket(t, k) {
            let j = choose|j: int| 0 <= j < t.len() && #[trigger] t[j]@.ticket == k;
            if j < s.len() {
                assert(s[j]@.ticket == k);
            }
        }
        assert(t[s.len() as int]@.ticket == o@.ticket);
    }
    assert forall|k: Seq<char>| #[trigger] orders_map(t).contains_key(k) implies orders_map(t)[k] == m[k] by {
        let j = choose|j: int| 0 <= j < t.len() && #[trigger] t[j]@.ticket == k;
        lemma_orders_map_at(t, j);
        if j < s.len() {
            assert(t[j] == s[j]);
            lemma_orders_map_at(s, j);
        }
    }
    assert(orders_map(t) =~= m);
}

impl View for Orders {
    type V = Map<Seq<char>, OrderView>;

    closed spec fn view(&self) -> Map<Seq<char>, OrderView> {
        orders_map(self.orders@)
    }
}

impl Orders {
    /// Each ticket has at most one order.
    #[verifier::type_invariant]
    spec fn wf(&self) -> bool {
        distinct_tickets(self.orders@)
    }

    /// No orders.
    pub fn new() -> (r: Orders)
        ensures
            r@ == Map::<Seq<char>, OrderView>::empty(),
    {
        let r = Orders { orders: Vec::new() };
        assert(r@ =~= Map::<Seq<char>, OrderView>::empty());
        r
    }

    /// The number of orders.
    pub fn len(&self) -> (r: usize)
        ensures
            r == self@.len(),
    {
        proof {
            use_type_invariant(self);
            self.lemma_len();
        }
        self.orders.len()
    }

    proof fn lemma_len(&self)
        requires
            self.wf(),
        ensures
            self@.len() == self.orders@.len(),
            self@.dom().finite(),
    {
        let s = self.orders@;
        let f = |i: int| s[i]@.ticket;
        let idx = Set::new(|i: int| 0 <= i < s.len());
        assert(idx =~= vstd::set_lib::set_int_range(0, s.len() as int));
        vstd::set_lib::lemma_int_range(0, s.len() as int);
        assert(self@.dom() =~= idx.map(f)) by {
            assert forall|k: Seq<char>| self@.dom().contains(k) implies idx.map(f).contains(k) by {
                let j = choose|j: int| 0 <= j < s.len() && #[trigger] s[j]@.ticket == k;
                assert(idx.contains(j));
            }
        }
        assert(vstd::relations::injective_on(f, idx)) by {
            assert forall|a: int, b: int| idx.contains(a) && idx.contains(b) && #[trigger] f(a) == #[trigger] f(b)
                implies a == b by {
                if a < b {
                    assert(s[a]@.ticket != s[b]@.ticket);
                } else if b < a {
                    assert(s[b]@.ticket != s[a]@.ticket);
                }
            }
        }
        vstd::set_lib::lemma_map_size(idx, idx.map(f), f);
    }

    fn find(&self, ticket: &str) -> (r: Option<usize>)
        ensures
            r matches Some(i) ==> i < self.orders@.len() && self.orders@[i as int]@.ticket == ticket@,
            r is None ==> !has_ticket(self.orders@, ticket@),
    {
        let n = self.orders.len();
        let mut i: usize = 0;
        while i < n
            invariant
                n == self.orders@.len(),
                i <= n,
                forall|j: int| 0 <= j < i ==> #[trigger] self.orders@[j]@.ticket != ticket@,
            decreases n - i,
        {
            if crate::text::str_eq(self.orders[i].ticket.as_str(), ticket) {
                return Some(i);
            }
            i = i + 1;
        }
        None
    }

    /// Whether there is an order for `ticket`.
    pub fn has_order(&self, ticket: &str) -> (r: bool)
        ensures
            r == self@.contains_key(ticket@),
    {
        self.find(ticket).is_some()
    }

    /// The order for `ticket`, if there is one.
    pub fn get_order(&self, ticket: &str) -> (r: Option<&Order>)
        ensures
            r matches Some(o) ==> self@.contains_key(ticket@) && self@[ticket@] == o@,
            r is None ==> !self@.contains_key(ticket@),
    {
        proof {
            use_type_invariant(self);
        }
        match self.find(ticket) {
            Some(i) => {
                proof {
                    lemma_orders_map_at(self.orders@, i as int);
                }
                Some(&self.orders[i])
            },
            None => None,
        }
    }

    /// Makes sure that `ticket` has an order: an existing one is kept, else a
    /// new one is added. Gives that order.
    pub fn spawn_order(&mut self, ticket: String) -> (r: &Order)
        ensures
            old(self)@.contains_key(ticket@) ==> final(self)@ == old(self)@,
            !old(self)@.contains_key(ticket@) ==> final(self)@ == old(self)@.insert(
                ticket@,
                OrderView { ticket: ticket@, result: None, waiters: 0 },
            ),
            final(self)@ == spawned(old(self)@, ticket@),
            final(self)@.contains_key(ticket@),
            r@ == final(self)@[ticket@],
    {
        proof {
            use_type_invariant(&*self);
        }
        match self.find(ticket.as_str()) {
            Some(i) => {
                proof {
                    lemma_orders_map_at(self.orders@, i as int);
                }
                &self.orders[i]
            },
            None => {
                let i = self.orders.len();
                let o = Order::new(ticket);
                let mut v: Vec<Order> = Vec::new();
                std::mem::swap(&mut v, &mut self.orders);
                proof {
                    lemma_orders_map_push(v@, o);
                }
                v.push(o);
                self.orders = v;
                proof {
                    lemma_orders_map_at(self.orders@, i as int);
                }
                &self.orders[i]
            },
        }
    }

    /// Replaces the order at position `i` with one of the same ticket.
    fn replace_at(&mut self, i: usize, o: Order)
        requires
            i < old(self).orders@.len(),
            o@.ticket == old(self).orders@[i as int]@.ticket,
        ensures
            final(self)@ == old(self)@.insert(o@.ticket, o@),
            final(self).orders@.len() == old(self).orders@.len(),
    {
        proof {
            use_type_invariant(&*self);
        }
        let mut v: Vec<Order> = Vec::new();
        std::mem::swap(&mut v, &mut self.orders);
        proof {
            lemma_orders_map_update(v@, i as int, o);
        }
        v.set(i, o);
        self.orders = v;
    }

    /// Sets the result of the order for `ticket`, known since `timestamp`:
    /// none when there is no such order, else what setting it gave.
    pub fn complete(&mut self, ticket: &str, success: bool, timestamp: u64) -> (r: Option<Result<(), CoffeeShopError>>)
        ensures
            !old(self)@.contains_key(ticket@) ==> r is None && final(self)@ == old(self)@,
            old(self)@.contains_key(ticket@) && old(self)@[ticket@].result is None ==> r == Some(
                Ok::<(), CoffeeShopError>(()),
            ) && final(self)@ == old(self)@.insert(
                ticket@,
                OrderView { result: Some((timestamp, success)), ..old(self)@[ticket@] },
            ),
            old(self)@.contains_key(ticket@) && old(self)@[ticket@].result is Some ==> (r matches Some(
                Err(CoffeeShopError::ResultAlreadySet),
            ) && final(self)@ == old(self)@),
    {
        proof {
            use_type_invariant(&*self);
        }
        match self.find(ticket) {
            None => None,
            Some(i) => {
                proof {
                    lemma_orders_map_at(self.orders@, i as int);
                }
                if self.orders[i].result.is_some() {
                    Some(Err(CoffeeShopError::ResultAlreadySet))
                } else {
                    let o = Order {
                        ticket: self.orders[i].ticket.clone(),
                        result: Some((timestamp, success)),
                        waiters: self.orders[i].waiters,
                    };
                    self.replace_at(i, o);
                    Some(Ok(()))
                }
            },
        }
    }
}

} // verus!

verus! {

/// What applying found results, in turn, does to the orders: each found
/// result completes the order of its ticket, if there is one; the first that
/// meets an order whose result is already known stops the run with an
/// error. Gives the orders as they then stand, and whether the run went
/// through.
pub open spec fn settle(m: Map<Seq<char>, OrderView>, found: Seq<(Seq<char>, bool)>, now: u64) -> (
    Map<Seq<char>, OrderView>,
    bool,
)
    decreases found.len(),
{
    if found.len() == 0 {
        (m, true)
    } else {
        let (t, s) = found[0];
        if !m.contains_key(t) {
            settle(m, found.drop_first(), now)
        } else if m[t].result is Some {
            (m, false)
        } else {
            settle(m.insert(t, OrderView { result: Some((now, s)), ..m[t] }), found.drop_first(), now)
        }
    }
}

/// Whether some string of the list has this text.
pub open spec fn listed(v: Seq<String>, k: Seq<char>) -> bool {
    exists|j: int| 0 <= j < v.len() && #[trigger] v[j]@ == k
}

/// Whether one of the first `i` orders has this ticket and no result.
pub open spec fn pending_before(s: Seq<Order>, i: int, k: Seq<char>) -> bool {
    exists|j: int| 0 <= j < i && #[trigger] s[j]@.ticket == k && s[j]@.result is None
}

/// Whether one of the first `i` orders of `s` has this content and is not
/// stale.
pub open spec fn fresh_before(s: Seq<Order>, i: int, v: OrderView, now: u64, max_age: u64) -> bool {
    exists|jj: int| 0 <= jj < i && #[trigger] s[jj]@ == v && !order_is_stale(s[jj]@, now, max_age)
}

/// Whether an order of the list has this content.
pub open spec fn in_list(s: Seq<Order>, v: OrderView) -> bool {
    exists|j: int| 0 <= j < s.len() && #[trigger] s[j]@ == v
}

impl Orders {
    /// The tickets whose orders have no result yet.
    pub fn unfulfilled_tickets(&self) -> (r: Vec<String>)
        ensures
            forall|k: Seq<char>| #[trigger] listed(r@, k) <==> (self@.contains_key(k) && self@[k].result is None),
    {
        proof {
            use_type_invariant(self);
        }
        let n = self.orders.len();
        let mut out: Vec<String> = Vec::new();
        let mut i: usize = 0;
        while i < n
            invariant
                n == self.orders@.len(),
                distinct_tickets(self.orders@),
                i <= n,
                forall|k: Seq<char>| #[trigger] listed(out@, k) <==> pending_before(self.orders@, i as int, k),
            decreases n - i,
        {
            let ghost before = out@;
            if self.orders[i].result.is_none() {
                out.push(self.orders[i].ticket.clone());
            }
            assert forall|k: Seq<char>| #[trigger] listed(out@, k) <==> pending_before(self.orders@, i + 1, k) by {
                if listed(out@, k) {
                    let j = choose|j: int| 0 <= j < out@.len() && #[trigger] out@[j]@ == k;
                    if j < before.len() {
                        assert(before[j]@ == k);
                        assert(listed(before, k));
                    } else {
                        assert(self.orders@[i as int]@.ticket == k);
                    }
                }
                if pending_before(self.orders@, i + 1, k) {
                    let j = choose|j: int| 0 <= j < i + 1 && #[trigger] self.orders@[j]@.ticket == k
                        && self.orders@[j]@.result is None;
                    if j < i {
                        assert(pending_before(self.orders@, i as int, k));
                        assert(listed(before, k));
                        let jj = choose|jj: int| 0 <= jj < before.len() && #[trigger] before[jj]@ == k;
                        assert(out@[jj] == before[jj]);
                    } else {
                        assert(out@[before.len() as int]@ == k);
                    }
                }
            }
            i = i + 1;
        }
        assert forall|k: Seq<char>| #[trigger] listed(out@, k) <==> (self@.contains_key(k) && self@[k].result is None) by {
            if pending_before(self.orders@, n as int, k) {
                let j = choose|j: int| 0 <= j < n && #[trigger] self.orders@[j]@.ticket == k
                    && self.orders@[j]@.result is None;
                lemma_orders_map_at(self.orders@, j);
            }
            if self@.contains_key(k) && self@[k].result is None {
                let j = choose|j: int| 0 <= j < n && #[trigger] self.orders@[j]@.ticket == k;
                lemma_orders_map_at(self.orders@, j);
            }
        }
        out
    }

    /// Applies found results in turn (see [`settle`]), each known since
    /// `now`: the check of newly fulfilled orders. An order whose result is
    /// already known stops the run with `ResultAlreadySet`.
    pub fn apply_found_results(&mut self, found: &Vec<(String, bool)>, now: u64) -> (r: Result<(), CoffeeShopError>)
        ensures
            final(self)@ == settle(old(self)@, found@.map_values(|p: (String, bool)| (p.0@, p.1)), now).0,
            r is Ok <==> settle(old(self)@, found@.map_values(|p: (String, bool)| (p.0@, p.1)), now).1,
            r matches Err(e) ==> e is ResultAlreadySet,
    {
        let ghost all = found@.map_values(|p: (String, bool)| (p.0@, p.1));
        let n = found.len();
        let mut i: usize = 0;
        assert(all.subrange(0, n as int) =~= all);
        while i < n
            invariant
                n == found@.len(),
                all == found@.map_values(|p: (String, bool)| (p.0@, p.1)),
                i <= n,
                settle(old(self)@, all, now) == settle(self@, all.subrange(i as int, n as int), now),
            decreases n - i,
        {
            let ghost rest = all.subrange(i as int, n as int);
            assert(rest.drop_first() =~= all.subrange(i + 1, n as int));
            assert(rest[0] == (found@[i as int].0@, found@[i as int].1));
            match self.complete(found[i].0.as_str(), found[i].1, now) {
                Some(Err(e)) => {
                    return Err(e);
                },
                _ => {},
            }
            i = i + 1;
        }
        assert(all.subrange(n as int, n as int) =~= Seq::<(Seq<char>, bool)>::empty());
        Ok(())
    }

    /// Applies a received announcement: a finished ticket completes its order,
    /// known since `now`, if the shop has one; an order whose result is
    /// already known gives `ResultAlreadySet`; any other announcement, or one
    /// about a ticket without an order, changes nothing.
    pub fn handle_announcement(&mut self, message: &MulticastMessage, now: u64) -> (r: Result<(), CoffeeShopError>)
        ensures
            match message.spec_completion() {
                Some(success) => {
                    let t = message.ticket@;
                    if !old(self)@.contains_key(t) {
                        r is Ok && final(self)@ == old(self)@
                    } else if old(self)@[t].result is Some {
                        (r matches Err(e) && e is ResultAlreadySet) && final(self)@ == old(self)@
                    } else {
                        r is Ok && final(self)@ == old(self)@.insert(
                            t,
                            OrderView { result: Some((now, success)), ..old(self)@[t] },
                        )
                    }
                },
                None => r is Ok && final(self)@ == old(self)@,
            },
    {
        match message.completion() {
            Some(success) => match self.complete(message.ticket.as_str(), success, now) {
                Some(Err(e)) => Err(e),
                _ => Ok(()),
            },
            None => Ok(()),
        }
    }

    /// Adds a waiter to the order for `ticket`; gives whether there is one.
    pub fn add_waiter(&mut self, ticket: &str) -> (r: bool)
        ensures
            r == old(self)@.contains_key(ticket@),
            r && old(self)@[ticket@].waiters < usize::MAX ==> final(self)@ == old(self)@.insert(
                ticket@,
                OrderView { waiters: (old(self)@[ticket@].waiters + 1) as usize, ..old(self)@[ticket@] },
            ),
            !(r && old(self)@[ticket@].waiters < usize::MAX) ==> final(self)@ == old(self)@,
            final(self)@ == waiter_added(old(self)@, ticket@),
    {
        proof {
            use_type_invariant(&*self);
        }
        match self.find(ticket) {
            None => false,
            Some(i) => {
                proof {
                    lemma_orders_map_at(self.orders@, i as int);
                }
                if self.orders[i].waiters < usize::MAX {
                    let o = Order {
                        ticket: self.orders[i].ticket.clone(),
                        result: self.orders[i].result,
                        waiters: self.orders[i].waiters + 1,
                    };
                    self.replace_at(i, o);
                }
                true
            },
        }
    }

    /// Removes a waiter from the order for `ticket`, if there is one.
    pub fn remove_waiter(&mut self, ticket: &str)
        ensures
            old(self)@.contains_key(ticket@) ==> final(self)@ == old(self)@.insert(
                ticket@,
                OrderView {
                    waiters: (if old(self)@[ticket@].waiters > 0 { old(self)@[ticket@].waiters - 1 } else { 0 }) as usize,
                    ..old(self)@[ticket@]
                },
            ),
            !old(self)@.contains_key(ticket@) ==> final(self)@ == old(self)@,
            final(self)@ == waiter_removed(old(self)@, ticket@),
    {
        proof {
            use_type_invariant(&*self);
        }
        match self.find(ticket) {
            None => {},
            Some(i) => {
                proof {
                    lemma_orders_map_at(self.orders@, i as int);
                }
                let w = self.orders[i].waiters;
                let o = Order {
                    ticket: self.orders[i].ticket.clone(),
                    result: self.orders[i].result,
                    waiters: if w > 0 { w - 1 } else { 0 },
                };
                self.replace_at(i, o);
            },
        }
    }

    /// Removes the orders that are stale at `now` (see [`order_is_stale`]),
    /// keeping the others as they are; gives how many were removed.
    pub fn purge_stale_orders(&mut self, now: u64, max_age: u64) -> (r: usize)
        ensures
            forall|k: Seq<char>| #[trigger] final(self)@.contains_key(k) <==> (old(self)@.contains_key(k)
                && !order_is_stale(old(self)@[k], now, max_age)),
            forall|k: Seq<char>| #[trigger] final(self)@.contains_key(k) ==> final(self)@[k] == old(self)@[k],
            final(self)@ == purged(old(self)@, now, max_age),
            r as int == old(self)@.len() - final(self)@.len(),
    {
        proof {
            use_type_invariant(&*self);
            self.lemma_len();
        }
        let n = self.orders.len();
        let ghost s = self.orders@;
        let mut kept: Vec<Order> = Vec::new();
        let mut removed: usize = 0;
        let mut i: usize = 0;
        while i < n
            invariant
                n == s.len(),
                s == self.orders@,
                distinct_tickets(s),
                i <= n,
                removed <= i,
                kept@.len() + removed == i,
                distinct_tickets(kept@),
                forall|j: int| 0 <= j < kept@.len() ==> fresh_before(s, i as int, #[trigger] kept@[j]@, now, max_age),
                forall|jj: int| 0 <= jj < i && !order_is_stale(s[jj]@, now, max_age) ==> in_list(kept@, #[trigger] s[jj]@),
            decreases n - i,
        {
            let ghost before = kept@;
            if self.orders[i].is_stale(now, max_age) {
                removed = removed + 1;
            } else {
                let o = Order {
                    ticket: self.orders[i].ticket.clone(),
                    result: self.orders[i].result,
                    waiters: self.orders[i].waiters,
                };
                assert(o@ == s[i as int]@);
                proof {
                    if has_ticket(kept@, o@.ticket) {
                        let j = choose|j: int| 0 <= j < kept@.len() && #[trigger] kept@[j]@.ticket == o@.ticket;
                        assert(fresh_before(s, i as int, kept@[j]@, now, max_age));
                        let jj = choose|jj: int| 0 <= jj < i && #[trigger] s[jj]@ == kept@[j]@
                            && !order_is_stale(s[jj]@, now, max_age);
                        assert(s[jj]@.ticket != s[i as int]@.ticket);
                    }
                    lemma_orders_map_push(kept@, o);
                }
                kept.push(o);
                assert(kept@[before.len() as int]@ == s[i as int]@);
            }
            assert forall|j: int| 0 <= j < kept@.len() implies fresh_before(s, i + 1, #[trigger] kept@[j]@, now, max_age) by {
                if j < before.len() {
                    assert(kept@[j] == before[j]);
                    assert(fresh_before(s, i as int, before[j]@, now, max_age));
                    let jj = choose|jj: int| 0 <= jj < i && #[trigger] s[jj]@ == before[j]@
                        && !order_is_stale(s[jj]@, now, max_age);
                    assert(0 <= jj < i + 1 && s[jj]@ == kept@[j]@);
                } else {
                    assert(s[i as int]@ == kept@[j]@);
                }
            }
            assert forall|jj: int| 0 <= jj < i + 1 && !order_is_stale(s[jj]@, now, max_age) implies in_list(kept@, #[trigger] s[jj]@) by {
                if jj < i {
                    assert(in_list(before, s[jj]@));
                    let j = choose|j: int| 0 <= j < before.len() && #[trigger] before[j]@ == s[jj]@;
                    assert(kept@[j] == before[j]);
                } else {
                    assert(kept@[before.len() as int]@ == s[jj]@);
                }
            }
            i = i + 1;
        }
        proof {
            let m0 = orders_map(s);
            let m1 = orders_map(kept@);
            assert forall|k: Seq<char>| #[trigger] m1.contains_key(k) <==> (m0.contains_key(k) && !order_is_stale(
                m0[k],
                now,
                max_age,
            )) by {
                if m1.contains_key(k) {
                    let j = choose|j: int| 0 <= j < kept@.len() && #[trigger] kept@[j]@.ticket == k;
                    assert(fresh_before(s, n as int, kept@[j]@, now, max_age));
                    let jj = choose|jj: int| 0 <= jj < n && #[trigger] s[jj]@ == kept@[j]@
                        && !order_is_stale(s[jj]@, now, max_age);
                    lemma_orders_map_at(s, jj);
                }
                if m0.contains_key(k) && !order_is_stale(m0[k], now, max_age) {
                    let jj = choose|jj: int| 0 <= jj < n && #[trigger] s[jj]@.ticket == k;
                    lemma_orders_map_at(s, jj);
                    assert(in_list(kept@, s[jj]@));
                    let j = choose|j: int| 0 <= j < kept@.len() && #[trigger] kept@[j]@ == s[jj]@;
                    assert(kept@[j]@.ticket == k);
                }
            }
            assert forall|k: Seq<char>| #[trigger] m1.contains_key(k) implies m1[k] == m0[k] by {
                let j = choose|j: int| 0 <= j < kept@.len() && #[trigger] kept@[j]@.ticket == k;
                assert(fresh_before(s, n as int, kept@[j]@, now, max_age));
                let jj = choose|jj: int| 0 <= jj < n && #[trigger] s[jj]@ == kept@[j]@
                    && !order_is_stale(s[jj]@, now, max_age);
                lemma_orders_map_at(s, jj);
                lemma_orders_map_at(kept@, j);
            }
        }
        self.orders = kept;
        proof {
            self.lemma_len();
            assert(self@ =~= purged(old(self)@, now, max_age));
        }
        removed
    }
}

} // verus!

verus! {

/// A clock reading counts nanoseconds: `secs` whole seconds and `nanos`
/// nanoseconds since the Unix epoch are `secs * 10^9 + nanos` nanoseconds,
/// wherever that count fits; a clock before the epoch reads zero.
pub proof fn law_clock_counts_nanoseconds(secs: u64, nanos: u32)
    requires
        nanos < 1_000_000_000,
        secs * 1_000_000_000 + nanos <= u64::MAX,
    ensures
        spec_epoch_nanos(Some((secs, nanos))) == secs * 1_000_000_000 + nanos,
        spec_epoch_nanos(None) == 0,
{
}

/// An order is stale exactly when nobody waits for it and its result became
/// known more than `max_age` before `now`; whether the ticket succeeded plays
/// no part.
pub proof fn law_staleness_is_age_and_waiters(o: OrderView, now: u64, max_age: u64)
    ensures
        order_is_stale(o, now, max_age) <==> (o.waiters == 0 && o.result is Some && now > (o.result->0).0
            + max_age),
{
}

/// Flipping the outcome of a known result does not change whether its order
/// is stale: a failed or rejected ticket is purged like a successful one.
pub proof fn law_staleness_ignores_outcome(o: OrderView, t: u64, s: bool, now: u64, max_age: u64)
    requires
        o.result == Some((t, s)),
    ensures
        order_is_stale(o, now, max_age) == order_is_stale(
            OrderView { result: Some((t, !s)), ..o },
            now,
            max_age,
        ),
{
}

/// A result set at one clock reading and looked at a later reading is as old
/// as the nanoseconds between the two readings: while that is within
/// `max_age`, the order is kept whatever the outcome; once it is beyond,
/// and nobody waits, the order is stale.
pub proof fn law_result_age_is_clock_distance(
    o: OrderView,
    success: bool,
    set_at: (u64, u32),
    seen_at: (u64, u32),
    max_age: u64,
)
    requires
        set_at.1 < 1_000_000_000,
        seen_at.1 < 1_000_000_000,
        set_at.0 * 1_000_000_000 + set_at.1 <= seen_at.0 * 1_000_000_000 + seen_at.1,
        seen_at.0 * 1_000_000_000 + seen_at.1 <= u64::MAX,
    ensures
        ({
            let done = OrderView { result: Some((spec_epoch_nanos(Some(set_at)), success)), ..o };
            let gap = (seen_at.0 * 1_000_000_000 + seen_at.1) - (set_at.0 * 1_000_000_000 + set_at.1);
            &&& gap <= max_age ==> !order_is_stale(done, spec_epoch_nanos(Some(seen_at)), max_age)
            &&& gap > max_age && o.waiters == 0 ==> order_is_stale(done, spec_epoch_nanos(Some(seen_at)), max_age)
        }),
{
}

/// A stale order has its result and nobody waits for it.
pub proof fn law_stale_orders_are_done_and_unwatched(o: OrderView, now: u64, max_age: u64)
    requires
        order_is_stale(o, now, max_age),
    ensures
        o.result is Some,
        o.waiters == 0,
{
}

/// An order that somebody waits for, or whose result is not known yet,
/// survives a purge unchanged.
pub proof fn law_awaited_orders_survive_purge(m: Map<Seq<char>, OrderView>, t: Seq<char>, now: u64, max_age: u64)
    requires
        m.contains_key(t),
        m[t].waiters > 0 || m[t].result is None,
    ensures
        purged(m, now, max_age).contains_key(t),
        purged(m, now, max_age)[t] == m[t],
{
}

/// After a purge no order is stale, and purging again at the same time
/// changes nothing.
pub proof fn law_purge_is_idempotent(m: Map<Seq<char>, OrderView>, now: u64, max_age: u64)
    ensures
        forall|k: Seq<char>| #[trigger] purged(m, now, max_age).contains_key(k) ==> !order_is_stale(
            purged(m, now, max_age)[k],
            now,
            max_age,
        ),
        purged(purged(m, now, max_age), now, max_age) == purged(m, now, max_age),
{
    assert(purged(purged(m, now, max_age), now, max_age) =~= purged(m, now, max_age));
}

/// Removing a waiter undoes adding one.
pub proof fn law_waiter_removal_undoes_addition(m: Map<Seq<char>, OrderView>, t: Seq<char>)
    requires
        m.contains_key(t),
        m[t].waiters < usize::MAX,
    ensures
        waiter_removed(waiter_added(m, t), t) == m,
{
    assert(waiter_removed(waiter_added(m, t), t) =~= m);
}

/// Spawning an order keeps an existing one, and spawning it again changes
/// nothing.
pub proof fn law_spawn_is_idempotent(m: Map<Seq<char>, OrderView>, t: Seq<char>)
    ensures
        m.contains_key(t) ==> spawned(m, t) == m,
        spawned(spawned(m, t), t) == spawned(m, t),
        spawned(m, t).contains_key(t),
{
}

/// Applying found results never adds or removes an order, never changes a
/// result that was already known, and touches only the orders of the tickets
/// found.
pub proof fn law_results_are_final(m: Map<Seq<char>, OrderView>, found: Seq<(Seq<char>, bool)>, now: u64)
    ensures
        settle(m, found, now).0.dom() == m.dom(),
        forall|k: Seq<char>| #[trigger] m.contains_key(k) && m[k].result is Some ==> settle(m, found, now).0[k]
            == m[k],
        forall|k: Seq<char>| #[trigger] m.contains_key(k) && !(exists|j: int| 0 <= j < found.len() && found[j].0 == k)
            ==> settle(m, found, now).0[k] == m[k],
        forall|k: Seq<char>| #[trigger] m.contains_key(k) ==> settle(m, found, now).0[k].ticket == m[k].ticket
            && settle(m, found, now).0[k].waiters == m[k].waiters,
    decreases found.len(),
{
    if found.len() > 0 {
        let (t, sv) = found[0];
        if !m.contains_key(t) {
            law_results_are_final(m, found.drop_first(), now);
            assert forall|k: Seq<char>| #[trigger] m.contains_key(k) && !(exists|j: int| 0 <= j < found.len() && found[j].0 == k)
                implies settle(m, found, now).0[k] == m[k] by {
                assert forall|j: int| 0 <= j < found.drop_first().len() implies found.drop_first()[j].0 != k by {
                    assert(found[j + 1].0 != k);
                }
            }
        } else if m[t].result is None {
            let m1 = m.insert(t, OrderView { result: Some((now, sv)), ..m[t] });
            law_results_are_final(m1, found.drop_first(), now);
            assert(m1.dom() =~= m.dom());
            assert forall|k: Seq<char>| #[trigger] m.contains_key(k) && !(exists|j: int| 0 <= j < found.len() && found[j].0 == k)
                implies settle(m, found, now).0[k] == m[k] by {
                assert(found[0].0 != k);
                assert forall|j: int| 0 <= j < found.drop_first().len() implies found.drop_first()[j].0 != k by {
                    assert(found[j + 1].0 != k);
                }
                assert(m1.contains_key(k));
            }
            assert forall|k: Seq<char>| #[trigger] m.contains_key(k) && m[k].result is Some implies settle(m, found, now).0[k]
                == m[k] by {
                assert(k != t);
                assert(m1.contains_key(k));
            }
            assert forall|k: Seq<char>| #[trigger] m.contains_key(k) implies settle(m, found, now).0[k].ticket == m[k].ticket
                && settle(m, found, now).0[k].waiters == m[k].waiters by {
                assert(m1.contains_key(k));
            }
        }
    }
}

} // verus!
