//! Per-bounty analytics: how much of each bounty was locked, released and
//! refunded, how much remains, and how many partial payouts were made.
//!
//! All accumulator updates are checked: an update that would overflow an
//! `i128` total or a `u32` counter is refused with
//! [`AnalyticsError::Overflow`] and leaves the stored record untouched. The
//! remaining amount saturates instead of wrapping.
use std::collections::HashMap;
use vstd::prelude::*;

verus! {

broadcast use vstd::std_specs::hash::group_hash_axioms;

/// Version tag carried by every analytics event.
pub const ANALYTICS_VERSION_V1: u32 = 1;

/// Error of an analytics update.
#[derive(Clone, Copy, Debug, PartialEq, Eq, Structural)]
pub enum AnalyticsError {
    /// A checked accumulator update would overflow its type.
    Overflow,
}

/// Summary of one bounty.
#[derive(Clone, Copy, Debug, PartialEq, Eq, Structural)]
pub struct BountyAnalytics {
    /// Amount originally locked.
    pub total_amount_locked: i128,
    /// Sum of all releases to contributors.
    pub total_amount_released: i128,
    /// Sum of all refunds to the depositor.
    pub total_amount_refunded: i128,
    /// Amount still held in escrow.
    pub remaining_amount: i128,
    /// Time the bounty was locked.
    pub created_at: u64,
    /// Time of the last update.
    pub last_updated: u64,
    /// Number of releases recorded.
    pub partial_releases_count: u32,
    /// Number of refunds recorded.
    pub partial_refunds_count: u32,
}

/// Contract-wide metrics.
#[derive(Clone, Copy, Debug, PartialEq, Eq, Structural)]
pub struct ContractAnalytics {
    /// Bounties that are locked or partially refunded.
    pub active_bounty_count: u32,
    pub released_bounty_count: u32,
    pub refunded_bounty_count: u32,
    pub total_locked: i128,
    pub total_released: i128,
    pub total_refunded: i128,
    pub average_bounty_amount: i128,
    pub snapshot_timestamp: u64,
}

/// Snapshot event of the contract-wide metrics.
#[derive(Clone, Copy, Debug, PartialEq, Eq, Structural)]
pub struct AnalyticsSnapshot {
    pub version: u32,
    pub metrics: ContractAnalytics,
}

/// Ledger key of the analytics of one bounty.
#[derive(Clone, Copy, Debug, PartialEq, Eq, Structural)]
pub enum AnalyticsKey {
    BountyMetrics(u64),
}

/// The analytics records of all bounties, keyed by bounty id.
pub struct AnalyticsStore {
    pub metrics: HashMap<u64, BountyAnalytics>,
}

impl View for AnalyticsStore {
    type V = Map<u64, BountyAnalytics>;

    open spec fn view(&self) -> Map<u64, BountyAnalytics> {
        self.metrics@
    }
}

impl AnalyticsStore {
    /// A store without any record.
    pub fn new() -> (store: Self)
        ensures
            store@ == Map::<u64, BountyAnalytics>::empty(),
    {
        AnalyticsStore { metrics: HashMap::new() }
    }
}

/// The record of a bounty just locked with `amount` at time `timestamp`.
pub open spec fn initial_analytics(amount: i128, timestamp: u64) -> BountyAnalytics {
    BountyAnalytics {
        total_amount_locked: amount,
        total_amount_released: 0,
        total_amount_refunded: 0,
        remaining_amount: amount,
        created_at: timestamp,
        last_updated: timestamp,
        partial_releases_count: 0,
        partial_refunds_count: 0,
    }
}

/// `a - b`, clamped to the range of `i128`.
pub open spec fn saturating_sub(a: i128, b: i128) -> i128 {
    if a - b > i128::MAX {
        i128::MAX
    } else if a - b < i128::MIN {
        i128::MIN
    } else {
        (a - b) as i128
    }
}

/// Whether `a + b` fits in an `i128`.
pub open spec fn fits_i128(a: int, b: int) -> bool {
    i128::MIN <= a + b <= i128::MAX
}

/// The record after a release of `amount` at `timestamp`, or the overflow
/// that refuses it.
pub open spec fn released(a: BountyAnalytics, amount: i128, timestamp: u64) -> Result<
    BountyAnalytics,
    AnalyticsError,
> {
    if !fits_i128(a.total_amount_released as int, amount as int)
        || a.partial_releases_count == u32::MAX {
        Err(AnalyticsError::Overflow)
    } else {
        Ok(
            BountyAnalytics {
                total_amount_released: (a.total_amount_released + amount) as i128,
                remaining_amount: saturating_sub(a.remaining_amount, amount),
                last_updated: timestamp,
                partial_releases_count: (a.partial_releases_count + 1) as u32,
                ..a
            },
        )
    }
}

/// The record after a refund of `amount` at `timestamp`, or the overflow
/// that refuses it.
pub open spec fn refunded(a: BountyAnalytics, amount: i128, timestamp: u64) -> Result<
    BountyAnalytics,
    AnalyticsError,
> {
    if !fits_i128(a.total_amount_refunded as int, amount as int)
        || a.partial_refunds_count == u32::MAX {
        Err(AnalyticsError::Overflow)
    } else {
        Ok(
            BountyAnalytics {
                total_amount_refunded: (a.total_amount_refunded + amount) as i128,
                remaining_amount: saturating_sub(a.remaining_amount, amount),
                last_updated: timestamp,
                partial_refunds_count: (a.partial_refunds_count + 1) as u32,
                ..a
            },
        )
    }
}

/// Result of applying an update to the record of `bounty_id` in `m`: an
/// absent record is left absent and the update succeeds; a refused update
/// leaves `m` as it was.
pub open spec fn store_update(
    m: Map<u64, BountyAnalytics>,
    bounty_id: u64,
    update: Result<BountyAnalytics, AnalyticsError>,
) -> (Result<(), AnalyticsError>, Map<u64, BountyAnalytics>) {
    if !m.contains_key(bounty_id) {
        (Ok(()), m)
    } else {
        match update {
            Ok(a) => (Ok(()), m.insert(bounty_id, a)),
            Err(e) => (Err(e), m),
        }
    }
}

fn saturating_sub_i128(a: i128, b: i128) -> (r: i128)
    ensures
        r == saturating_sub(a, b),
{
    match a.checked_sub(b) {
        Some(v) => v,
        None => if b > 0 {
            i128::MIN
        } else {
            i128::MAX
        },
    }
}

fn apply_release(a: &BountyAnalytics, amount: i128, timestamp: u64) -> (r: Result<
    BountyAnalytics,
    AnalyticsError,
>)
    ensures
        r == released(*a, amount, timestamp),
{
    let total = match a.total_amount_released.checked_add(amount) {
        Some(t) => t,
        None => return Err(AnalyticsError::Overflow),
    };
    let count = match a.partial_releases_count.checked_add(1) {
        Some(c) => c,
        None => return Err(AnalyticsError::Overflow),
    };
    Ok(
        BountyAnalytics {
            total_amount_released: total,
            remaining_amount: saturating_sub_i128(a.remaining_amount, amount),
            last_updated: timestamp,
            partial_releases_count: count,
            ..*a
        },
    )
}

fn apply_refund(a: &BountyAnalytics, amount: i128, timestamp: u64) -> (r: Result<
    BountyAnalytics,
    AnalyticsError,
>)
    ensures
        r == refunded(*a, amount, timestamp),
{
    let total = match a.total_amount_refunded.checked_add(amount) {
        Some(t) => t,
        None => return Err(AnalyticsError::Overflow),
    };
    let count = match a.partial_refunds_count.checked_add(1) {
        Some(c) => c,
        None => return Err(AnalyticsError::Overflow),
    };
    Ok(
        BountyAnalytics {
            total_amount_refunded: total,
            remaining_amount: saturating_sub_i128(a.remaining_amount, amount),
            last_updated: timestamp,
            partial_refunds_count: count,
            ..*a
        },
    )
}

/// Starts the record of `bounty_id` when `amount` is locked at `timestamp`,
/// replacing any earlier record of that id.
pub fn init_bounty_analytics(store: &mut AnalyticsStore, bounty_id: u64, amount: i128, timestamp: u64)
    ensures
        final(store)@ == old(store)@.insert(bounty_id, initial_analytics(amount, timestamp)),
{
    let analytics = BountyAnalytics {
        total_amount_locked: amount,
        total_amount_released: 0,
        total_amount_refunded: 0,
        remaining_amount: amount,
        created_at: timestamp,
        last_updated: timestamp,
        partial_releases_count: 0,
        partial_refunds_count: 0,
    };
    store.metrics.insert(bounty_id, analytics);
}

/// Records a release of `release_amount` at `timestamp`: the released total
/// and the release count grow (checked), the remaining amount shrinks
/// (saturating). A bounty without a record is ignored.
pub fn update_analytics_on_release(
    store: &mut AnalyticsStore,
    bounty_id: u64,
    release_amount: i128,
    timestamp: u64,
) -> (result: Result<(), AnalyticsError>)
    ensures
        ({
            let expected = store_update(
                old(store)@,
                bounty_id,
                released(old(store)@[bounty_id], release_amount, timestamp),
            );
            result == expected.0 && final(store)@ == expected.1
        }),
{
    let current = match store.metrics.get(&bounty_id) {
        Some(a) => *a,
        None => return Ok(()),
    };
    let updated = apply_release(&current, release_amount, timestamp)?;
    store.metrics.insert(bounty_id, updated);
    Ok(())
}

/// Records a refund of `refund_amount` at `timestamp`: the refunded total and
/// the refund count grow (checked), the remaining amount shrinks
/// (saturating). A bounty without a record is ignored.
pub fn update_analytics_on_refund(
    store: &mut AnalyticsStore,
    bounty_id: u64,
    refund_amount: i128,
    timestamp: u64,
) -> (result: Result<(), AnalyticsError>)
    ensures
        ({
            let expected = store_update(
                old(store)@,
                bounty_id,
                refunded(old(store)@[bounty_id], refund_amount, timestamp),
            );
            result == expected.0 && final(store)@ == expected.1
        }),
{
    let current = match store.metrics.get(&bounty_id) {
        Some(a) => *a,
        None => return Ok(()),
    };
    let updated = apply_refund(&current, refund_amount, timestamp)?;
    store.metrics.insert(bounty_id, updated);
    Ok(())
}

/// The record of `bounty_id`, if one was started.
pub fn get_bounty_analytics(store: &AnalyticsStore, bounty_id: u64) -> (analytics: Option<
    BountyAnalytics,
>)
    ensures
        analytics == (if store@.contains_key(bounty_id) {
            Some(store@[bounty_id])
        } else {
            None::<BountyAnalytics>
        }),
{
    match store.metrics.get(&bounty_id) {
        Some(a) => Some(*a),
        None => None,
    }
}

/// Whether the record accounts for every locked unit: what was locked equals
/// what was released, refunded and what remains.
pub open spec fn conserves(a: BountyAnalytics) -> bool {
    a.total_amount_locked == a.total_amount_released + a.total_amount_refunded
        + a.remaining_amount
}

/// Reading a bounty right after its record was started gives the initial
/// record; the records of other bounties are untouched.
pub proof fn law_read_after_init(
    m: Map<u64, BountyAnalytics>,
    bounty_id: u64,
    other: u64,
    amount: i128,
    timestamp: u64,
)
    requires
        other != bounty_id,
    ensures
        m.insert(bounty_id, initial_analytics(amount, timestamp))[bounty_id] == initial_analytics(
            amount,
            timestamp,
        ),
        conserves(initial_analytics(amount, timestamp)),
        m.insert(bounty_id, initial_analytics(amount, timestamp)).contains_key(other)
            == m.contains_key(other),
        m.contains_key(other) ==> m.insert(bounty_id, initial_analytics(amount, timestamp))[other]
            == m[other],
{
}

/// A release or refund that is accepted and does not saturate the remaining
/// amount keeps the record conserving: locked = released + refunded + remaining.
pub proof fn law_updates_conserve(a: BountyAnalytics, amount: i128, timestamp: u64)
    requires
        conserves(a),
        i128::MIN <= a.remaining_amount - amount <= i128::MAX,
    ensures
        released(a, amount, timestamp) matches Ok(r) ==> conserves(r),
        refunded(a, amount, timestamp) matches Ok(r) ==> conserves(r),
{
}

/// A refused update leaves the store unchanged; so does an update of a bounty
/// without a record, which succeeds.
pub proof fn law_refusal_changes_nothing(
    m: Map<u64, BountyAnalytics>,
    bounty_id: u64,
    amount: i128,
    timestamp: u64,
)
    ensures
        released(m[bounty_id], amount, timestamp) is Err && m.contains_key(bounty_id) ==> store_update(
            m,
            bounty_id,
            released(m[bounty_id], amount, timestamp),
        ) == (Err::<(), AnalyticsError>(AnalyticsError::Overflow), m),
        refunded(m[bounty_id], amount, timestamp) is Err && m.contains_key(bounty_id) ==> store_update(
            m,
            bounty_id,
            refunded(m[bounty_id], amount, timestamp),
        ) == (Err::<(), AnalyticsError>(AnalyticsError::Overflow), m),
        !m.contains_key(bounty_id) ==> store_update(
            m,
            bounty_id,
            released(m[bounty_id], amount, timestamp),
        ) == (Ok::<(), AnalyticsError>(()), m),
        !m.contains_key(bounty_id) ==> store_update(
            m,
            bounty_id,
            refunded(m[bounty_id], amount, timestamp),
        ) == (Ok::<(), AnalyticsError>(()), m),
{
}

/// A bounty of `locked` units, released in part (`part`) and refunded for the
/// rest, ends with nothing remaining, one release and one refund recorded.
pub proof fn law_release_then_refund_drains(
    locked: i128,
    part: i128,
    t0: u64,
    t1: u64,
    t2: u64,
)
    requires
        0 <= part <= locked,
    ensures
        ({
            let after_release = released(initial_analytics(locked, t0), part, t1);
            &&& after_release is Ok
            &&& refunded(after_release->Ok_0, (locked - part) as i128, t2) matches Ok(r) && {
                &&& r.remaining_amount == 0
                &&& r.total_amount_released == part
                &&& r.total_amount_refunded == locked - part
                &&& r.partial_releases_count == 1
                &&& r.partial_refunds_count == 1
                &&& r.created_at == t0
                &&& r.last_updated == t2
            }
        }),
{
}

/// A release is accepted exactly when the released total plus the amount
/// fits in an `i128` and the release count is below `u32::MAX`. An accepted
/// release adds the amount to the released total, adds one to the release
/// count, takes the amount off the remaining amount (exactly, when the
/// difference fits in an `i128`), stamps the time, and leaves the locked
/// amount, the refunds and the creation time as they were.
pub proof fn law_release_result(a: BountyAnalytics, amount: i128, timestamp: u64)
    ensures
        released(a, amount, timestamp) is Ok <==> (i128::MIN <= a.total_amount_released + amount
            <= i128::MAX && a.partial_releases_count < u32::MAX),
        released(a, amount, timestamp) matches Ok(r) ==> {
            &&& r.total_amount_released == a.total_amount_released + amount
            &&& r.partial_releases_count == a.partial_releases_count + 1
            &&& (i128::MIN <= a.remaining_amount - amount <= i128::MAX ==> r.remaining_amount
                == a.remaining_amount - amount)
            &&& (a.remaining_amount - amount < i128::MIN ==> r.remaining_amount == i128::MIN)
            &&& (a.remaining_amount - amount > i128::MAX ==> r.remaining_amount == i128::MAX)
            &&& r.last_updated == timestamp
            &&& r.total_amount_locked == a.total_amount_locked
            &&& r.total_amount_refunded == a.total_amount_refunded
            &&& r.partial_refunds_count == a.partial_refunds_count
            &&& r.created_at == a.created_at
        },
{
}

/// A refund is accepted exactly when the refunded total plus the amount fits
/// in an `i128` and the refund count is below `u32::MAX`. An accepted refund
/// adds the amount to the refunded total, adds one to the refund count,
/// takes the amount off the remaining amount (exactly, when the difference
/// fits in an `i128`), stamps the time, and leaves the locked amount, the
/// releases and the creation time as they were.
pub proof fn law_refund_result(a: BountyAnalytics, amount: i128, timestamp: u64)
    ensures
        refunded(a, amount, timestamp) is Ok <==> (i128::MIN <= a.total_amount_refunded + amount
            <= i128::MAX && a.partial_refunds_count < u32::MAX),
        refunded(a, amount, timestamp) matches Ok(r) ==> {
            &&& r.total_amount_refunded == a.total_amount_refunded + amount
            &&& r.partial_refunds_count == a.partial_refunds_count + 1
            &&& (i128::MIN <= a.remaining_amount - amount <= i128::MAX ==> r.remaining_amount
                == a.remaining_amount - amount)
            &&& (a.remaining_amount - amount < i128::MIN ==> r.remaining_amount == i128::MIN)
            &&& (a.remaining_amount - amount > i128::MAX ==> r.remaining_amount == i128::MAX)
            &&& r.last_updated == timestamp
            &&& r.total_amount_locked == a.total_amount_locked
            &&& r.total_amount_released == a.total_amount_released
            &&& r.partial_releases_count == a.partial_releases_count
            &&& r.created_at == a.created_at
        },
{
}

} // verus!
