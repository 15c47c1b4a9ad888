//! Circuit breaker guarding escrow operations against cascading failures.
//!
//! The breaker is `Closed` while operations succeed. Every failure is
//! counted and logged; once the count reaches the configured threshold the
//! breaker opens and `check_and_allow` rejects operations. The registered
//! admin resets an open breaker to `HalfOpen`, where enough successes close
//! it again. Each transition publishes a breaker event, kept in order in
//! `CircuitBreaker::events` for the contract to forward to the ledger.
use vstd::prelude::*;

verus! {

/// Error code returned by `check_and_allow` while the breaker is open.
pub const ERR_CIRCUIT_OPEN: u32 = 1001;

/// Error code logged when a token transfer fails.
pub const ERR_TRANSFER_FAILED: u32 = 1002;

/// Error code logged when the escrow lacks the balance for a payout.
pub const ERR_INSUFFICIENT_BALANCE: u32 = 1003;

/// Breaker position.
#[derive(Clone, Copy, Debug, PartialEq, Eq, Structural)]
pub enum CircuitState {
    Closed,
    Open,
    HalfOpen,
}

/// Ledger keys under which the contract stores the breaker.
#[derive(Clone, Copy, Debug, PartialEq, Eq, Structural)]
pub enum CircuitBreakerKey {
    State,
    FailureCount,
    LastFailureTimestamp,
    OpenedAt,
    SuccessCount,
    Admin,
    Config,
    ErrorLog,
}

/// Tunables of the breaker.
#[derive(Clone, Copy, Debug, PartialEq, Eq, Structural)]
pub struct CircuitBreakerConfig {
    pub failure_threshold: u32,
    pub success_threshold: u32,
    pub max_error_log: u32,
}

impl CircuitBreakerConfig {
    /// The configuration in force when none was stored.
    pub open spec fn default_config() -> Self {
        CircuitBreakerConfig { failure_threshold: 3, success_threshold: 1, max_error_log: 10 }
    }

    /// Three failures open the breaker, one success in half-open closes it,
    /// and the error log keeps the ten latest entries.
    pub fn default() -> (config: Self)
        ensures
            config == Self::default_config(),
    {
        CircuitBreakerConfig { failure_threshold: 3, success_threshold: 1, max_error_log: 10 }
    }
}

/// One logged failure.
#[derive(Clone, Debug, PartialEq, Eq)]
pub struct ErrorEntry {
    /// Name of the failed operation (a ledger symbol).
    pub operation: String,
    pub bounty_id: u64,
    pub error_code: u32,
    pub timestamp: u64,
    /// The failure count including this failure.
    pub failure_count_at_time: u32,
}

/// Everything a caller may want to know about the breaker at once.
#[derive(Clone, Copy, Debug, PartialEq, Eq, Structural)]
pub struct CircuitBreakerStatus {
    pub state: CircuitState,
    pub failure_count: u32,
    pub success_count: u32,
    pub last_failure_timestamp: u64,
    pub opened_at: u64,
    pub failure_threshold: u32,
    pub success_threshold: u32,
}

/// Kind of a breaker event; the contract publishes it under the topic
/// `("circuit", kind)` with the event's value and the ledger time.
#[derive(Clone, Copy, Debug, PartialEq, Eq, Structural)]
pub enum CircuitEventKind {
    /// `cb_reject`: an operation was refused while open.
    Reject,
    /// `cb_fail`: a failure was recorded.
    Fail,
    /// `cb_open`: the breaker opened.
    Open,
    /// `cb_half`: the breaker moved to half-open.
    HalfOpen,
    /// `cb_close`: the breaker closed.
    Close,
}

/// A published breaker event.
#[derive(Clone, Copy, Debug, PartialEq, Eq, Structural)]
pub struct CircuitEvent {
    pub kind: CircuitEventKind,
    /// The failure count (`Reject`, `Fail`, `Open`, `HalfOpen`) or 0 (`Close`).
    pub value: u32,
}

/// Why an admin-only breaker operation was refused.
#[derive(Clone, Copy, Debug, PartialEq, Eq, Structural)]
pub enum CircuitAdminError {
    /// An admin is registered and the caller is not that admin.
    NotCurrentAdmin,
    /// The caller is not the registered admin, or none is registered.
    NotRegisteredAdmin,
}

impl CircuitAdminError {
    /// The message with which the contract aborts on this error.
    pub fn message(&self) -> (text: &'static str)
        ensures
            text@ == (match *self {
                CircuitAdminError::NotCurrentAdmin =>
                    "Unauthorized: only current admin can change circuit breaker admin"@,
                CircuitAdminError::NotRegisteredAdmin =>
                    "Unauthorized: only registered circuit breaker admin can reset"@,
            }),
    {
        match self {
            CircuitAdminError::NotCurrentAdmin =>
                "Unauthorized: only current admin can change circuit breaker admin",
            CircuitAdminError::NotRegisteredAdmin =>
                "Unauthorized: only registered circuit breaker admin can reset",
        }
    }
}

/// The breaker's stored state. A fresh value stands for an empty ledger:
/// closed, no counts, no admin, no stored configuration, empty log.
pub struct CircuitBreaker {
    pub state: CircuitState,
    pub failure_count: u32,
    pub success_count: u32,
    pub last_failure_timestamp: u64,
    pub opened_at: u64,
    /// Strkey of the account allowed to reset the breaker and hand over the role.
    pub admin: Option<String>,
    /// The stored configuration; `None` means the default is in force.
    pub config: Option<CircuitBreakerConfig>,
    /// Logged failures, oldest first.
    pub error_log: Vec<ErrorEntry>,
    /// Events published so far, oldest first.
    pub events: Vec<CircuitEvent>,
}

/// Mathematical model of a `CircuitBreaker`.
pub struct CircuitModel {
    pub state: CircuitState,
    pub failure_count: u32,
    pub success_count: u32,
    pub last_failure_timestamp: u64,
    pub opened_at: u64,
    pub admin: Option<String>,
    pub config: Option<CircuitBreakerConfig>,
    pub error_log: Seq<ErrorEntry>,
    pub events: Seq<CircuitEvent>,
}

impl View for CircuitBreaker {
    type V = CircuitModel;

    open spec fn view(&self) -> CircuitModel {
        CircuitModel {
            state: self.state,
            failure_count: self.failure_count,
            success_count: self.success_count,
            last_failure_timestamp: self.last_failure_timestamp,
            opened_at: self.opened_at,
            admin: self.admin,
            config: self.config,
            error_log: self.error_log@,
            events: self.events@,
        }
    }
}

/// The model of an empty ledger.
pub open spec fn fresh_model() -> CircuitModel {
    CircuitModel {
        state: CircuitState::Closed,
        failure_count: 0,
        success_count: 0,
        last_failure_timestamp: 0,
        opened_at: 0,
        admin: None,
        config: None,
        error_log: Seq::empty(),
        events: Seq::empty(),
    }
}

/// The configuration in force: the stored one, else the default.
pub open spec fn effective_config(m: CircuitModel) -> CircuitBreakerConfig {
    match m.config {
        Some(c) => c,
        None => CircuitBreakerConfig::default_config(),
    }
}

/// `m` with one more event published.
pub open spec fn publish(m: CircuitModel, kind: CircuitEventKind, value: u32) -> CircuitModel {
    CircuitModel { events: m.events.push(CircuitEvent { kind, value }), ..m }
}

/// The last `max` items of `s` (all of `s` when it is no longer).
pub open spec fn keep_latest<T>(s: Seq<T>, max: nat) -> Seq<T> {
    if s.len() > max {
        s.subrange(s.len() - max, s.len() as int)
    } else {
        s
    }
}

/// Effect of `close_circuit`.
pub open spec fn closed(m: CircuitModel) -> CircuitModel {
    publish(
        CircuitModel {
            state: CircuitState::Closed,
            failure_count: 0,
            success_count: 0,
            opened_at: 0,
            ..m
        },
        CircuitEventKind::Close,
        0,
    )
}

/// Effect of `open_circuit` at ledger time `now`.
pub open spec fn opened(m: CircuitModel, now: u64) -> CircuitModel {
    publish(
        CircuitModel { state: CircuitState::Open, opened_at: now, success_count: 0, ..m },
        CircuitEventKind::Open,
        m.failure_count,
    )
}

/// Effect of `half_open_circuit`.
pub open spec fn half_opened(m: CircuitModel) -> CircuitModel {
    publish(
        CircuitModel { state: CircuitState::HalfOpen, success_count: 0, ..m },
        CircuitEventKind::HalfOpen,
        m.failure_count,
    )
}

/// Effect of `record_success`.
pub open spec fn after_success(m: CircuitModel) -> CircuitModel {
    match m.state {
        CircuitState::Closed => CircuitModel { failure_count: 0, success_count: 0, ..m },
        CircuitState::HalfOpen => {
            let counted = CircuitModel { success_count: (m.success_count + 1) as u32, ..m };
            if m.success_count + 1 >= effective_config(m).success_threshold {
                closed(counted)
            } else {
                counted
            }
        },
        CircuitState::Open => m,
    }
}

/// Effect of `record_failure` at ledger time `now`.
pub open spec fn after_failure(
    m: CircuitModel,
    bounty_id: u64,
    operation: String,
    error_code: u32,
    now: u64,
) -> CircuitModel {
    let config = effective_config(m);
    let failures = (m.failure_count + 1) as u32;
    let entry = ErrorEntry {
        operation,
        bounty_id,
        error_code,
        timestamp: now,
        failure_count_at_time: failures,
    };
    let logged = publish(
        CircuitModel {
            failure_count: failures,
            last_failure_timestamp: now,
            error_log: keep_latest(m.error_log.push(entry), config.max_error_log as nat),
            ..m
        },
        CircuitEventKind::Fail,
        failures,
    );
    if failures >= config.failure_threshold {
        opened(logged, now)
    } else {
        logged
    }
}

/// Whether `caller` may hand the admin role over.
pub open spec fn may_change_admin(m: CircuitModel, caller: Option<String>) -> bool {
    match m.admin {
        None => true,
        Some(current) => caller is Some && caller.unwrap()@ == current@,
    }
}

/// Whether `caller` is the registered admin.
pub open spec fn is_registered_admin(m: CircuitModel, caller: String) -> bool {
    m.admin is Some && m.admin.unwrap()@ == caller@
}

/// Effect of a successful `reset_circuit_breaker`.
pub open spec fn after_reset(m: CircuitModel) -> CircuitModel {
    match m.state {
        CircuitState::Open => half_opened(m),
        _ => closed(m),
    }
}

impl CircuitBreaker {
    /// The breaker of an empty ledger.
    pub fn new() -> (cb: Self)
        ensures
            cb@ == fresh_model(),
    {
        CircuitBreaker {
            state: CircuitState::Closed,
            failure_count: 0,
            success_count: 0,
            last_failure_timestamp: 0,
            opened_at: 0,
            admin: None,
            config: None,
            error_log: Vec::new(),
            events: Vec::new(),
        }
    }

    fn publish(&mut self, kind: CircuitEventKind, value: u32)
        ensures
            final(self)@ == publish(old(self)@, kind, value),
    {
        self.events.push(CircuitEvent { kind, value });
    }
}

/// The configuration in force.
pub fn get_config(cb: &CircuitBreaker) -> (config: CircuitBreakerConfig)
    ensures
        config == effective_config(cb@),
{
    match cb.config {
        Some(c) => c,
        None => CircuitBreakerConfig::default(),
    }
}

/// Stores `config`.
pub fn set_config(cb: &mut CircuitBreaker, config: CircuitBreakerConfig)
    ensures
        final(cb)@ == (CircuitModel { config: Some(config), ..old(cb)@ }),
{
    cb.config = Some(config);
}

/// Current position of the breaker.
pub fn get_state(cb: &CircuitBreaker) -> (state: CircuitState)
    ensures
        state == cb@.state,
{
    cb.state
}

/// Failures counted since the breaker last closed or saw a success while closed.
pub fn get_failure_count(cb: &CircuitBreaker) -> (count: u32)
    ensures
        count == cb@.failure_count,
{
    cb.failure_count
}

/// Successes counted while half-open.
pub fn get_success_count(cb: &CircuitBreaker) -> (count: u32)
    ensures
        count == cb@.success_count,
{
    cb.success_count
}

/// Snapshot of the breaker together with the thresholds in force.
pub fn get_status(cb: &CircuitBreaker) -> (status: CircuitBreakerStatus)
    ensures
        status == (CircuitBreakerStatus {
            state: cb@.state,
            failure_count: cb@.failure_count,
            success_count: cb@.success_count,
            last_failure_timestamp: cb@.last_failure_timestamp,
            opened_at: cb@.opened_at,
            failure_threshold: effective_config(cb@).failure_threshold,
            success_threshold: effective_config(cb@).success_threshold,
        }),
{
    let config = get_config(cb);
    CircuitBreakerStatus {
        state: get_state(cb),
        failure_count: get_failure_count(cb),
        success_count: get_success_count(cb),
        last_failure_timestamp: cb.last_failure_timestamp,
        opened_at: cb.opened_at,
        failure_threshold: config.failure_threshold,
        success_threshold: config.success_threshold,
    }
}

/// Admits an operation unless the breaker is open; a refusal is published
/// with the failure count.
pub fn check_and_allow(cb: &mut CircuitBreaker) -> (result: Result<(), u32>)
    ensures
        result == (if old(cb)@.state == CircuitState::Open {
            Err::<(), u32>(ERR_CIRCUIT_OPEN)
        } else {
            Ok(())
        }),
        final(cb)@ == (if old(cb)@.state == CircuitState::Open {
            publish(old(cb)@, CircuitEventKind::Reject, old(cb)@.failure_count)
        } else {
            old(cb)@
        }),
{
    match cb.state {
        CircuitState::Open => {
            let count = get_failure_count(cb);
            cb.publish(CircuitEventKind::Reject, count);
            Err(ERR_CIRCUIT_OPEN)
        },
        CircuitState::Closed | CircuitState::HalfOpen => Ok(()),
    }
}

/// Records a successful operation: while closed it clears both counters;
/// while half-open it counts the success and closes the breaker once the
/// success threshold is reached; while open it does nothing.
pub fn record_success(cb: &mut CircuitBreaker)
    requires
        old(cb)@.state == CircuitState::HalfOpen ==> old(cb)@.success_count < u32::MAX,
    ensures
        final(cb)@ == after_success(old(cb)@),
{
    match cb.state {
        CircuitState::Closed => {
            cb.failure_count = 0;
            cb.success_count = 0;
        },
        CircuitState::HalfOpen => {
            let config = get_config(cb);
            let successes = get_success_count(cb) + 1;
            cb.success_count = successes;
            if successes >= config.success_threshold {
                close_circuit(cb);
            }
        },
        CircuitState::Open => {},
    }
}

/// Records a failed operation at ledger time `now`: counts it, logs it
/// (keeping only the latest `max_error_log` entries), publishes it, and
/// opens the breaker once the failure threshold is reached.
pub fn record_failure(
    cb: &mut CircuitBreaker,
    bounty_id: u64,
    operation: String,
    error_code: u32,
    now: u64,
)
    requires
        old(cb)@.failure_count < u32::MAX,
    ensures
        final(cb)@ == after_failure(old(cb)@, bounty_id, operation, error_code, now),
{
    let config = get_config(cb);
    let failures = get_failure_count(cb) + 1;
    cb.failure_count = failures;
    cb.last_failure_timestamp = now;
    let entry = ErrorEntry {
        operation,
        bounty_id,
        error_code,
        timestamp: now,
        failure_count_at_time: failures,
    };
    let mut log: Vec<ErrorEntry> = Vec::new();
    std::mem::swap(&mut log, &mut cb.error_log);
    log.push(entry);
    let ghost full = log@;
    let max = config.max_error_log as usize;
    while log.len() > max
        invariant
            max == config.max_error_log,
            log.len() <= full.len(),
            log.len() >= full.len() || log.len() >= max,
            log@ == full.subrange(full.len() - log.len(), full.len() as int),
        decreases log.len(),
    {
        log.remove(0);
    }
    assert(log@ == keep_latest(full, config.max_error_log as nat));
    cb.error_log = log;
    cb.publish(CircuitEventKind::Fail, failures);
    if failures >= config.failure_threshold {
        open_circuit(cb, now);
    }
}

/// Opens the breaker at ledger time `now` and clears the success count.
pub fn open_circuit(cb: &mut CircuitBreaker, now: u64)
    ensures
        final(cb)@ == opened(old(cb)@, now),
{
    cb.state = CircuitState::Open;
    cb.opened_at = now;
    cb.success_count = 0;
    let count = get_failure_count(cb);
    cb.publish(CircuitEventKind::Open, count);
}

/// Moves the breaker to half-open and clears the success count.
pub fn half_open_circuit(cb: &mut CircuitBreaker)
    ensures
        final(cb)@ == half_opened(old(cb)@),
{
    cb.state = CircuitState::HalfOpen;
    cb.success_count = 0;
    let count = get_failure_count(cb);
    cb.publish(CircuitEventKind::HalfOpen, count);
}

/// Closes the breaker and clears both counters and the opening time.
pub fn close_circuit(cb: &mut CircuitBreaker)
    ensures
        final(cb)@ == closed(old(cb)@),
{
    cb.state = CircuitState::Closed;
    cb.failure_count = 0;
    cb.success_count = 0;
    cb.opened_at = 0;
    cb.publish(CircuitEventKind::Close, 0);
}

/// Registers `new_admin`. While no admin is registered anyone may do so;
/// afterwards only the current admin, named as `caller`, may.
pub fn set_circuit_admin(
    cb: &mut CircuitBreaker,
    new_admin: String,
    caller: Option<String>,
) -> (result: Result<(), CircuitAdminError>)
    ensures
        may_change_admin(old(cb)@, caller) ==> result is Ok && final(cb)@ == (CircuitModel {
            admin: Some(new_admin),
            ..old(cb)@
        }),
        !may_change_admin(old(cb)@, caller) ==> result == Err::<(), CircuitAdminError>(
            CircuitAdminError::NotCurrentAdmin,
        ) && final(cb)@ == old(cb)@,
{
    let authorized = match &cb.admin {
        None => true,
        Some(current) => match &caller {
            Some(c) => *c == *current,
            None => false,
        },
    };
    if authorized {
        cb.admin = Some(new_admin);
        Ok(())
    } else {
        Err(CircuitAdminError::NotCurrentAdmin)
    }
}

/// The registered admin, if any.
pub fn get_circuit_admin(cb: &CircuitBreaker) -> (admin: Option<String>)
    ensures
        admin == cb@.admin,
{
    match &cb.admin {
        Some(a) => Some(a.clone()),
        None => None,
    }
}

/// The logged failures, oldest first.
pub fn get_error_log(cb: &CircuitBreaker) -> (log: &Vec<ErrorEntry>)
    ensures
        log@ == cb@.error_log,
{
    &cb.error_log
}

/// Admin reset: an open breaker moves to half-open, any other is closed.
pub fn reset_circuit_breaker(cb: &mut CircuitBreaker, caller: &String) -> (result: Result<
    (),
    CircuitAdminError,
>)
    ensures
        is_registered_admin(old(cb)@, *caller) ==> result is Ok && final(cb)@ == after_reset(
            old(cb)@,
        ),
        !is_registered_admin(old(cb)@, *caller) ==> result == Err::<(), CircuitAdminError>(
            CircuitAdminError::NotRegisteredAdmin,
        ) && final(cb)@ == old(cb)@,
{
    let authorized = match &cb.admin {
        Some(a) => *a == *caller,
        None => false,
    };
    if !authorized {
        return Err(CircuitAdminError::NotRegisteredAdmin);
    }
    match cb.state {
        CircuitState::Open => half_open_circuit(cb),
        CircuitState::HalfOpen | CircuitState::Closed => close_circuit(cb),
    }
    Ok(())
}

/// Stores the default configuration unless one is stored already.
pub fn set_default_config_if_missing(cb: &mut CircuitBreaker)
    ensures
        final(cb)@ == (CircuitModel { config: Some(effective_config(old(cb)@)), ..old(cb)@ }),
{
    if cb.config.is_none() {
        set_config(cb, CircuitBreakerConfig::default());
    }
}

/// `n` successive `record_failure` calls with the same arguments.
pub open spec fn repeated_failures(
    m: CircuitModel,
    n: nat,
    bounty_id: u64,
    operation: String,
    error_code: u32,
    now: u64,
) -> CircuitModel
    decreases n,
{
    if n == 0 {
        m
    } else {
        after_failure(
            repeated_failures(m, (n - 1) as nat, bounty_id, operation, error_code, now),
            bounty_id,
            operation,
            error_code,
            now,
        )
    }
}

/// `n` successive `record_success` calls.
pub open spec fn repeated_successes(m: CircuitModel, n: nat) -> CircuitModel
    decreases n,
{
    if n == 0 {
        m
    } else {
        after_success(repeated_successes(m, (n - 1) as nat))
    }
}

/// A failure opens the breaker exactly when the new failure count reaches the
/// threshold or the breaker was open already; otherwise the position is kept.
/// The count grows by one, the failure is the newest log entry (unless the log
/// is configured to keep nothing), and the log never exceeds its bound.
pub proof fn law_failure_opens_at_threshold(
    m: CircuitModel,
    bounty_id: u64,
    operation: String,
    error_code: u32,
    now: u64,
)
    requires
        m.failure_count < u32::MAX,
    ensures
        ({
            let after = after_failure(m, bounty_id, operation, error_code, now);
            let config = effective_config(m);
            &&& after.failure_count == m.failure_count + 1
            &&& after.last_failure_timestamp == now
            &&& (after.state == CircuitState::Open <==> (m.failure_count + 1
                >= config.failure_threshold || m.state == CircuitState::Open))
            &&& (m.failure_count + 1 < config.failure_threshold ==> after.state == m.state)
            &&& after.error_log.len() <= config.max_error_log
            &&& after.error_log.len() <= m.error_log.len() + 1
            &&& (config.max_error_log > 0 ==> after.error_log.last() == ErrorEntry {
                operation,
                bounty_id,
                error_code,
                timestamp: now,
                failure_count_at_time: (m.failure_count + 1) as u32,
            })
            &&& effective_config(after) == config
            &&& after.admin == m.admin
        }),
{
}

/// Starting closed with no failures, `n` failures leave the count at `n`; the
/// breaker is open exactly when `n` is at least one and reaches the failure
/// threshold, and closed otherwise.
pub proof fn law_consecutive_failures(
    m: CircuitModel,
    n: nat,
    bounty_id: u64,
    operation: String,
    error_code: u32,
    now: u64,
)
    requires
        m.state == CircuitState::Closed,
        m.failure_count == 0,
        n < u32::MAX,
    ensures
        ({
            let after = repeated_failures(m, n, bounty_id, operation, error_code, now);
            &&& after.failure_count == n
            &&& effective_config(after) == effective_config(m)
            &&& (n >= 1 && n >= effective_config(m).failure_threshold ==> after.state
                == CircuitState::Open)
            &&& (!(n >= 1 && n >= effective_config(m).failure_threshold) ==> after.state
                == CircuitState::Closed)
        }),
    decreases n,
{
    if n > 0 {
        law_consecutive_failures(m, (n - 1) as nat, bounty_id, operation, error_code, now);
    }
}

/// Starting half-open with no successes, the breaker stays half-open while
/// fewer than `success_threshold` successes have been seen, counting them,
/// and is closed with both counters cleared from then on.
pub proof fn law_half_open_closes_after_threshold(m: CircuitModel, n: nat)
    requires
        m.state == CircuitState::HalfOpen,
        m.success_count == 0,
        n < u32::MAX,
    ensures
        ({
            let after = repeated_successes(m, n);
            let threshold = effective_config(m).success_threshold;
            &&& effective_config(after) == effective_config(m)
            &&& (n < threshold ==> after.state == CircuitState::HalfOpen
                && after.success_count == n)
            &&& (n >= 1 && n >= threshold ==> after.state == CircuitState::Closed
                && after.failure_count == 0 && after.success_count == 0)
            &&& (n == 0 ==> after == m)
        }),
    decreases n,
{
    if n > 0 {
        law_half_open_closes_after_threshold(m, (n - 1) as nat);
    }
}

/// A success never moves an open breaker.
pub proof fn law_success_keeps_open(m: CircuitModel)
    requires
        m.state == CircuitState::Open,
    ensures
        after_success(m) == m,
{
}

/// Two admin resets bring an open breaker back to closed with no failures
/// counted: the first to half-open, the second to closed. The admin who may
/// reset is the same before and after each reset.
pub proof fn law_reset_cycle(m: CircuitModel, caller: String)
    requires
        m.state == CircuitState::Open,
    ensures
        after_reset(m).state == CircuitState::HalfOpen,
        after_reset(m).success_count == 0,
        is_registered_admin(after_reset(m), caller) == is_registered_admin(m, caller),
        after_reset(after_reset(m)).state == CircuitState::Closed,
        after_reset(after_reset(m)).failure_count == 0,
        after_reset(after_reset(m)).success_count == 0,
        after_reset(after_reset(m)).opened_at == 0,
{
}

/// Once the breaker is closed, `check_and_allow` admits operations again.
pub proof fn law_closed_admits(m: CircuitModel)
    ensures
        closed(m).state != CircuitState::Open,
        after_reset(m).state != CircuitState::Open,
{
}

/// After an admin hand-over, exactly the new admin may reset the breaker or
/// hand the role over again.
pub proof fn law_admin_handover(m: CircuitModel, new_admin: String, caller: Option<String>, other: String)
    requires
        may_change_admin(m, caller),
    ensures
        ({
            let after = CircuitModel { admin: Some(new_admin), ..m };
            &&& is_registered_admin(after, other) <==> other@ == new_admin@
            &&& may_change_admin(after, Some(other)) <==> other@ == new_admin@
            &&& !may_change_admin(after, None)
        }),
{
}

/// An admin reset of an open breaker moves it to half-open with the success
/// count cleared, keeping the failure count; a reset of any other breaker
/// closes it with both counters and the opening time cleared. Either way the
/// admin, configuration, log and timestamps of failures are kept, and exactly
/// one event is published.
pub proof fn law_reset_result(m: CircuitModel)
    ensures
        m.state == CircuitState::Open ==> after_reset(m).state == CircuitState::HalfOpen
            && after_reset(m).success_count == 0 && after_reset(m).failure_count
            == m.failure_count && after_reset(m).opened_at == m.opened_at,
        m.state != CircuitState::Open ==> after_reset(m).state == CircuitState::Closed
            && after_reset(m).failure_count == 0 && after_reset(m).success_count == 0
            && after_reset(m).opened_at == 0,
        after_reset(m).admin == m.admin,
        after_reset(m).config == m.config,
        after_reset(m).error_log == m.error_log,
        after_reset(m).last_failure_timestamp == m.last_failure_timestamp,
        after_reset(m).events.len() == m.events.len() + 1,
        after_reset(m).events.subrange(0, m.events.len() as int) == m.events,
{
    assert(after_reset(m).events.subrange(0, m.events.len() as int) =~= m.events);
}

} // verus!
