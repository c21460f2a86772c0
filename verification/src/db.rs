//! The time arithmetic of the bot's database: how long a cooldown has left,
//! whether a command may take a cooldown, and the start of a counting window.
//! The SQL itself is run by the caller.
use vstd::prelude::*;

verus! {

/// A bound on every timestamp chrono can give: its dates run from the year
/// -262143 to the year 262142, under 8.3 * 10^12 seconds either side of the
/// epoch.
pub open spec fn timestamp_limit() -> int {
    10_000_000_000_000
}

/// Seconds since the Unix epoch (`chrono::Utc::now().timestamp()`). The value
/// is the time when called, so which one it is is not stated; the contract
/// claims only that it lies within chrono's range of dates (`Utc::now` builds
/// its value with `DateTime::from_timestamp(..).unwrap()`, which accepts no
/// second outside that range, and `timestamp` gives that second back).
#[verifier::external_body]
fn now_timestamp() -> (r: i64)
    ensures
        -timestamp_limit() <= r <= timestamp_limit(),
{
    chrono::Utc::now().timestamp()
}

/// A clock reading that chrono can give.
pub open spec fn clock_reading(now: int) -> bool {
    -timestamp_limit() <= now <= timestamp_limit()
}

/// The seconds left at `now` on a cooldown that expires at `expires` (none
/// where no cooldown is stored); zero once it has expired.
pub open spec fn remaining_spec(expires: Option<i64>, now: int) -> int {
    match expires {
        Some(e) => if e > now {
            e - now
        } else {
            0
        },
        None => 0,
    }
}

/// The seconds left at `now` on a cooldown expiring at `expires`.
pub fn remaining(expires: Option<i64>, now: i64) -> (r: i64)
    requires
        remaining_spec(expires, now as int) <= i64::MAX,
    ensures
        r == remaining_spec(expires, now as int),
{
    match expires {
        Some(e) => if e > now {
            e - now
        } else {
            0
        },
        None => 0,
    }
}

/// The seconds left now on a cooldown expiring at `expires`: the clock is
/// read once. None only where the difference does not fit in an `i64`, which
/// no clock reading allows for an expiry at most `i64::MAX - timestamp_limit()`.
pub fn remaining_now(expires: Option<i64>) -> (r: Option<i64>)
    ensures
        match r {
            Some(v) => exists|now: i64|
                clock_reading(now as int) && v == #[trigger] remaining_spec(expires, now as int),
            None => exists|now: int|
                #![trigger clock_reading(now)]
                clock_reading(now) && remaining_spec(expires, now) > i64::MAX,
        },
        expires is None ==> r == Some(0i64),
        expires matches Some(e) && e <= i64::MAX - timestamp_limit() ==> r is Some,
{
    let now = now_timestamp();
    assert(clock_reading(now as int));
    match expires {
        Some(e) => if e > now {
            let r = e.checked_sub(now);
            assert(r matches Some(v) ==> v == remaining_spec(expires, now as int));
            r
        } else {
            assert(0 == remaining_spec(expires, now as int));
            Some(0)
        },
        None => {
            assert(0 == remaining_spec(expires, now as int));
            Some(0)
        },
    }
}

/// What taking a cooldown does.
pub enum Acquire {
    /// A cooldown is active: nothing is written; its seconds left.
    Active { remaining: i64 },
    /// The command may run: the cooldown is stored with this expiry.
    Acquired { expires_at: i64 },
}

/// Taking a cooldown of `duration` seconds at `now` where the stored expiry is
/// `existing`: refused with the seconds left while one is active, else taken
/// until `now + duration`.
pub open spec fn acquire_spec(existing: Option<i64>, now: int, duration: int, r: Acquire) -> bool {
    if remaining_spec(existing, now) > 0 {
        r == (Acquire::Active { remaining: remaining_spec(existing, now) as i64 })
    } else {
        r == (Acquire::Acquired { expires_at: (now + duration) as i64 })
    }
}

/// Decides whether a cooldown of `duration` seconds can be taken at `now`.
pub fn decide_acquire(existing: Option<i64>, now: i64, duration: i64) -> (r: Acquire)
    requires
        i64::MIN <= now + duration <= i64::MAX,
        remaining_spec(existing, now as int) <= i64::MAX,
    ensures
        acquire_spec(existing, now as int, duration as int, r),
{
    let expires_at = now + duration;
    let left = remaining(existing, now);
    if left > 0 {
        Acquire::Active { remaining: left }
    } else {
        Acquire::Acquired { expires_at }
    }
}

/// The clock reading a cooldown is taken at, and the expiry it would get.
pub struct AcquireClock {
    pub now: i64,
    pub expires_at: i64,
}

/// Reads the clock for taking a cooldown of `duration` seconds. None only
/// where `now + duration` does not fit in an `i64`, which no clock reading
/// allows for a duration within `i64::MAX - timestamp_limit()` of zero.
pub fn begin_acquire(duration: i64) -> (r: Option<AcquireClock>)
    ensures
        match r {
            Some(c) => clock_reading(c.now as int) && c.expires_at == c.now + duration,
            None => exists|now: int|
                #![trigger clock_reading(now)]
                clock_reading(now) && !(i64::MIN <= now + duration <= i64::MAX),
        },
        timestamp_limit() - i64::MAX <= duration <= i64::MAX - timestamp_limit() ==> r is Some,
{
    let now = now_timestamp();
    match now.checked_add(duration) {
        Some(expires_at) => Some(AcquireClock { now, expires_at }),
        None => {
            assert(clock_reading(now as int));
            None
        },
    }
}

/// Decides, at the clock reading of `begin_acquire`, whether the cooldown is
/// taken. None only where the seconds left do not fit in an `i64`.
pub fn finish_acquire(clock: &AcquireClock, existing: Option<i64>) -> (r: Option<Acquire>)
    ensures
        r matches Some(a) ==> acquire_spec(
            existing,
            clock.now as int,
            clock.expires_at - clock.now,
            a,
        ),
        remaining_spec(existing, clock.now as int) <= i64::MAX ==> r is Some,
{
    match existing {
        Some(e) => if e > clock.now {
            match e.checked_sub(clock.now) {
                Some(left) => Some(Acquire::Active { remaining: left }),
                None => None,
            }
        } else {
            Some(Acquire::Acquired { expires_at: clock.expires_at })
        },
        None => Some(Acquire::Acquired { expires_at: clock.expires_at }),
    }
}

/// The start of a window of `window` seconds that ends at `now`.
pub open spec fn window_end(now: i64, window: i64) -> int {
    now - window
}

/// The start of a counting window of `window` seconds ending at `now`: events
/// after it count.
pub fn window_start(now: i64, window: i64) -> (r: i64)
    requires
        i64::MIN <= now - window <= i64::MAX,
    ensures
        r == now - window,
{
    now - window
}

/// The start of the window of `window` seconds ending now. None only where
/// `now - window` does not fit in an `i64`, which no clock reading allows for a
/// window within `i64::MAX - timestamp_limit()` of zero.
pub fn window_start_now(window: i64) -> (r: Option<i64>)
    ensures
        match r {
            Some(v) => exists|now: i64|
                clock_reading(now as int) && v == #[trigger] window_end(now, window),
            None => exists|now: int|
                #![trigger clock_reading(now)]
                clock_reading(now) && !(i64::MIN <= now - window <= i64::MAX),
        },
        timestamp_limit() - i64::MAX <= window <= i64::MAX - timestamp_limit() ==> r is Some,
{
    let now = now_timestamp();
    let r = now.checked_sub(window);
    assert(clock_reading(now as int));
    assert(r matches Some(v) ==> v == window_end(now, window));
    r
}

/// The time before which tracked events are removed: an hour before now. It
/// always fits in an `i64`.
pub fn cleanup_cutoff_now() -> (r: Option<i64>)
    ensures
        r matches Some(v) && exists|now: i64|
            clock_reading(now as int) && v == #[trigger] window_end(now, 3600),
{
    window_start_now(3600)
}

// ── Laws ────────────────────────────────────────────────────────────────

/// A cooldown taken for `duration > 0` seconds has exactly `duration` seconds
/// left at the moment it is taken.
pub proof fn law_acquired_cooldown_remaining(existing: Option<i64>, now: i64, duration: i64, r: Acquire)
    requires
        duration > 0,
        i64::MIN <= now + duration <= i64::MAX,
        acquire_spec(existing, now as int, duration as int, r),
        r is Acquired,
    ensures
        remaining_spec(Some(r->expires_at), now as int) == duration,
{
}

/// While a cooldown is active, taking it is refused with exactly the seconds
/// left that reading it gives, and nothing is stored.
pub proof fn law_active_cooldown_refuses(existing: Option<i64>, now: i64, duration: i64, r: Acquire)
    requires
        0 < remaining_spec(existing, now as int) <= i64::MAX,
        acquire_spec(existing, now as int, duration as int, r),
    ensures
        r matches Acquire::Active { remaining } && remaining == remaining_spec(existing, now as int),
{
}

/// Taking a cooldown twice at the same moment: the second attempt is refused
/// with the whole duration left.
pub proof fn law_second_acquire_refused(
    existing: Option<i64>,
    now: i64,
    duration: i64,
    first: Acquire,
    second: Acquire,
)
    requires
        duration > 0,
        i64::MIN <= now + duration <= i64::MAX,
        acquire_spec(existing, now as int, duration as int, first),
        first matches Acquire::Acquired { expires_at } && acquire_spec(
            Some(expires_at),
            now as int,
            duration as int,
            second,
        ),
    ensures
        second == (Acquire::Active { remaining: duration }),
{
}

/// Once the expiry has passed, the cooldown can be taken again.
pub proof fn law_expired_cooldown_acquires(e: i64, now: i64, duration: i64, r: Acquire)
    requires
        e <= now,
        i64::MIN <= now + duration <= i64::MAX,
        acquire_spec(Some(e), now as int, duration as int, r),
    ensures
        r == (Acquire::Acquired { expires_at: (now + duration) as i64 }),
{
}

} // verus!
