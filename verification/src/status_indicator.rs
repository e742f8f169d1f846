//! A system-health indicator over three redundant subsystems.
//!
//! Each subsystem reports whether it is healthy; a periodic check stamps the
//! time of the last report of each healthy one. A subsystem counts as healthy
//! only while its last stamp is at most five seconds old. The number of healthy
//! subsystems decides the status line and the look of each unit.
use vstd::prelude::*;
use crate::error_boundary::flag_count;

verus! {

/// The messages a status indicator reacts to.
pub enum StatusIndicatorMsg {
    /// Blink timer fired.
    ToggleBlink,
    /// Status-check timer fired.
    UpdateStatusChecks,
}

/// The state of a status indicator.
pub struct StatusIndicator {
    /// Health reported by each of the three subsystems.
    pub health_status: [bool; 3],
    /// Time, in milliseconds, of the last check of each subsystem.
    pub last_check: [u64; 3],
    /// Whether the status dot is in the dimmed half of its blink.
    pub blink_state: bool,
}

/// What the indicator shows at a given time.
pub struct StatusView {
    pub healthy_count: usize,
    pub status_text: &'static str,
    pub status_class: &'static str,
    pub dot_style: &'static str,
    pub unit_classes: [&'static str; 3],
}

/// A check older than this many milliseconds is stale.
pub open spec fn stale_after_ms() -> u64 {
    5000
}

/// The status line for a number of healthy subsystems.
pub open spec fn status_text_for(count: nat) -> Seq<char> {
    if count == 3 {
        "All Systems Nominal"@
    } else if count == 2 {
        "Degraded Redundancy"@
    } else if count == 1 {
        "Critical Redundancy Loss"@
    } else {
        "System Failure"@
    }
}

/// The style class of the status dot for a number of healthy subsystems.
pub open spec fn status_class_for(count: nat) -> Seq<char> {
    if count == 3 {
        ""@
    } else if count == 2 {
        "degraded"@
    } else {
        "error"@
    }
}

/// The class of one unit, given whether it is healthy and how many are.
pub open spec fn unit_class_for(healthy: bool, count: nat) -> Seq<char> {
    if healthy {
        "tmr-unit"@
    } else if count == 2 {
        "tmr-unit degraded"@
    } else {
        "tmr-unit error"@
    }
}

impl StatusIndicator {
    /// Subsystem `i` counts as healthy at time `now`: it reports health and its
    /// last check is not stale. The time since the check is taken modulo 2^64,
    /// so a check stamped after `now` (a clock that went back) looks stale.
    pub open spec fn fresh(self, i: int, now: u64) -> bool {
        self.health_status[i] && !(vstd::wrapping::u64_specs::wrapping_sub(now, self.last_check[i])
            > stale_after_ms())
    }

    /// The health of the three subsystems at time `now`, stale ones counted as failed.
    pub open spec fn fresh_flags(self, now: u64) -> [bool; 3] {
        [self.fresh(0, now), self.fresh(1, now), self.fresh(2, now)]
    }

    /// No check lies in the future of `now`.
    pub open spec fn checks_not_after(self, now: u64) -> bool {
        forall|i: int| 0 <= i < 3 ==> self.last_check[i] <= now
    }

    /// The state after handling `msg` at time `now`.
    pub open spec fn step(self, msg: StatusIndicatorMsg, now: u64) -> StatusIndicator {
        match msg {
            StatusIndicatorMsg::ToggleBlink => StatusIndicator { blink_state: !self.blink_state, ..self },
            StatusIndicatorMsg::UpdateStatusChecks => StatusIndicator {
                last_check: [
                    if self.health_status[0] { now } else { self.last_check[0] },
                    if self.health_status[1] { now } else { self.last_check[1] },
                    if self.health_status[2] { now } else { self.last_check[2] },
                ],
                ..self
            },
        }
    }

    /// An indicator for the given subsystem health, never checked and not dimmed.
    pub fn create(health_status: [bool; 3]) -> (s: StatusIndicator)
        ensures
            s.health_status == health_status,
            s.last_check == [0u64, 0u64, 0u64],
            !s.blink_state,
    {
        StatusIndicator { health_status, last_check: [0, 0, 0], blink_state: false }
    }

    /// The fallback indicator: all subsystems healthy, never checked.
    pub fn create_component() -> (s: StatusIndicator)
        ensures
            s.health_status == [true, true, true],
            s.last_check == [0u64, 0u64, 0u64],
            !s.blink_state,
    {
        StatusIndicator::create([true, true, true])
    }

    /// Handles a message at time `now` (milliseconds); the indicator is always
    /// drawn again. A blink flips the dot; a status check stamps `now` on every
    /// subsystem that reports health.
    pub fn update(&mut self, msg: StatusIndicatorMsg, now: u64) -> (redraw: bool)
        ensures
            *final(self) == old(self).step(msg, now),
            redraw,
    {
        match msg {
            StatusIndicatorMsg::ToggleBlink => {
                self.blink_state = !self.blink_state;
            },
            StatusIndicatorMsg::UpdateStatusChecks => {
                let mut checks = self.last_check;
                if self.health_status[0] {
                    checks = [now, checks[1], checks[2]];
                }
                if self.health_status[1] {
                    checks = [checks[0], now, checks[2]];
                }
                if self.health_status[2] {
                    checks = [checks[0], checks[1], now];
                }
                assert(checks =~= [
                    if self.health_status[0] { now } else { self.last_check[0] },
                    if self.health_status[1] { now } else { self.last_check[1] },
                    if self.health_status[2] { now } else { self.last_check[2] },
                ]);
                self.last_check = checks;
            },
        }
        true
    }

    /// Takes new subsystem health from the parent; the indicator is drawn again.
    pub fn changed(&mut self, health_status: [bool; 3]) -> (redraw: bool)
        ensures
            *final(self) == (StatusIndicator { health_status, ..*old(self) }),
            redraw,
    {
        self.health_status = health_status;
        true
    }

    /// The fallback indicator passes its integrity check.
    pub fn verify_state_integrity(&self) -> (ok: bool)
        ensures
            ok,
    {
        true
    }

    fn is_fresh(&self, i: usize, now: u64) -> (b: bool)
        requires
            i < 3,
        ensures
            b == self.fresh(i as int, now),
    {
        self.health_status[i] && !(now.wrapping_sub(self.last_check[i]) > 5000)
    }

    /// What the indicator shows at time `now`.
    pub fn view(&self, now: u64) -> (v: StatusView)
        ensures
            v.healthy_count == flag_count(self.fresh_flags(now)),
            v.status_text@ == status_text_for(flag_count(self.fresh_flags(now))),
            v.status_class@ == status_class_for(flag_count(self.fresh_flags(now))),
            v.dot_style@ == (if self.blink_state && flag_count(self.fresh_flags(now)) < 2 {
                "opacity: 0.5"@
            } else {
                ""@
            }),
            forall|i: int|
                0 <= i < 3 ==> (#[trigger] v.unit_classes[i])@ == unit_class_for(
                    self.fresh(i, now),
                    flag_count(self.fresh_flags(now)),
                ),
    {
        let h0 = self.is_fresh(0, now);
        let h1 = self.is_fresh(1, now);
        let h2 = self.is_fresh(2, now);
        let mut count: usize = 0;
        if h0 {
            count = count + 1;
        }
        if h1 {
            count = count + 1;
        }
        if h2 {
            count = count + 1;
        }
        proof {
            reveal_strlit("All Systems Nominal");
            reveal_strlit("Degraded Redundancy");
            reveal_strlit("Critical Redundancy Loss");
            reveal_strlit("System Failure");
            reveal_strlit("");
            reveal_strlit("degraded");
            reveal_strlit("error");
            reveal_strlit("opacity: 0.5");
        }
        let (status_text, status_class) = if count == 3 {
            ("All Systems Nominal", "")
        } else if count == 2 {
            ("Degraded Redundancy", "degraded")
        } else if count == 1 {
            ("Critical Redundancy Loss", "error")
        } else {
            ("System Failure", "error")
        };
        let dot_style = if self.blink_state && count < 2 {
            "opacity: 0.5"
        } else {
            ""
        };
        let unit_classes = [unit_class(h0, count), unit_class(h1, count), unit_class(h2, count)];
        StatusView { healthy_count: count, status_text, status_class, dot_style, unit_classes }
    }
}

fn unit_class(healthy: bool, count: usize) -> (c: &'static str)
    ensures
        c@ == unit_class_for(healthy, count as nat),
{
    if healthy {
        "tmr-unit"
    } else if count == 2 {
        "tmr-unit degraded"
    } else {
        "tmr-unit error"
    }
}

/// A status check at time `t` keeps every subsystem that reports health fresh
/// for five seconds: until then it is counted as healthy, and the indicator
/// counts exactly the subsystems that report health.
pub proof fn lemma_checked_subsystems_stay_fresh(s: StatusIndicator, t: u64, now: u64)
    requires
        t <= now <= t + stale_after_ms(),
        s.checks_not_after(t),
    ensures
        s.step(StatusIndicatorMsg::UpdateStatusChecks, t).checks_not_after(now),
        s.step(StatusIndicatorMsg::UpdateStatusChecks, t).fresh_flags(now) == s.health_status,
{
    let c = s.step(StatusIndicatorMsg::UpdateStatusChecks, t);
    assert(c.fresh_flags(now) =~= s.health_status);
}

/// A check stamped in the future of `now` (the clock went back) is stale.
pub proof fn lemma_future_check_is_stale(s: StatusIndicator, i: int, now: u64)
    requires
        0 <= i < 3,
        now < s.last_check[i],
        s.last_check[i] - now <= u64::MAX - stale_after_ms(),
    ensures
        !s.fresh(i, now),
{
}

/// A subsystem that reports no health is never counted, however recent its check.
pub proof fn lemma_unhealthy_never_counts(s: StatusIndicator, i: int, now: u64)
    requires
        0 <= i < 3,
        !s.health_status[i],
    ensures
        !s.fresh(i, now),
{
}

/// Two blinks bring the dot back to where it was, and leave the rest alone.
pub proof fn lemma_blink_twice_restores(s: StatusIndicator, t1: u64, t2: u64)
    ensures
        s.step(StatusIndicatorMsg::ToggleBlink, t1).step(StatusIndicatorMsg::ToggleBlink, t2) == s,
{
}

/// A unit is drawn as degraded exactly when it is not healthy and exactly two
/// units are healthy.
pub proof fn lemma_degraded_only_with_two_healthy(healthy: bool, count: nat)
    ensures
        unit_class_for(healthy, count) == "tmr-unit degraded"@ <==> (!healthy && count == 2),
{
    reveal_strlit("tmr-unit");
    reveal_strlit("tmr-unit degraded");
    reveal_strlit("tmr-unit error");
    assert("tmr-unit"@.len() != "tmr-unit degraded"@.len());
    assert("tmr-unit error"@[9] != "tmr-unit degraded"@[9]);
}

/// With fewer than two healthy units, every unit that is not healthy is drawn
/// as an error, and every healthy one as a plain unit.
pub proof fn lemma_fewer_than_two_healthy_are_errors(s: StatusIndicator, i: int, now: u64)
    requires
        0 <= i < 3,
        flag_count(s.fresh_flags(now)) < 2,
    ensures
        !s.fresh(i, now) ==> unit_class_for(s.fresh(i, now), flag_count(s.fresh_flags(now)))
            == "tmr-unit error"@,
        s.fresh(i, now) ==> unit_class_for(s.fresh(i, now), flag_count(s.fresh_flags(now)))
            == "tmr-unit"@,
{
}

} // verus!
