//! The demand counter: a non-negative counter through which the hardware
//! side signals how many samples it currently wants.
//!
//! Demand sources only ever `add`; the consumer discovers and reserves
//! pending demand in one atomic step, `try_sub`, so the same demand unit can
//! never be served twice. The asynchronous `wait_sub` of the running system
//! is the owning task's suspension loop around `try_sub`.

use vstd::prelude::*;

verus! {

pub struct DemandCounter {
    value: usize,
}

impl DemandCounter {
    /// The demand currently pending.
    pub closed spec fn count(&self) -> nat {
        self.value as nat
    }

    pub fn new() -> (r: Self)
        ensures
            r.count() == 0,
    {
        DemandCounter { value: 0 }
    }

    /// Increase the counter by `n`. Never fails; the counter saturates at
    /// the machine limit, which the expected sample-rate regime never
    /// approaches.
    pub fn add(&mut self, n: usize)
        ensures
            final(self).count() == if old(self).count() + n <= usize::MAX {
                old(self).count() + n
            } else {
                usize::MAX as int
            },
    {
        if self.value <= usize::MAX - n {
            self.value = self.value + n;
        } else {
            self.value = usize::MAX;
        }
    }

    /// The decision step of `wait_sub(min_take..=max_take)`: if at least
    /// `min_take` demand is pending, atomically subtract and return
    /// `min(count, max_take)` — discovering and reserving the demand in one
    /// step — otherwise leave the counter untouched and report that the
    /// caller must keep waiting.
    pub fn try_sub(&mut self, min_take: usize, max_take: usize) -> (r: Option<usize>)
        requires
            min_take <= max_take,
        ensures
            (r is Some) == (old(self).count() >= min_take),
            r matches Some(k) ==> {
                &&& k as nat == if old(self).count() <= max_take {
                    old(self).count()
                } else {
                    max_take as nat
                }
                &&& min_take <= k <= max_take
                &&& final(self).count() + k == old(self).count()
            },
            r is None ==> *final(self) == *old(self),
    {
        if self.value >= min_take {
            let k = if self.value < max_take {
                self.value
            } else {
                max_take
            };
            self.value = self.value - k;
            Some(k)
        } else {
            None
        }
    }
}

/// One observed operation on the counter: an addition of `n` demand units,
/// or a successful `try_sub` that served `k` units.
pub enum DemandEvent {
    Add(nat),
    Sub(nat),
}

/// Whether the next event can occur at counter value `v`: additions stay in
/// the lossless regime (below the saturation limit), and a subtraction never
/// serves more than is pending — exactly what `add` and `try_sub` ensure.
pub open spec fn demand_step_ok(v: nat, e: DemandEvent) -> bool {
    match e {
        DemandEvent::Add(n) => v + n <= usize::MAX,
        DemandEvent::Sub(k) => k <= v,
    }
}

pub open spec fn demand_step(v: nat, e: DemandEvent) -> nat {
    match e {
        DemandEvent::Add(n) => (v + n) as nat,
        DemandEvent::Sub(k) => (v - k) as nat,
    }
}

/// The counter value after a run of events starting from `v0`.
pub open spec fn demand_run(v0: nat, es: Seq<DemandEvent>) -> nat
    decreases es.len(),
{
    if es.len() == 0 {
        v0
    } else {
        demand_step(demand_run(v0, es.drop_last()), es.last())
    }
}

pub open spec fn demand_ok(v0: nat, es: Seq<DemandEvent>) -> bool
    decreases es.len(),
{
    if es.len() == 0 {
        true
    } else {
        demand_ok(v0, es.drop_last()) && demand_step_ok(demand_run(v0, es.drop_last()), es.last())
    }
}

pub open spec fn total_added(es: Seq<DemandEvent>) -> nat
    decreases es.len(),
{
    if es.len() == 0 {
        0
    } else {
        total_added(es.drop_last()) + match es.last() {
            DemandEvent::Add(n) => n,
            DemandEvent::Sub(_) => 0,
        }
    }
}

pub open spec fn total_served(es: Seq<DemandEvent>) -> nat
    decreases es.len(),
{
    if es.len() == 0 {
        0
    } else {
        total_served(es.drop_last()) + match es.last() {
            DemandEvent::Add(_) => 0,
            DemandEvent::Sub(k) => k,
        }
    }
}

/// Demand conservation: over any valid run, the amounts served by
/// `wait_sub` and the demand still pending account exactly for everything
/// that was added — no demand unit is ever served twice or silently
/// dropped — so the served total never exceeds the added total.
pub proof fn lemma_demand_conservation(v0: nat, es: Seq<DemandEvent>)
    requires
        demand_ok(v0, es),
    ensures
        total_served(es) + demand_run(v0, es) == v0 + total_added(es),
        total_served(es) <= v0 + total_added(es),
    decreases es.len(),
{
    if es.len() == 0 {
    } else {
        lemma_demand_conservation(v0, es.drop_last());
    }
}

/// Demand progress: whenever the pending demand reaches `min_take`, a
/// `wait_sub(min_take..=max_take)` is served at once with at least
/// `min_take` units, so the served total eventually reaches the added total
/// up to an outstanding remainder below `min_take`.
pub proof fn lemma_demand_progress(v: nat, min_take: nat, max_take: nat)
    requires
        1 <= min_take <= max_take,
        v >= min_take,
    ensures
        demand_step_ok(
            v,
            DemandEvent::Sub(
                if v <= max_take {
                    v
                } else {
                    max_take
                },
            ),
        ),
        min_take <= if v <= max_take {
            v
        } else {
            max_take
        },
        demand_step(
            v,
            DemandEvent::Sub(
                if v <= max_take {
                    v
                } else {
                    max_take
                },
            ),
        ) < min_take || v > max_take,
{
}

} // verus!
