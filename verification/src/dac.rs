//! The device core: the sample buffer pair, the demand counter and the
//! replay policy wired together, with the producer step that publishes
//! converted samples and the consumer step that assembles an outbound
//! message of exactly the demanded length.
//!
//! The running system drives these steps from asynchronous tasks: producers
//! call [`Dac::produce`] whenever their bound control-system variable
//! changes, the demand relay calls [`Dac::request`], and the consumer task
//! loops over [`Dac::poll_demand`] and [`Dac::fill_into`], suspending
//! whenever a step reports that it must wait.

use crate::buffer::{cyclic_take, DoubleBuffer, Sample};
use crate::demand::DemandCounter;
use crate::replay::{DacModifier, ReplayMode};
use vstd::prelude::*;

verus! {

/// The streaming core of one digital-to-analog output device.
pub struct Dac {
    buffer: DoubleBuffer,
    demand: DemandCounter,
    modifier: DacModifier,
}

impl Dac {
    /// The shared fixed capacity of the two buffer halves.
    pub closed spec fn capacity(&self) -> nat {
        self.buffer.capacity()
    }

    pub closed spec fn write_seq(&self) -> Seq<Sample> {
        self.buffer.write_seq()
    }

    pub closed spec fn write_ready(&self) -> bool {
        self.buffer.write_ready()
    }

    pub closed spec fn read_seq(&self) -> Seq<Sample> {
        self.buffer.read_seq()
    }

    pub closed spec fn read_cursor(&self) -> nat {
        self.buffer.read_cursor()
    }

    pub closed spec fn demand_count(&self) -> nat {
        self.demand.count()
    }

    pub closed spec fn mode(&self) -> ReplayMode {
        self.modifier.mode()
    }

    pub closed spec fn refill_requested(&self) -> bool {
        self.modifier.refill_requested()
    }

    pub closed spec fn wf(&self) -> bool {
        self.buffer.wf()
    }

    /// A fresh core, sized once from the declared array length. The refill
    /// request starts raised so the producer supplies the first buffer.
    pub fn new(max_len: usize, mode: ReplayMode) -> (r: Self)
        ensures
            r.wf(),
            r.capacity() == max_len,
            r.write_seq() == Seq::<Sample>::empty(),
            r.read_seq() == Seq::<Sample>::empty(),
            r.read_cursor() == 0,
            !r.write_ready(),
            r.demand_count() == 0,
            r.mode() == mode,
            r.refill_requested(),
    {
        Dac {
            buffer: DoubleBuffer::new(max_len),
            demand: DemandCounter::new(),
            modifier: DacModifier::new(mode),
        }
    }

    /// The hardware side requests `count` more samples (the handle's entry
    /// point, callable from any demand source).
    pub fn request(&mut self, count: usize)
        requires
            old(self).wf(),
        ensures
            final(self).wf(),
            same_buffer(*old(self), *final(self)),
            same_policy(*old(self), *final(self)),
            final(self).demand_count() == if old(self).demand_count() + count <= usize::MAX {
                old(self).demand_count() + count
            } else {
                usize::MAX as int
            },
    {
        self.demand.add(count);
    }

    /// Change the replay mode; takes effect at the next swap decision.
    pub fn set_mode(&mut self, mode: ReplayMode)
        requires
            old(self).wf(),
        ensures
            final(self).wf(),
            same_buffer(*old(self), *final(self)),
            final(self).demand_count() == old(self).demand_count(),
            final(self).mode() == mode,
            final(self).refill_requested() == old(self).refill_requested(),
    {
        self.modifier.set_mode(mode);
    }

    /// Whether the producer should compute and publish fresh data.
    pub fn refill_pending(&self) -> (r: bool)
        ensures
            r == self.refill_requested(),
    {
        self.modifier.is_refill_requested()
    }

    /// One full producer update cycle: acknowledge the pending refill
    /// request, clear the write half, append the already-converted samples
    /// in order, and publish the completed repopulation.
    pub fn produce(&mut self, samples: &Vec<Sample>)
        requires
            old(self).wf(),
            samples@.len() <= old(self).capacity(),
        ensures
            final(self).wf(),
            final(self).capacity() == old(self).capacity(),
            final(self).write_seq() == samples@,
            final(self).write_ready(),
            !final(self).refill_requested(),
            final(self).mode() == old(self).mode(),
            final(self).read_seq() == old(self).read_seq(),
            final(self).read_cursor() == old(self).read_cursor(),
            final(self).demand_count() == old(self).demand_count(),
    {
        self.modifier.clear_request();
        self.buffer.begin_update();
        let mut i: usize = 0;
        while i < samples.len()
            invariant
                self.wf(),
                i <= samples@.len(),
                samples@.len() <= self.capacity(),
                self.capacity() == old(self).capacity(),
                self.write_seq() == samples@.subrange(0, i as int),
                !self.write_ready(),
                !self.refill_requested(),
                self.mode() == old(self).mode(),
                self.read_seq() == old(self).read_seq(),
                self.read_cursor() == old(self).read_cursor(),
                self.demand_count() == old(self).demand_count(),
            decreases samples@.len() - i,
        {
            self.buffer.append(samples[i]);
            proof {
                assert(samples@.subrange(0, i as int).push(samples@[i as int]) =~= samples@.subrange(
                    0,
                    i + 1,
                ));
            }
            i = i + 1;
        }
        proof {
            assert(samples@.subrange(0, samples@.len() as int) =~= samples@);
        }
        self.buffer.publish();
    }

    /// One `wait_sub(1..=max_len)` decision step of the consumer: if any
    /// demand is pending, reserve up to one buffer's worth of it; otherwise
    /// report that the consumer must keep waiting.
    pub fn poll_demand(&mut self) -> (r: Option<usize>)
        requires
            old(self).wf(),
            old(self).capacity() >= 1,
        ensures
            final(self).wf(),
            same_buffer(*old(self), *final(self)),
            same_policy(*old(self), *final(self)),
            (r is Some) == (old(self).demand_count() >= 1),
            r matches Some(k) ==> {
                &&& k as nat == if old(self).demand_count() <= old(self).capacity() {
                    old(self).demand_count()
                } else {
                    old(self).capacity()
                }
                &&& 1 <= k <= old(self).capacity()
                &&& final(self).demand_count() + k == old(self).demand_count()
            },
            r is None ==> final(self).demand_count() == old(self).demand_count(),
    {
        let max_len = self.buffer.max_len();
        self.demand.try_sub(1, max_len)
    }

    /// Append samples to `msg` until it holds `k` of them, draining the
    /// read half, swapping in the published write half when the read half
    /// runs out, and — under cyclic replay — wrapping in place. Returns
    /// whether the message is complete; an incomplete message (one-shot
    /// starvation) keeps what was gathered so the consumer can retry after
    /// the producer publishes. The full outcome is stated by [`fill_post`].
    pub fn fill_into(&mut self, msg: &mut Vec<Sample>, k: usize) -> (complete: bool)
        requires
            old(self).wf(),
            old(msg)@.len() <= k,
        ensures
            final(self).wf(),
            final(self).capacity() == old(self).capacity(),
            final(self).mode() == old(self).mode(),
            final(self).demand_count() == old(self).demand_count(),
            fill_post(*old(self), *final(self), old(msg)@, final(msg)@, k as nat, complete),
    {
        let need0 = k - msg.len();
        let t = self.buffer.take_into(msg, need0);
        if t == need0 {
            return true;
        }
        let need1 = need0 - t;
        let swapped = self.buffer.try_swap();
        self.modifier.swap();
        if swapped {
            let ghost w = old(self).write_seq();
            let t2 = self.buffer.take_into(msg, need1);
            if t2 == need1 {
                return true;
            }
            let need2 = need1 - t2;
            if self.modifier.cyclic() && self.buffer.read_len() > 0 {
                proof {
                    crate::buffer::lemma_cyclic_chunking(w, 0, w.len(), need2 as nat);
                    crate::buffer::lemma_cyclic_take_in_range(w, 0, w.len());
                    assert(w.subrange(0, w.len() as int) =~= w);
                }
                self.buffer.fill_cyclic(msg, need2);
                proof {
                    assert(msg@ =~= old(msg)@ + old(self).read_seq().subrange(
                        old(self).read_cursor() as int,
                        old(self).read_seq().len() as int,
                    ) + cyclic_take(w, 0, (need1 as nat)));
                }
                return true;
            }
            proof {
                assert(msg@ =~= old(msg)@ + old(self).read_seq().subrange(
                    old(self).read_cursor() as int,
                    old(self).read_seq().len() as int,
                ) + w);
            }
            return false;
        }
        if self.modifier.cyclic() && self.buffer.read_len() > 0 {
            let ghost r = old(self).read_seq();
            let ghost c = old(self).read_cursor() as int;
            let ghost avail = r.len() - c;
            proof {
                crate::buffer::lemma_cyclic_chunking(r, c, avail as nat, need1 as nat);
                crate::buffer::lemma_cyclic_take_in_range(r, c, avail as nat);
            }
            self.buffer.fill_cyclic(msg, need1);
            proof {
                assert(msg@ =~= old(msg)@ + cyclic_take(r, c, (need0 as nat)));
            }
            return true;
        }
        false
    }

}

/// The buffer pair is untouched: contents, cursor and ready flag all keep
/// their values.
pub open spec fn same_buffer(pre: Dac, post: Dac) -> bool {
    &&& post.capacity() == pre.capacity()
    &&& post.write_seq() == pre.write_seq()
    &&& post.write_ready() == pre.write_ready()
    &&& post.read_seq() == pre.read_seq()
    &&& post.read_cursor() == pre.read_cursor()
}

/// The replay policy is untouched: mode and refill request keep their
/// values.
pub open spec fn same_policy(pre: Dac, post: Dac) -> bool {
    &&& post.mode() == pre.mode()
    &&& post.refill_requested() == pre.refill_requested()
}

/// The exact outcome of one [`Dac::fill_into`] call, case by case over the
/// state the consumer found. `msg0`/`msg1` are the message before and
/// after; `k` is the demanded total.
pub open spec fn fill_post(
    pre: Dac,
    post: Dac,
    msg0: Seq<Sample>,
    msg1: Seq<Sample>,
    k: nat,
    complete: bool,
) -> bool {
    let r = pre.read_seq();
    let c = pre.read_cursor() as int;
    let lr = r.len() as int;
    let w = pre.write_seq();
    let lw = w.len() as int;
    let need0 = k - msg0.len();
    let avail = lr - c;
    if need0 <= avail {
        // Demand met from the read half alone: no swap attempt, no refill
        // request, everything else untouched.
        &&& complete
        &&& msg1 == msg0 + r.subrange(c, c + need0)
        &&& post.read_seq() == r
        &&& post.read_cursor() == c + need0
        &&& post.write_seq() == w
        &&& post.write_ready() == pre.write_ready()
        &&& post.refill_requested() == pre.refill_requested()
    } else {
        let need1 = need0 - avail;
        // The read half ran out: a swap was attempted, so the refill
        // request is raised in every case below.
        &&& post.refill_requested()
        &&& if pre.write_ready() {
            // The published write half was swapped in as a unit.
            &&& post.write_seq() == r
            &&& !post.write_ready()
            &&& post.read_seq() == w
            &&& if need1 <= lw {
                &&& complete
                &&& msg1 == msg0 + r.subrange(c, lr) + w.subrange(0, need1)
                &&& post.read_cursor() == need1
            } else if pre.mode() is Cyclic && lw > 0 {
                // The fresh publish itself wraps cyclically.
                &&& complete
                &&& msg1 == msg0 + r.subrange(c, lr) + cyclic_take(w, 0, need1 as nat)
                &&& post.read_cursor() <= lw
                &&& post.read_cursor() as int % lw == need1 % lw
            } else {
                // One-shot starvation after consuming the fresh publish.
                &&& !complete
                &&& msg1 == msg0 + r.subrange(c, lr) + w
                &&& post.read_cursor() == lw
            }
        } else {
            // Nothing to swap in.
            &&& post.write_seq() == w
            &&& !post.write_ready()
            &&& post.read_seq() == r
            &&& if pre.mode() is Cyclic && lr > 0 {
                // Cyclic replay continues from the current contents.
                &&& complete
                &&& msg1 == msg0 + cyclic_take(r, c, need0 as nat)
                &&& post.read_cursor() <= lr
                &&& post.read_cursor() as int % lr == (c + need0) % lr
            } else {
                // One-shot starvation: wait for the producer, keep `msg1`.
                &&& !complete
                &&& msg1 == msg0 + r.subrange(c, lr)
                &&& post.read_cursor() == lr
            }
        }
    }
}

/// OneShot non-reuse: under one-shot replay `fill_into` only ever advances
/// the cursor, so two consecutive drains of `n1` then `n2` samples from one
/// publish emit adjacent windows drawn from disjoint positions — no sample
/// position is emitted twice — and once the cursor reaches the end the
/// consumer gets an incomplete message (it must swap in a fresh publish)
/// rather than repeated output.
pub proof fn lemma_oneshot_non_reuse(s: Seq<Sample>, c: int, n1: nat, n2: nat)
    requires
        0 <= c,
        c + n1 + n2 <= s.len(),
    ensures
        s.subrange(c, c + n1) + s.subrange(c + n1, c + n1 + n2) =~= s.subrange(c, c + n1 + n2),
        vstd::set_lib::set_int_range(c, c + n1).disjoint(
            vstd::set_lib::set_int_range(c + n1, c + n1 + n2),
        ),
{
    assert forall|p: int| #[trigger] vstd::set_lib::set_int_range(c, c + n1).contains(p)
        implies !vstd::set_lib::set_int_range(c + n1, c + n1 + n2).contains(p) by {}
}

} // verus!
