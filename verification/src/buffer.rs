//! The sample buffer pair: a fixed-capacity double buffer split into an
//! exclusive write half and an exclusive read half.
//!
//! A producer clears and wholly repopulates the write half, then publishes
//! it by setting the ready flag. The consumer drains the read half through a
//! cursor and, when the write half is ready, exchanges the two halves as a
//! unit: the consumer therefore always observes either the fully previous or
//! the fully next buffer contents, never a mixture.

use vstd::prelude::*;

verus! {

/// A sample in its fixed-width device-code representation. Producers convert
/// physical values into this form before publishing; the consumer emits it
/// in the outbound message unchanged.
pub type Sample = i32;

/// `n` samples of `s` read cyclically starting at offset `start`, wrapping
/// to the front of `s` whenever the end is reached. Meaningful only for
/// non-empty `s`.
pub open spec fn cyclic_take(s: Seq<Sample>, start: int, n: nat) -> Seq<Sample> {
    Seq::new(n, |i: int| s[(start + i) % (s.len() as int)])
}

/// `s` repeated `k` times end to end.
pub open spec fn repeat_seq(s: Seq<Sample>, k: nat) -> Seq<Sample>
    decreases k,
{
    if k == 0 {
        Seq::empty()
    } else {
        repeat_seq(s, (k - 1) as nat) + s
    }
}

/// The write half: an exclusive-access, fixed-capacity sequence of samples,
/// cleared and fully repopulated each update cycle and then marked ready.
pub struct WriteBuffer {
    data: Vec<Sample>,
    ready: bool,
    max_len: usize,
}

impl WriteBuffer {
    /// The samples currently held by the write half.
    pub closed spec fn data_seq(&self) -> Seq<Sample> {
        self.data@
    }

    /// Whether a complete repopulation has been published.
    pub closed spec fn is_ready(&self) -> bool {
        self.ready
    }

    /// The fixed maximum length, set once at construction.
    pub closed spec fn capacity(&self) -> nat {
        self.max_len as nat
    }

    pub open spec fn wf(&self) -> bool {
        self.data_seq().len() <= self.capacity()
    }

    pub fn new(max_len: usize) -> (r: Self)
        ensures
            r.wf(),
            r.capacity() == max_len,
            r.data_seq() == Seq::<Sample>::empty(),
            !r.is_ready(),
    {
        WriteBuffer { data: Vec::new(), ready: false, max_len }
    }

    /// Start an update cycle: the previous contents are discarded and the
    /// half is no longer ready, so an incomplete repopulation can never be
    /// observed through a swap.
    pub fn begin_update(&mut self)
        ensures
            final(self).wf(),
            final(self).capacity() == old(self).capacity(),
            final(self).data_seq() == Seq::<Sample>::empty(),
            !final(self).is_ready(),
    {
        self.data.clear();
        self.ready = false;
    }

    /// Append one converted sample to the current update cycle.
    pub fn append(&mut self, s: Sample)
        requires
            old(self).wf(),
            old(self).data_seq().len() < old(self).capacity(),
        ensures
            final(self).wf(),
            final(self).capacity() == old(self).capacity(),
            final(self).data_seq() == old(self).data_seq().push(s),
            final(self).is_ready() == old(self).is_ready(),
    {
        self.data.push(s);
    }

    /// Mark the repopulation complete: only now may a swap pick it up.
    pub fn publish(&mut self)
        ensures
            final(self).wf() == old(self).wf(),
            final(self).capacity() == old(self).capacity(),
            final(self).data_seq() == old(self).data_seq(),
            final(self).is_ready(),
    {
        self.ready = true;
    }
}

/// The read half: an exclusive-access, fixed-capacity sequence of samples
/// plus a cursor, drained left to right and refilled wholesale by a swap.
pub struct ReadBuffer {
    data: Vec<Sample>,
    cursor: usize,
    max_len: usize,
}

impl ReadBuffer {
    /// The samples currently held by the read half.
    pub closed spec fn data_seq(&self) -> Seq<Sample> {
        self.data@
    }

    /// The drain position: samples before it have been taken since the last
    /// swap (or rewind), samples from it on are still available.
    pub closed spec fn cursor_at(&self) -> nat {
        self.cursor as nat
    }

    /// The fixed maximum length, set once at construction.
    pub closed spec fn capacity(&self) -> nat {
        self.max_len as nat
    }

    /// Samples still available before the cursor reaches the end.
    pub open spec fn avail(&self) -> int {
        self.data_seq().len() - self.cursor_at()
    }

    pub open spec fn wf(&self) -> bool {
        self.cursor_at() <= self.data_seq().len() && self.data_seq().len() <= self.capacity()
    }

    pub fn new(max_len: usize) -> (r: Self)
        ensures
            r.wf(),
            r.capacity() == max_len,
            r.data_seq() == Seq::<Sample>::empty(),
            r.cursor_at() == 0,
    {
        ReadBuffer { data: Vec::new(), cursor: 0, max_len }
    }

    /// Whether the cursor has reached the end of the read half.
    pub fn at_end(&self) -> (r: bool)
        ensures
            r == (self.avail() == 0),
    {
        self.cursor == self.data.len()
    }

    /// Wrap the cursor back to the start without changing the contents
    /// (cyclic replay).
    pub fn rewind(&mut self)
        requires
            old(self).wf(),
        ensures
            final(self).wf(),
            final(self).capacity() == old(self).capacity(),
            final(self).data_seq() == old(self).data_seq(),
            final(self).cursor_at() == 0,
    {
        self.cursor = 0;
    }

    /// Take up to `n` samples starting at the cursor, appending them to
    /// `msg` and advancing the cursor by exactly the number taken.
    pub fn take_into(&mut self, msg: &mut Vec<Sample>, n: usize) -> (t: usize)
        requires
            old(self).wf(),
            old(msg)@.len() + n <= usize::MAX,
        ensures
            final(self).wf(),
            final(self).capacity() == old(self).capacity(),
            final(self).data_seq() == old(self).data_seq(),
            t as int == if n as int <= old(self).avail() {
                n as int
            } else {
                old(self).avail()
            },
            final(self).cursor_at() == old(self).cursor_at() + t,
            final(msg)@ == old(msg)@ + old(self).data_seq().subrange(
                old(self).cursor_at() as int,
                old(self).cursor_at() + t,
            ),
    {
        let avail = self.data.len() - self.cursor;
        let t = if n < avail {
            n
        } else {
            avail
        };
        let mut i: usize = 0;
        while i < t
            invariant
                old(self).wf(),
                self.wf(),
                self.data@ == old(self).data_seq(),
                self.max_len == old(self).capacity(),
                i <= t,
                old(self).cursor_at() + t <= self.data@.len(),
                self.cursor == old(self).cursor_at() + i,
                msg@.len() == old(msg)@.len() + i,
                msg@ == old(msg)@ + self.data@.subrange(
                    old(self).cursor_at() as int,
                    old(self).cursor_at() + i,
                ),
            decreases t - i,
        {
            msg.push(self.data[self.cursor]);
            self.cursor = self.cursor + 1;
            i = i + 1;
            proof {
                assert(msg@ =~= old(msg)@ + self.data@.subrange(
                    old(self).cursor_at() as int,
                    old(self).cursor_at() + i,
                ));
            }
        }
        t
    }

    /// Append exactly `n` samples to `msg`, reading cyclically from the
    /// cursor position and wrapping to the start at the end of the contents.
    pub fn fill_cyclic(&mut self, msg: &mut Vec<Sample>, n: usize)
        requires
            old(self).wf(),
            old(self).data_seq().len() > 0,
            old(msg)@.len() + n <= usize::MAX,
        ensures
            final(self).wf(),
            final(self).capacity() == old(self).capacity(),
            final(self).data_seq() == old(self).data_seq(),
            final(msg)@ == old(msg)@ + cyclic_take(
                old(self).data_seq(),
                old(self).cursor_at() as int,
                n as nat,
            ),
            final(self).cursor_at() <= old(self).data_seq().len(),
            final(self).cursor_at() as int % (old(self).data_seq().len() as int) == (
            old(self).cursor_at() + n) % (old(self).data_seq().len() as int),
    {
        let ghost s = old(self).data_seq();
        let ghost c0 = old(self).cursor_at() as int;
        let ghost glen = s.len() as int;
        let len = self.data.len();
        let mut appended: usize = 0;
        while appended < n
            invariant
                old(self).wf(),
                self.wf(),
                self.data@ == s,
                s.len() == glen,
                c0 == old(self).cursor_at() as int,
                0 <= c0 <= glen,
                0 < glen,
                self.max_len == old(self).capacity(),
                len == glen,
                appended <= n,
                old(msg)@.len() + n <= usize::MAX,
                msg@.len() == old(msg)@.len() + appended,
                self.cursor <= len,
                self.cursor as int % glen == (c0 + appended) % glen,
                msg@ == old(msg)@ + cyclic_take(s, c0, appended as nat),
            decreases n - appended,
        {
            if self.cursor == len {
                self.cursor = 0;
                proof {
                    vstd::arithmetic::div_mod::lemma_mod_self_0(glen);
                    vstd::arithmetic::div_mod::lemma_small_mod(0, glen as nat);
                }
            }
            proof {
                vstd::arithmetic::div_mod::lemma_small_mod(self.cursor as nat, glen as nat);
                assert(self.cursor as int == (c0 + appended) % glen);
            }
            msg.push(self.data[self.cursor]);
            proof {
                vstd::arithmetic::div_mod::lemma_add_mod_noop(c0 + appended, 1, glen);
                if glen == 1 {
                    vstd::arithmetic::div_mod::lemma_small_mod(0, 1);
                    vstd::arithmetic::div_mod::lemma_mod_self_0(1);
                } else {
                    vstd::arithmetic::div_mod::lemma_small_mod(1, glen as nat);
                }
                if self.cursor as int + 1 == glen {
                    vstd::arithmetic::div_mod::lemma_mod_self_0(glen);
                } else {
                    vstd::arithmetic::div_mod::lemma_small_mod((self.cursor + 1) as nat, glen as nat);
                }
            }
            self.cursor = self.cursor + 1;
            appended = appended + 1;
            proof {
                assert(msg@ =~= old(msg)@ + cyclic_take(s, c0, appended as nat));
            }
        }
    }
}

/// The buffer pair itself: one write half and one read half of one shared
/// fixed capacity, exchanged as a unit by `try_swap`.
pub struct DoubleBuffer {
    write: WriteBuffer,
    read: ReadBuffer,
    history: Ghost<Seq<Seq<Sample>>>,
}

impl DoubleBuffer {
    pub closed spec fn write_seq(&self) -> Seq<Sample> {
        self.write.data_seq()
    }

    pub closed spec fn write_ready(&self) -> bool {
        self.write.is_ready()
    }

    pub closed spec fn read_seq(&self) -> Seq<Sample> {
        self.read.data_seq()
    }

    pub closed spec fn read_cursor(&self) -> nat {
        self.read.cursor_at()
    }

    pub closed spec fn capacity(&self) -> nat {
        self.write.capacity()
    }

    /// Samples still available in the read half.
    pub open spec fn avail(&self) -> int {
        self.read_seq().len() - self.read_cursor()
    }

    /// Every sequence published so far, oldest first (ghost bookkeeping).
    pub closed spec fn publishes(&self) -> Seq<Seq<Sample>> {
        self.history@
    }

    pub closed spec fn wf(&self) -> bool {
        &&& self.write.wf()
        &&& self.read.wf()
        &&& self.write.capacity() == self.read.capacity()
        // No torn reads: the read half is one single completed publish (or
        // the initial empty contents), and a ready write half is exactly
        // the latest publish, so a swap can only install a whole publish.
        &&& self.read.data_seq() == Seq::<Sample>::empty() || self.history@.contains(
            self.read.data_seq(),
        )
        &&& self.write.is_ready() ==> self.history@.len() > 0 && self.write.data_seq()
            == self.history@.last()
    }

    pub fn new(max_len: usize) -> (r: Self)
        ensures
            r.wf(),
            r.capacity() == max_len,
            r.write_seq() == Seq::<Sample>::empty(),
            r.read_seq() == Seq::<Sample>::empty(),
            r.read_cursor() == 0,
            !r.write_ready(),
            r.publishes() == Seq::<Seq<Sample>>::empty(),
    {
        DoubleBuffer {
            write: WriteBuffer::new(max_len),
            read: ReadBuffer::new(max_len),
            history: Ghost(Seq::empty()),
        }
    }

    /// The shared maximum length of the two halves.
    pub fn max_len(&self) -> (r: usize)
        requires
            self.wf(),
        ensures
            r == self.capacity(),
    {
        self.write.max_len
    }

    /// Start an update cycle on the write half (full-replace semantics).
    pub fn begin_update(&mut self)
        requires
            old(self).wf(),
        ensures
            final(self).wf(),
            final(self).capacity() == old(self).capacity(),
            final(self).write_seq() == Seq::<Sample>::empty(),
            !final(self).write_ready(),
            final(self).read_seq() == old(self).read_seq(),
            final(self).read_cursor() == old(self).read_cursor(),
            final(self).publishes() == old(self).publishes(),
    {
        self.write.begin_update();
    }

    /// Append one sample to the write half's current update cycle. The
    /// cycle must have been begun (full-replace semantics: clear before
    /// appending), so a half-written update is never marked ready.
    pub fn append(&mut self, s: Sample)
        requires
            old(self).wf(),
            old(self).write_seq().len() < old(self).capacity(),
            !old(self).write_ready(),
        ensures
            final(self).wf(),
            final(self).capacity() == old(self).capacity(),
            final(self).write_seq() == old(self).write_seq().push(s),
            !final(self).write_ready(),
            final(self).read_seq() == old(self).read_seq(),
            final(self).read_cursor() == old(self).read_cursor(),
            final(self).publishes() == old(self).publishes(),
    {
        self.write.append(s);
    }

    /// Publish the write half: mark the completed repopulation ready and
    /// record it in the publish history.
    pub fn publish(&mut self)
        requires
            old(self).wf(),
        ensures
            final(self).wf(),
            final(self).capacity() == old(self).capacity(),
            final(self).write_seq() == old(self).write_seq(),
            final(self).write_ready(),
            final(self).read_seq() == old(self).read_seq(),
            final(self).read_cursor() == old(self).read_cursor(),
            final(self).publishes() == old(self).publishes().push(old(self).write_seq()),
    {
        self.write.publish();
        self.history = Ghost(self.history@.push(self.write.data_seq()));
        proof {
            if old(self).read_seq() != Seq::<Sample>::empty() {
                let i = choose|i: int|
                    0 <= i < old(self).publishes().len() && old(self).publishes()[i] == old(
                        self,
                    ).read_seq();
                assert(self.history@[i] == self.read.data_seq());
            }
        }
    }

    /// If the write half is ready, exchange the two halves as a unit, reset
    /// the cursor and clear the ready flag; otherwise change nothing.
    pub fn try_swap(&mut self) -> (swapped: bool)
        requires
            old(self).wf(),
        ensures
            final(self).wf(),
            final(self).capacity() == old(self).capacity(),
            swapped == old(self).write_ready(),
            final(self).publishes() == old(self).publishes(),
            swapped ==> final(self).read_seq() == old(self).write_seq()
                && final(self).write_seq() == old(self).read_seq() && final(self).read_cursor()
                == 0 && !final(self).write_ready(),
            !swapped ==> *final(self) == *old(self),
    {
        if self.write.ready {
            core::mem::swap(&mut self.write.data, &mut self.read.data);
            self.read.cursor = 0;
            self.write.ready = false;
            proof {
                assert(self.history@[self.history@.len() - 1] == self.read.data_seq());
            }
            true
        } else {
            false
        }
    }

    /// Whether the read half is exhausted.
    pub fn read_at_end(&self) -> (r: bool)
        requires
            self.wf(),
        ensures
            r == (self.avail() == 0),
    {
        self.read.at_end()
    }

    /// The number of samples currently held by the read half.
    pub fn read_len(&self) -> (r: usize)
        ensures
            r == self.read_seq().len(),
    {
        self.read.data.len()
    }

    /// Wrap the read cursor back to the start (cyclic replay).
    pub fn rewind(&mut self)
        requires
            old(self).wf(),
        ensures
            final(self).wf(),
            final(self).capacity() == old(self).capacity(),
            final(self).write_seq() == old(self).write_seq(),
            final(self).write_ready() == old(self).write_ready(),
            final(self).read_seq() == old(self).read_seq(),
            final(self).read_cursor() == 0,
            final(self).publishes() == old(self).publishes(),
    {
        self.read.rewind();
    }

    /// Take up to `n` samples from the read half into `msg` (see
    /// [`ReadBuffer::take_into`]).
    pub fn take_into(&mut self, msg: &mut Vec<Sample>, n: usize) -> (t: usize)
        requires
            old(self).wf(),
            old(msg)@.len() + n <= usize::MAX,
        ensures
            final(self).wf(),
            final(self).capacity() == old(self).capacity(),
            final(self).write_seq() == old(self).write_seq(),
            final(self).write_ready() == old(self).write_ready(),
            final(self).read_seq() == old(self).read_seq(),
            final(self).publishes() == old(self).publishes(),
            t as int == if n as int <= old(self).avail() {
                n as int
            } else {
                old(self).avail()
            },
            final(self).read_cursor() == old(self).read_cursor() + t,
            final(msg)@ == old(msg)@ + old(self).read_seq().subrange(
                old(self).read_cursor() as int,
                old(self).read_cursor() + t,
            ),
    {
        self.read.take_into(msg, n)
    }

    /// Append exactly `n` samples to `msg` cyclically from the read half
    /// (see [`ReadBuffer::fill_cyclic`]).
    pub fn fill_cyclic(&mut self, msg: &mut Vec<Sample>, n: usize)
        requires
            old(self).wf(),
            old(self).read_seq().len() > 0,
            old(msg)@.len() + n <= usize::MAX,
        ensures
            final(self).wf(),
            final(self).capacity() == old(self).capacity(),
            final(self).write_seq() == old(self).write_seq(),
            final(self).write_ready() == old(self).write_ready(),
            final(self).read_seq() == old(self).read_seq(),
            final(self).publishes() == old(self).publishes(),
            final(msg)@ == old(msg)@ + cyclic_take(
                old(self).read_seq(),
                old(self).read_cursor() as int,
                n as nat,
            ),
            final(self).read_cursor() <= old(self).read_seq().len(),
            final(self).read_cursor() as int % (old(self).read_seq().len() as int) == (
            old(self).read_cursor() + n) % (old(self).read_seq().len() as int),
    {
        self.read.fill_cyclic(msg, n)
    }
}

/// Capacity bound: the read cursor counts exactly the samples taken since
/// the last swap (`take_into` advances it by the number of samples it
/// returns and `try_swap` resets it to zero), so between two consecutive
/// swaps at most `capacity` samples leave the read half.
pub proof fn lemma_capacity_bound(b: DoubleBuffer)
    requires
        b.wf(),
    ensures
        b.read_cursor() <= b.capacity(),
{
}

/// No torn reads, stated on the pair itself: in every well-formed state
/// the read half — the only source `take_into` draws from — equals one
/// completed publish in its entirety (or the initial empty contents),
/// never a mixture of two publishes. The constructors establish this and
/// every operation above preserves it; [`lemma_no_torn_reads`] shows the
/// same induction over an explicit event trace.
pub proof fn lemma_read_half_single_publish(b: DoubleBuffer)
    requires
        b.wf(),
    ensures
        b.read_seq() == Seq::<Sample>::empty() || b.publishes().contains(b.read_seq()),
{
}

/// A cyclic take depends on the start offset only through its remainder
/// modulo the length of the contents.
pub proof fn lemma_cyclic_take_mod(s: Seq<Sample>, a: int, b: int, n: nat)
    requires
        s.len() > 0,
        a % (s.len() as int) == b % (s.len() as int),
    ensures
        cyclic_take(s, a, n) =~= cyclic_take(s, b, n),
{
    let m = s.len() as int;
    assert forall|i: int| 0 <= i < n implies cyclic_take(s, a, n)[i] == cyclic_take(s, b, n)[i] by {
        vstd::arithmetic::div_mod::lemma_add_mod_noop(a, i, m);
        vstd::arithmetic::div_mod::lemma_add_mod_noop(b, i, m);
    }
}

/// A cyclic take that stays inside the contents is a plain subrange.
pub proof fn lemma_cyclic_take_in_range(s: Seq<Sample>, start: int, n: nat)
    requires
        s.len() > 0,
        0 <= start,
        start + n <= s.len(),
    ensures
        cyclic_take(s, start, n) =~= s.subrange(start, start + n),
{
    let m = s.len() as int;
    assert forall|i: int| 0 <= i < n implies cyclic_take(s, start, n)[i] == s.subrange(
        start,
        start + n,
    )[i] by {
        vstd::arithmetic::div_mod::lemma_small_mod((start + i) as nat, m as nat);
    }
}

/// Cyclic replay is unaffected by demand chunking: draining `a + b` samples
/// in one message equals draining `a` and then `b` across two messages, the
/// second continuing where the first stopped.
pub proof fn lemma_cyclic_chunking(s: Seq<Sample>, start: int, a: nat, b: nat)
    requires
        s.len() > 0,
    ensures
        cyclic_take(s, start, (a + b) as nat) =~= cyclic_take(s, start, a) + cyclic_take(
            s,
            start + a,
            b,
        ),
{
    assert forall|i: int| 0 <= i < a + b implies #[trigger] cyclic_take(s, start, (a + b) as nat)[i]
        == (cyclic_take(s, start, a) + cyclic_take(s, start + a, b))[i] by {
        if a <= i {
            assert(start + a + (i - a) == start + i);
        }
    }
}

/// Cyclic idempotence: once the read half holds `s` and replay is cyclic,
/// draining `k * s.len()` samples from the start yields exactly `s`
/// repeated `k` times, however the demand is chunked (see
/// [`lemma_cyclic_chunking`]).
pub proof fn lemma_cyclic_idempotence(s: Seq<Sample>, k: nat)
    requires
        s.len() > 0,
    ensures
        cyclic_take(s, 0, k * s.len()) =~= repeat_seq(s, k),
    decreases k,
{
    let m = s.len() as int;
    if k == 0 {
        assert(k * s.len() == 0) by (nonlinear_arith)
            requires
                k == 0,
        ;
    } else {
        let j = (k - 1) as nat;
        assert(k * s.len() == j * s.len() + s.len()) by (nonlinear_arith)
            requires
                k == j + 1,
        ;
        lemma_cyclic_idempotence(s, j);
        lemma_cyclic_chunking(s, 0, j * s.len(), s.len());
        vstd::arithmetic::div_mod::lemma_mod_multiples_basic(j as int, m);
        assert((j * s.len()) as int == (j as int) * m) by (nonlinear_arith)
            requires
                m == s.len(),
        ;
        vstd::arithmetic::div_mod::lemma_small_mod(0, m as nat);
        lemma_cyclic_take_mod(s, (j * s.len()) as int, 0, s.len());
        lemma_cyclic_take_in_range(s, 0, s.len());
        assert(s.subrange(0, m) =~= s);
        assert(cyclic_take(s, 0, k * s.len()) =~= repeat_seq(s, j) + s);
    }
}

/// Abstract single-producer/single-consumer run of one buffer pair,
/// remembering every completed publish. Each event mirrors the contract of
/// one exec operation: `Publish` a full update cycle (`begin_update`,
/// `append`s, `publish`), `Swap` a successful or failed `try_swap`,
/// `Take(n)` a `take_into(_, n)`, and `Rewind` the cyclic-replay `rewind`.
pub struct PairModel {
    /// Contents of the write half.
    pub write: Seq<Sample>,
    /// Whether the write half has been published and not yet swapped.
    pub ready: bool,
    /// Contents of the read half.
    pub read: Seq<Sample>,
    /// Drain position in the read half.
    pub cursor: nat,
    /// Every sequence published so far, oldest first.
    pub publishes: Seq<Seq<Sample>>,
}

pub enum PairEvent {
    Publish(Seq<Sample>),
    Swap,
    Take(nat),
    Rewind,
}

pub open spec fn pair_init() -> PairModel {
    PairModel {
        write: Seq::empty(),
        ready: false,
        read: Seq::empty(),
        cursor: 0,
        publishes: Seq::empty(),
    }
}

pub open spec fn pair_step(m: PairModel, e: PairEvent) -> PairModel {
    match e {
        PairEvent::Publish(s) => PairModel {
            write: s,
            ready: true,
            publishes: m.publishes.push(s),
            ..m
        },
        PairEvent::Swap => if m.ready {
            PairModel { write: m.read, ready: false, read: m.write, cursor: 0, ..m }
        } else {
            m
        },
        PairEvent::Take(n) => PairModel {
            cursor: if m.cursor + n <= m.read.len() {
                (m.cursor + n) as nat
            } else {
                m.read.len()
            },
            ..m
        },
        PairEvent::Rewind => PairModel { cursor: 0, ..m },
    }
}

pub open spec fn pair_run(es: Seq<PairEvent>) -> PairModel
    decreases es.len(),
{
    if es.len() == 0 {
        pair_init()
    } else {
        pair_step(pair_run(es.drop_last()), es.last())
    }
}

/// The read half holds one single completed publish (or the initial empty
/// contents), and a ready write half holds exactly the latest publish.
pub open spec fn single_publish(m: PairModel) -> bool {
    &&& m.read == Seq::<Sample>::empty() || m.publishes.contains(m.read)
    &&& m.ready ==> m.publishes.len() > 0 && m.write == m.publishes.last()
}

/// No torn reads: in any interleaving of producer updates and consumer
/// drains, the read half — the only source `take_into` draws from — always
/// equals one completed publish in its entirety, never a mixture of two
/// publishes. A publish replaces the write half wholesale, and only a swap
/// of the whole ready write half ever changes the read half.
pub proof fn lemma_no_torn_reads(es: Seq<PairEvent>)
    ensures
        single_publish(pair_run(es)),
    decreases es.len(),
{
    if es.len() == 0 {
    } else {
        let pre = pair_run(es.drop_last());
        lemma_no_torn_reads(es.drop_last());
        match es.last() {
            PairEvent::Publish(s) => {
                assert(pre.publishes.push(s).last() == s);
                if pre.publishes.contains(pre.read) {
                    let i = choose|i: int|
                        0 <= i < pre.publishes.len() && pre.publishes[i] == pre.read;
                    assert(pre.publishes.push(s)[i] == pre.read);
                }
            },
            PairEvent::Swap => {
                if pre.ready {
                    assert(pre.publishes[pre.publishes.len() - 1] == pre.write);
                }
            },
            PairEvent::Take(_) => {},
            PairEvent::Rewind => {},
        }
    }
}

} // verus!
