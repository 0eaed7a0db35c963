use ringbuf::traits::{Consumer, Observer, Producer, Split};
use ringbuf::{HeapCons, HeapProd, HeapRb};
use vstd::prelude::*;

verus! {

/// The largest capacity a ring can be allocated with: its slots, four bytes
/// each, must stay within `isize::MAX` bytes.
pub const MAX_RING_CAPACITY: usize = usize::MAX / 8;

/// A fixed-capacity FIFO of raw mono samples.  A sample is carried as the bit
/// pattern of its 32-bit float, so the ring neither reads nor changes it.
///
/// A push against a full ring fails and drops the incoming sample: the oldest
/// samples are kept, never evicted.
#[verifier::external_body]
pub struct SampleRing {
    rb: HeapRb<u32>,
}

/// The samples held by a ring, oldest first.
pub uninterp spec fn ring_contents(r: SampleRing) -> Seq<u32>;

/// The capacity a ring was made with.
pub uninterp spec fn ring_capacity(r: SampleRing) -> nat;

/// Relies on ringbuf's `HeapRb::new`: an empty ring of exactly `capacity`
/// slots.  It panics on zero, and its allocation on a size past `isize::MAX`
/// bytes.
#[verifier::external_body]
fn rb_new(capacity: usize) -> (r: SampleRing)
    requires
        0 < capacity <= MAX_RING_CAPACITY,
    ensures
        ring_contents(r) == Seq::<u32>::empty(),
        ring_capacity(r) == capacity as nat,
{
    SampleRing { rb: HeapRb::<u32>::new(capacity) }
}

/// Relies on ringbuf's `Producer::try_push`: appends when the ring is not
/// full, otherwise leaves it as it was and reports failure.
#[verifier::external_body]
fn rb_try_push(r: &mut SampleRing, x: u32) -> (ok: bool)
    ensures
        ring_capacity(*final(r)) == ring_capacity(*old(r)),
        ok == (ring_contents(*old(r)).len() < ring_capacity(*old(r))),
        ok ==> ring_contents(*final(r)) == ring_contents(*old(r)).push(x),
        !ok ==> ring_contents(*final(r)) == ring_contents(*old(r)),
{
    r.rb.try_push(x).is_ok()
}

/// Relies on ringbuf's `Consumer::try_pop`: removes and returns the oldest
/// sample, or `None` on an empty ring.
#[verifier::external_body]
fn rb_try_pop(r: &mut SampleRing) -> (o: Option<u32>)
    ensures
        ring_capacity(*final(r)) == ring_capacity(*old(r)),
        ring_contents(*old(r)).len() == 0 ==> o.is_none() && ring_contents(*final(r))
            == ring_contents(*old(r)),
        ring_contents(*old(r)).len() > 0 ==> o == Some(ring_contents(*old(r))[0])
            && ring_contents(*final(r)) == ring_contents(*old(r)).drop_first(),
{
    r.rb.try_pop()
}

/// Relies on ringbuf's `Observer::occupied_len`: the number of held samples.
#[verifier::external_body]
fn rb_occupied_len(r: &SampleRing) -> (n: usize)
    ensures
        n as nat == ring_contents(*r).len(),
{
    r.rb.occupied_len()
}

/// Relies on ringbuf's `Observer::capacity`: the capacity given at creation.
#[verifier::external_body]
fn rb_capacity(r: &SampleRing) -> (n: usize)
    ensures
        n as nat == ring_capacity(*r),
{
    r.rb.capacity().get()
}

/// What a ring holds after `xs` were pushed one by one onto `held`, with room
/// for `cap` samples: each push that finds the ring full is dropped.
pub open spec fn pushed_model(held: Seq<u32>, cap: nat, xs: Seq<u32>) -> Seq<u32>
    decreases xs.len(),
{
    if xs.len() == 0 {
        held
    } else {
        let before = pushed_model(held, cap, xs.drop_last());
        if before.len() < cap {
            before.push(xs.last())
        } else {
            before
        }
    }
}

/// The contents after pushing onto a ring that never overflows: the first
/// `cap - held.len()` of the pushed samples are appended, the rest dropped.
pub open spec fn kept_prefix(held: Seq<u32>, cap: nat, xs: Seq<u32>) -> Seq<u32> {
    let room = cap - held.len();
    if xs.len() <= room {
        held + xs
    } else {
        held + xs.subrange(0, room as int)
    }
}

impl SampleRing {
    /// The ring is within its capacity, and that capacity is not zero.
    pub open spec fn wf(self) -> bool {
        &&& ring_capacity(self) > 0
        &&& ring_contents(self).len() <= ring_capacity(self)
    }

    /// The held samples, oldest first.
    pub open spec fn view(self) -> Seq<u32> {
        ring_contents(self)
    }

    /// An empty ring with room for `capacity` samples.
    pub fn new(capacity: usize) -> (r: SampleRing)
        requires
            0 < capacity <= MAX_RING_CAPACITY,
        ensures
            r.wf(),
            r.view() == Seq::<u32>::empty(),
            ring_capacity(r) == capacity as nat,
    {
        rb_new(capacity)
    }

    /// The number of samples held.
    pub fn occupied_len(&self) -> (n: usize)
        ensures
            n as nat == self.view().len(),
    {
        rb_occupied_len(self)
    }

    /// The number of samples the ring can hold.
    pub fn capacity(&self) -> (n: usize)
        ensures
            n as nat == ring_capacity(*self),
    {
        rb_capacity(self)
    }

    /// Appends one sample, without blocking.  On a full ring the sample is
    /// dropped, the contents stay as they were, and `false` is returned.
    pub fn try_push(&mut self, x: u32) -> (ok: bool)
        requires
            old(self).wf(),
        ensures
            final(self).wf(),
            ring_capacity(*final(self)) == ring_capacity(*old(self)),
            ok == (old(self).view().len() < ring_capacity(*old(self))),
            ok ==> final(self).view() == old(self).view().push(x),
            !ok ==> final(self).view() == old(self).view(),
    {
        rb_try_push(self, x)
    }

    /// Removes and returns the oldest sample, or `None` when the ring is empty.
    pub fn try_pop(&mut self) -> (o: Option<u32>)
        requires
            old(self).wf(),
        ensures
            final(self).wf(),
            ring_capacity(*final(self)) == ring_capacity(*old(self)),
            old(self).view().len() == 0 ==> o.is_none() && final(self).view() == old(self).view(),
            old(self).view().len() > 0 ==> o == Some(old(self).view()[0])
                && final(self).view() == old(self).view().drop_first(),
    {
        rb_try_pop(self)
    }

    /// Pushes `xs` in order, as the capture callback does with one buffer of
    /// mono samples.  Returns how many were accepted; the rest were dropped.
    pub fn push_all(&mut self, xs: &[u32]) -> (accepted: usize)
        requires
            old(self).wf(),
        ensures
            final(self).wf(),
            ring_capacity(*final(self)) == ring_capacity(*old(self)),
            final(self).view() == pushed_model(old(self).view(), ring_capacity(*old(self)), xs@),
            final(self).view() == kept_prefix(old(self).view(), ring_capacity(*old(self)), xs@),
            accepted as int == final(self).view().len() - old(self).view().len(),
    {
        let ghost held = self.view();
        let ghost cap = ring_capacity(*self);
        let mut accepted: usize = 0;
        let mut i: usize = 0;
        while i < xs.len()
            invariant
                self.wf(),
                ring_capacity(*self) == cap,
                held.len() <= cap,
                0 <= i <= xs@.len(),
                self.view() == pushed_model(held, cap, xs@.subrange(0, i as int)),
                accepted as int == self.view().len() - held.len(),
                accepted <= i,
            decreases xs.len() - i,
        {
            let ghost before = self.view();
            assert(xs@.subrange(0, i as int + 1).drop_last() == xs@.subrange(0, i as int));
            if self.try_push(xs[i]) {
                accepted = accepted + 1;
            }
            i = i + 1;
        }
        assert(xs@.subrange(0, xs@.len() as int) == xs@);
        proof {
            lemma_pushed_model_keeps_prefix(held, cap, xs@);
        }
        accepted
    }

    /// Takes the oldest `n` samples when at least `n` are held; otherwise
    /// takes nothing and returns `None`, so the samples wait for a later call.
    pub fn pop_window(&mut self, n: usize) -> (w: Option<Vec<u32>>)
        requires
            old(self).wf(),
        ensures
            final(self).wf(),
            ring_capacity(*final(self)) == ring_capacity(*old(self)),
            old(self).view().len() < n ==> w.is_none() && final(self).view() == old(self).view(),
            old(self).view().len() >= n ==> w.is_some() && w.unwrap()@ == old(self).view().subrange(
                0,
                n as int,
            ) && final(self).view() == old(self).view().subrange(
                n as int,
                old(self).view().len() as int,
            ),
    {
        if self.occupied_len() < n {
            return None;
        }
        let ghost held = self.view();
        let mut w: Vec<u32> = Vec::new();
        let mut i: usize = 0;
        while i < n
            invariant
                self.wf(),
                ring_capacity(*self) == ring_capacity(*old(self)),
                held == old(self).view(),
                held.len() >= n,
                0 <= i <= n,
                w@ == held.subrange(0, i as int),
                self.view() == held.subrange(i as int, held.len() as int),
            decreases n - i,
        {
            let o = self.try_pop();
            match o {
                Some(x) => {
                    w.push(x);
                },
                None => {},
            }
            assert(w@ == held.subrange(0, i as int + 1));
            i = i + 1;
        }
        Some(w)
    }
}

/// The writing half of a split ring, for the capture callback.
#[verifier::external_body]
pub struct SampleProducer {
    prod: HeapProd<u32>,
}

/// The reading half of a split ring, for the analyzer.
#[verifier::external_body]
pub struct SampleConsumer {
    cons: HeapCons<u32>,
}

/// The samples a producer half has handed to the ring so far, in order.
pub uninterp spec fn prod_pushed(p: SampleProducer) -> Seq<u32>;

/// The vacant places a producer half knows of: the consumer may have freed
/// more since the half last looked, never fewer.
pub uninterp spec fn prod_room(p: SampleProducer) -> nat;

/// The samples a consumer half has seen committed and not yet read, oldest
/// first.  The producer may have committed more since the half last looked.
pub uninterp spec fn cons_visible(c: SampleConsumer) -> Seq<u32>;

/// `b` begins with `a`.
pub open spec fn extends(b: Seq<u32>, a: Seq<u32>) -> bool {
    a.len() <= b.len() && b.subrange(0, a.len() as int) == a
}

/// `sub` is what remains of `xs` after some of its elements are left out.
pub open spec fn is_subseq(sub: Seq<u32>, xs: Seq<u32>) -> bool
    decreases xs.len(),
{
    if xs.len() == 0 {
        sub.len() == 0
    } else if sub.len() > 0 && sub.last() == xs.last() && is_subseq(sub.drop_last(), xs.drop_last()) {
        true
    } else {
        is_subseq(sub, xs.drop_last())
    }
}

/// Relies on ringbuf's `Split::split`: the two halves share the one ring; the
/// consumer starts from the indices the ring has at the split, and the
/// producer has pushed nothing yet and knows the room the ring has.
#[verifier::external_body]
fn rb_split(r: SampleRing) -> (h: (SampleProducer, SampleConsumer))
    ensures
        prod_pushed(h.0) == Seq::<u32>::empty(),
        prod_room(h.0) == ring_capacity(r) - ring_contents(r).len(),
        cons_visible(h.1) == ring_contents(r),
{
    let (prod, cons) = r.rb.split();
    (SampleProducer { prod }, SampleConsumer { cons })
}

/// Relies on ringbuf's `Producer::try_push` on a caching producer half: it
/// never blocks; a sample that fits is written and committed, one that finds
/// the ring full is handed back.  While the half knows of a vacant place it
/// writes there without looking further; otherwise it fetches the consumer's
/// read index first, so whether the sample fits depends on the consumer.
#[verifier::external_body]
fn prod_try_push(p: &mut SampleProducer, x: u32) -> (ok: bool)
    ensures
        prod_room(*old(p)) > 0 ==> ok && prod_room(*final(p)) == prod_room(*old(p)) - 1,
        ok ==> prod_pushed(*final(p)) == prod_pushed(*old(p)).push(x),
        !ok ==> prod_pushed(*final(p)) == prod_pushed(*old(p)),
{
    p.prod.try_push(x).is_ok()
}

/// Relies on ringbuf's `Observer::occupied_len` on a caching consumer half:
/// it fetches the producer's latest write index, so the half now sees what it
/// saw before and whatever was committed since, and returns that count.
#[verifier::external_body]
fn cons_occupied_len(c: &mut SampleConsumer) -> (n: usize)
    ensures
        extends(cons_visible(*final(c)), cons_visible(*old(c))),
        n as nat == cons_visible(*final(c)).len(),
{
    c.cons.occupied_len()
}

/// Relies on ringbuf's `Consumer::try_pop` on a caching consumer half: it never
/// blocks; with samples in view it takes the oldest without looking further,
/// and with none it fetches the write index and takes the oldest if any came.
#[verifier::external_body]
fn cons_try_pop(c: &mut SampleConsumer) -> (o: Option<u32>)
    ensures
        cons_visible(*old(c)).len() > 0 ==> o == Some(cons_visible(*old(c))[0]) && cons_visible(
            *final(c),
        ) == cons_visible(*old(c)).drop_first(),
        cons_visible(*old(c)).len() == 0 && o.is_none() ==> cons_visible(*final(c)) == cons_visible(
            *old(c),
        ),
{
    c.cons.try_pop()
}

impl SampleRing {
    /// Splits the ring into a producer and a consumer that may run on two
    /// threads at once without locks.  The consumer starts out seeing what the
    /// ring holds, the producer the room it has left.
    pub fn split(self) -> (h: (SampleProducer, SampleConsumer))
        requires
            self.wf(),
        ensures
            prod_pushed(h.0) == Seq::<u32>::empty(),
            prod_room(h.0) == ring_capacity(self) - self.view().len(),
            cons_visible(h.1) == self.view(),
    {
        rb_split(self)
    }
}

impl SampleProducer {
    /// Pushes `xs` in order without blocking; samples that find the ring full
    /// are dropped.  The ones accepted reach the ring in the order of `xs`,
    /// and their number is returned.  When the half knows of room for all of
    /// them, all are accepted.
    pub fn push_all(&mut self, xs: &[u32]) -> (accepted: usize)
        ensures
            prod_room(*old(self)) >= xs@.len() ==> accepted as nat == xs@.len() && prod_pushed(
                *final(self),
            ) == prod_pushed(*old(self)) + xs@,
            exists|sub: Seq<u32>|
                #[trigger] is_subseq(sub, xs@) && prod_pushed(*final(self)) == prod_pushed(*old(self))
                    + sub && accepted as nat == sub.len(),
    {
        let ghost before = prod_pushed(*self);
        let ghost room = prod_room(*self);
        let ghost sub = Seq::<u32>::empty();
        let mut accepted: usize = 0;
        let mut i: usize = 0;
        while i < xs.len()
            invariant
                0 <= i <= xs@.len(),
                accepted <= i,
                accepted as nat == sub.len(),
                is_subseq(sub, xs@.subrange(0, i as int)),
                prod_pushed(*self) == before + sub,
                room >= xs@.len() ==> prod_room(*self) == room - i && sub == xs@.subrange(
                    0,
                    i as int,
                ),
            decreases xs.len() - i,
        {
            let ghost pre = xs@.subrange(0, i as int);
            let ghost next = xs@.subrange(0, i as int + 1);
            assert(next.drop_last() == pre);
            assert(next.last() == xs@[i as int]);
            if prod_try_push(self, xs[i]) {
                proof {
                    let s2 = sub.push(xs@[i as int]);
                    assert(s2.drop_last() == sub);
                    assert(is_subseq(s2, next));
                    assert(before + s2 == (before + sub).push(xs@[i as int]));
                    sub = s2;
                }
                accepted = accepted + 1;
            } else {
                assert(is_subseq(sub, next));
            }
            i = i + 1;
        }
        assert(xs@.subrange(0, xs@.len() as int) == xs@);
        accepted
    }
}

impl SampleConsumer {
    /// The number of samples committed and not yet read, after looking for
    /// any the producer committed since the last look.
    pub fn occupied_len(&mut self) -> (n: usize)
        ensures
            extends(cons_visible(*final(self)), cons_visible(*old(self))),
            n as nat == cons_visible(*final(self)).len(),
    {
        cons_occupied_len(self)
    }

    /// Takes the oldest `n` samples when at least `n` are committed; otherwise
    /// takes nothing and returns `None`, so the samples wait for a later call.
    /// Only this half reads, so the samples counted are the ones taken.
    pub fn pop_window(&mut self, n: usize) -> (w: Option<Vec<u32>>)
        ensures
            n == 0 ==> w.is_some() && w.unwrap()@ == Seq::<u32>::empty(),
            cons_visible(*old(self)).len() >= n ==> w.is_some(),
            w.is_none() ==> extends(cons_visible(*final(self)), cons_visible(*old(self)))
                && cons_visible(*final(self)).len() < n,
            w.is_some() ==> w.unwrap()@.len() == n && extends(
                w.unwrap()@ + cons_visible(*final(self)),
                cons_visible(*old(self)),
            ),
    {
        if cons_occupied_len(self) < n {
            return None;
        }
        let ghost seen = cons_visible(*self);
        let mut w: Vec<u32> = Vec::new();
        let mut i: usize = 0;
        while i < n
            invariant
                0 <= i <= n,
                seen.len() >= n,
                extends(seen, cons_visible(*old(self))),
                w@.len() == i,
                w@ + cons_visible(*self) == seen,
            decreases n - i,
        {
            let ghost pre = cons_visible(*self);
            assert(pre.len() == seen.len() - i) by {
                assert((w@ + pre).len() == seen.len());
            }
            let x = match cons_try_pop(self) {
                Some(x) => x,
                None => 0,
            };
            w.push(x);
            assert(w@ + cons_visible(*self) == seen) by {
                assert(pre == seq![x] + pre.drop_first());
                assert(w@ == w@.drop_last().push(x));
                assert(w@.drop_last() + pre == seen);
            }
            i = i + 1;
        }
        Some(w)
    }
}

/// Pushing never takes a ring past its capacity: whatever was pushed, the
/// result holds what was there before followed by the first pushed samples that
/// fit, and the later ones are dropped.
pub proof fn lemma_pushed_model_keeps_prefix(held: Seq<u32>, cap: nat, xs: Seq<u32>)
    requires
        held.len() <= cap,
    ensures
        pushed_model(held, cap, xs).len() <= cap,
        pushed_model(held, cap, xs) == kept_prefix(held, cap, xs),
    decreases xs.len(),
{
    if xs.len() > 0 {
        let init = xs.drop_last();
        lemma_pushed_model_keeps_prefix(held, cap, init);
        let room = cap - held.len();
        if init.len() < room {
            assert(xs.subrange(0, init.len() as int) == init);
            assert(held + init.push(xs.last()) == (held + init).push(xs.last()));
            assert(init.push(xs.last()) == xs);
        } else {
            assert(xs.subrange(0, room as int) == init.subrange(0, room as int));
        }
    }
}

} // verus!
