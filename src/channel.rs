use vstd::prelude::*;

verus! {

/// How many frames may wait between the analyzer and the consumer.
pub const FRAME_BACKLOG: usize = 10;

/// A bounded, ordered queue of frames between one producer and one consumer,
/// read with a latest-wins policy: a poll hands out only the newest pending
/// frame and discards all the others.
pub struct FrameChannel<T> {
    pending: Vec<T>,
    bound: usize,
    closed: bool,
}

/// Why a frame was not published; the frame is handed back.
#[derive(Debug, PartialEq, Eq)]
pub enum PublishError<T> {
    /// The backlog is full: the consumer has not caught up yet.
    Full(T),
    /// The consumer has gone: nothing will read the frame.
    Closed(T),
}

/// What a poll of a channel holding `pending` returns: the newest frame, if any.
pub open spec fn latest_of<T>(pending: Seq<T>) -> Option<T> {
    if pending.len() == 0 {
        None
    } else {
        Some(pending.last())
    }
}

/// The pending frames after publishing `frames` in order onto `pending`, with
/// room for `bound`: a frame that finds the channel full is refused.
pub open spec fn published<T>(pending: Seq<T>, bound: nat, frames: Seq<T>) -> Seq<T>
    decreases frames.len(),
{
    if frames.len() == 0 {
        pending
    } else {
        let before = published(pending, bound, frames.drop_last());
        if before.len() < bound {
            before.push(frames.last())
        } else {
            before
        }
    }
}

impl<T> FrameChannel<T> {
    /// The frames waiting to be read, oldest first.
    pub closed spec fn view(&self) -> Seq<T> {
        self.pending@
    }

    /// How many frames may wait at once.
    pub closed spec fn bound(&self) -> nat {
        self.bound as nat
    }

    /// Whether the consumer has gone.
    pub closed spec fn is_closed_spec(&self) -> bool {
        self.closed
    }

    /// The backlog is within its bound, and the bound is not zero.
    pub open spec fn wf(&self) -> bool {
        &&& self.bound() > 0
        &&& self.view().len() <= self.bound()
    }

    /// An empty channel on which up to `bound` frames may wait.
    pub fn new(bound: usize) -> (r: FrameChannel<T>)
        requires
            bound > 0,
        ensures
            r.wf(),
            r.view() == Seq::<T>::empty(),
            r.bound() == bound as nat,
            !r.is_closed_spec(),
    {
        FrameChannel { pending: Vec::new(), bound, closed: false }
    }

    /// Marks that the consumer has gone: every later publish fails with
    /// `Closed`, which is the signal for the producer to stop.
    pub fn close(&mut self)
        requires
            old(self).wf(),
        ensures
            final(self).wf(),
            final(self).is_closed_spec(),
            final(self).view() == old(self).view(),
            final(self).bound() == old(self).bound(),
    {
        self.closed = true;
    }

    /// Whether the consumer has gone.
    pub fn is_closed(&self) -> (b: bool)
        ensures
            b == self.is_closed_spec(),
    {
        self.closed
    }

    /// The number of frames waiting.
    pub fn len(&self) -> (n: usize)
        ensures
            n as nat == self.view().len(),
    {
        self.pending.len()
    }

    /// Publishes a frame behind those already waiting.  Once the consumer has
    /// gone the frame is handed back as `Closed`; when the backlog is full it is
    /// handed back as `Full`, so that the producer can wait and try again.
    /// Either way nothing changes.
    pub fn publish(&mut self, frame: T) -> (r: Result<(), PublishError<T>>)
        requires
            old(self).wf(),
        ensures
            final(self).wf(),
            final(self).bound() == old(self).bound(),
            final(self).is_closed_spec() == old(self).is_closed_spec(),
            old(self).is_closed_spec() ==> r == Err::<(), PublishError<T>>(PublishError::Closed(frame))
                && final(self).view() == old(self).view(),
            !old(self).is_closed_spec() && old(self).view().len() < old(self).bound() ==> r.is_ok()
                && final(self).view() == old(self).view().push(frame),
            !old(self).is_closed_spec() && old(self).view().len() >= old(self).bound() ==> r == Err::<
                (),
                PublishError<T>,
            >(PublishError::Full(frame)) && final(self).view() == old(self).view(),
    {
        if self.closed {
            Err(PublishError::Closed(frame))
        } else if self.pending.len() < self.bound {
            self.pending.push(frame);
            Ok(())
        } else {
            Err(PublishError::Full(frame))
        }
    }

    /// Drains every pending frame and returns the newest, or `None` when
    /// nothing was published since the previous poll.  Never blocks.
    pub fn poll_latest(&mut self) -> (r: Option<T>)
        requires
            old(self).wf(),
        ensures
            final(self).wf(),
            final(self).bound() == old(self).bound(),
            final(self).is_closed_spec() == old(self).is_closed_spec(),
            r == latest_of(old(self).view()),
            final(self).view() == Seq::<T>::empty(),
    {
        let r = self.pending.pop();
        self.pending.clear();
        r
    }
}

/// Latest wins: after frames are published onto an empty channel with no poll
/// between them, and no more of them than the channel holds, one poll returns
/// the last of them, and a second poll with nothing published in between
/// returns nothing.
pub proof fn lemma_latest_wins<T>(frames: Seq<T>, bound: nat)
    requires
        0 < frames.len() <= bound,
    ensures
        published(Seq::<T>::empty(), bound, frames) == frames,
        latest_of(published(Seq::<T>::empty(), bound, frames)) == Some(frames.last()),
        latest_of(Seq::<T>::empty()) == None::<T>,
{
    lemma_published_fits(frames, bound);
}

/// Publishing at most `bound` frames onto an empty channel refuses none.
proof fn lemma_published_fits<T>(frames: Seq<T>, bound: nat)
    requires
        frames.len() <= bound,
    ensures
        published(Seq::<T>::empty(), bound, frames) == frames,
    decreases frames.len(),
{
    if frames.len() > 0 {
        lemma_published_fits(frames.drop_last(), bound);
        assert(frames.drop_last().push(frames.last()) == frames);
    }
}

} // verus!
