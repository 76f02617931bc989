//! Keeps the mini player's resting place. A drag records many places; one worker at a time writes
//! the newest one every so often, and the last one is never lost.
//!
//! Each method of [`Saver`] is one step that the app takes under a lock. A thread that records a
//! place then claims the worker's role, and starts a worker if it got it. A worker sleeps, takes the
//! place that is pending and writes it; where none is pending it releases its role, looks for a
//! place that came in meanwhile, and ends unless there is one and it gets the role back.
use vstd::prelude::*;

verus! {

/// How long a worker sleeps before it takes a place, in milliseconds.
pub const SAVE_PAUSE_MS: u64 = 400;

/// The newest place that is not written yet, and whether a worker writes places.
pub struct Saver<P> {
    pub pending: Option<P>,
    pub running: bool,
}

impl<P> Saver<P> {
    /// Nothing to write, and no worker.
    pub fn new() -> (r: Saver<P>)
        ensures
            r == (Saver::<P> { pending: None, running: false }),
    {
        Saver { pending: None, running: false }
    }

    /// Records a place. Only the newest one is kept.
    pub fn record(&mut self, place: P)
        ensures
            *final(self) == (Saver { pending: Some(place), running: old(self).running }),
    {
        self.pending = Some(place);
    }

    /// Claims the worker's role: `true` for the one who gets it.
    pub fn claim(&mut self) -> (r: bool)
        ensures
            r == !old(self).running,
            *final(self) == (Saver { pending: old(self).pending, running: true }),
    {
        let free: bool = !self.running;
        self.running = true;
        free
    }

    /// Takes the pending place for the worker to write.
    pub fn take(&mut self) -> (r: Option<P>)
        ensures
            r == old(self).pending,
            *final(self) == (Saver::<P> { pending: None, running: old(self).running }),
    {
        self.pending.take()
    }

    /// Gives the worker's role back.
    pub fn release(&mut self)
        ensures
            *final(self) == (Saver { pending: old(self).pending, running: false }),
    {
        self.running = false;
    }

    /// Whether a place came in that nobody may be about to write.
    pub fn straggler(&self) -> (r: bool)
        ensures
            r == (self.pending is Some),
    {
        self.pending.is_some()
    }
}

// ---------------------------------------------------------------------------
// Laws
// ---------------------------------------------------------------------------

/// All that takes part in keeping the place, between two steps.
pub struct World<P> {
    pub saver: Saver<P>,
    /// How many threads have recorded a place and not claimed the worker's role yet.
    pub recorders: nat,
    /// How many workers are about to take the pending place.
    pub takers: nat,
    /// The places that workers have taken and not written yet.
    pub writing: Seq<P>,
    /// How many workers found nothing pending and are about to give the role back.
    pub releasers: nat,
    /// How many workers gave the role back and are about to look for a straggler.
    pub checkers: nat,
    /// How many workers saw a straggler and are about to claim the role again.
    pub reclaimers: nat,
    /// The place recorded last.
    pub latest: Option<P>,
    /// The place written last.
    pub written: Option<P>,
}

/// A step that some thread takes. Threads take them in any order.
pub enum Step<P> {
    Record { place: P },
    Claim,
    Take,
    Write,
    Release,
    Check,
    Reclaim,
}

/// Whether some thread can take the step.
pub open spec fn enabled<P>(w: World<P>, step: Step<P>) -> bool {
    match step {
        Step::Record { .. } => true,
        Step::Claim => w.recorders > 0,
        Step::Take => w.takers > 0,
        Step::Write => w.writing.len() > 0,
        Step::Release => w.releasers > 0,
        Step::Check => w.checkers > 0,
        Step::Reclaim => w.reclaimers > 0,
    }
}

/// The world after a step, each of which does to the saver what the method of that name does.
pub open spec fn after<P>(w: World<P>, step: Step<P>) -> World<P> {
    match step {
        Step::Record { place } => World {
            saver: Saver { pending: Some(place), ..w.saver },
            recorders: w.recorders + 1,
            latest: Some(place),
            ..w
        },
        Step::Claim => World {
            saver: Saver { running: true, ..w.saver },
            recorders: (w.recorders - 1) as nat,
            takers: if w.saver.running {
                w.takers
            } else {
                w.takers + 1
            },
            ..w
        },
        Step::Take => World {
            saver: Saver { pending: None, ..w.saver },
            takers: (w.takers - 1) as nat,
            writing: match w.saver.pending {
                Some(p) => w.writing.push(p),
                None => w.writing,
            },
            releasers: if w.saver.pending is Some {
                w.releasers
            } else {
                w.releasers + 1
            },
            ..w
        },
        Step::Write => World {
            takers: w.takers + 1,
            writing: w.writing.skip(1),
            written: Some(w.writing[0]),
            ..w
        },
        Step::Release => World {
            saver: Saver { running: false, ..w.saver },
            releasers: (w.releasers - 1) as nat,
            checkers: w.checkers + 1,
            ..w
        },
        Step::Check => World {
            checkers: (w.checkers - 1) as nat,
            reclaimers: if w.saver.pending is Some {
                w.reclaimers + 1
            } else {
                w.reclaimers
            },
            ..w
        },
        Step::Reclaim => World {
            saver: Saver { running: true, ..w.saver },
            reclaimers: (w.reclaimers - 1) as nat,
            takers: if w.saver.running {
                w.takers
            } else {
                w.takers + 1
            },
            ..w
        },
    }
}

/// The world before anything happened.
pub open spec fn start<P>() -> World<P> {
    World {
        saver: Saver { pending: None, running: false },
        recorders: 0,
        takers: 0,
        writing: seq![],
        releasers: 0,
        checkers: 0,
        reclaimers: 0,
        latest: None,
        written: None,
    }
}

/// A history: steps that were all possible, from the start.
pub open spec fn possible<P>(steps: Seq<Step<P>>) -> bool
    decreases steps.len(),
{
    steps.len() > 0 ==> possible(steps.drop_last()) && enabled(
        reached(steps.drop_last()),
        steps.last(),
    )
}

/// The world after a history.
pub open spec fn reached<P>(steps: Seq<Step<P>>) -> World<P>
    decreases steps.len(),
{
    if steps.len() == 0 {
        start()
    } else {
        after(reached(steps.drop_last()), steps.last())
    }
}

/// Whether every thread has come to its end.
pub open spec fn settled<P>(w: World<P>) -> bool {
    w.recorders == 0 && w.takers == 0 && w.writing.len() == 0 && w.releasers == 0 && w.checkers == 0
        && w.reclaimers == 0
}

/// What every step keeps: one worker has the role if it is taken and none if it is not; a pending
/// place has a thread that will see to it; and the newest place is pending, or being written, or
/// written.
spec fn kept<P>(w: World<P>) -> bool {
    &&& w.takers + w.writing.len() + w.releasers == if w.saver.running {
        1nat
    } else {
        0
    }
    &&& w.saver.pending is Some ==> !settled(w)
    &&& w.latest == if w.saver.pending is Some {
        w.saver.pending
    } else if w.writing.len() > 0 {
        Some(w.writing[0])
    } else {
        w.written
    }
}

proof fn lemma_kept<P>(steps: Seq<Step<P>>)
    requires
        possible(steps),
    ensures
        kept(reached(steps)),
    decreases steps.len(),
{
    if steps.len() > 0 {
        lemma_kept(steps.drop_last());
    }
}

/// At any moment one worker at most takes and writes places, and there is one exactly while the
/// role is taken.
pub proof fn law_one_worker<P>(steps: Seq<Step<P>>)
    requires
        possible(steps),
    ensures
        reached(steps).takers + reached(steps).writing.len() + reached(steps).releasers == if reached(
            steps,
        ).saver.running {
            1nat
        } else {
            0
        },
{
    lemma_kept(steps);
}

/// The final resting place is never lost: in whatever order the threads took their steps, once all
/// have come to their end the place written last is the place recorded last, nothing is pending,
/// and the next record starts a worker.
pub proof fn law_last_place_written<P>(steps: Seq<Step<P>>)
    requires
        possible(steps),
        settled(reached(steps)),
    ensures
        reached(steps).written == reached(steps).latest,
        reached(steps).saver == (Saver::<P> { pending: None, running: false }),
{
    lemma_kept(steps);
}

/// A bound on the steps that the threads still take if no place is recorded any more. While a place
/// is pending, a worker that gave its role back may still have to claim it again.
pub open spec fn left<P>(w: World<P>) -> nat {
    if w.saver.pending is Some {
        6 * w.recorders + 5 * w.takers + 6 * w.writing.len() + 8 * w.releasers + 7 * w.checkers + 6
            * w.reclaimers
    } else {
        4 * w.recorders + 3 * w.takers + 4 * w.writing.len() + 2 * w.releasers + w.checkers + 4
            * w.reclaimers
    }
}

/// Whether a place is recorded in some of the steps.
pub open spec fn records<P>(steps: Seq<Step<P>>) -> bool {
    exists|i: int| 0 <= i < steps.len() && #[trigger] steps[i] is Record
}

/// The threads have all come to their end exactly where no thread can take a step but one that
/// records a place.
pub proof fn law_settled_is_still<P>(w: World<P>)
    ensures
        settled(w) <==> forall|step: Step<P>| #[trigger] enabled(w, step) ==> step is Record,
{
    if !settled(w) {
        if forall|step: Step<P>| #[trigger] enabled(w, step) ==> step is Record {
            assert(!enabled(w, Step::Claim));
            assert(!enabled(w, Step::Take));
            assert(!enabled(w, Step::Write));
            assert(!enabled(w, Step::Release));
            assert(!enabled(w, Step::Check));
            assert(!enabled(w, Step::Reclaim));
        }
    }
}

proof fn lemma_step_uses_up<P>(w: World<P>, step: Step<P>)
    requires
        enabled(w, step),
        !(step is Record),
    ensures
        left(after(w, step)) < left(w),
{
}

proof fn lemma_steps_use_up<P>(before: Seq<Step<P>>, more: Seq<Step<P>>)
    requires
        possible(before + more),
        !records(more),
    ensures
        more.len() + left(reached(before + more)) <= left(reached(before)),
    decreases more.len(),
{
    if more.len() == 0 {
        assert(before + more =~= before);
    } else {
        let front = more.drop_last();
        assert((before + more).drop_last() =~= before + front);
        assert forall|i: int| 0 <= i < front.len() implies !(#[trigger] front[i] is Record) by {
            assert(front[i] == more[i]);
        }
        lemma_steps_use_up(before, front);
        assert((before + more).last() == more[more.len() - 1]);
        lemma_step_uses_up(reached(before + front), more[more.len() - 1]);
    }
}

/// The threads do come to their end: once no place is recorded any more, they take only so many
/// steps, in whatever order, before no thread can take another.
pub proof fn law_threads_settle<P>(before: Seq<Step<P>>, more: Seq<Step<P>>)
    requires
        possible(before + more),
        !records(more),
    ensures
        more.len() <= left(reached(before)),
{
    lemma_steps_use_up(before, more);
}

} // verus!
