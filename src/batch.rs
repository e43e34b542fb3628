use vstd::prelude::*;

verus! {

/// What one package's job ended with: its identity, whether it succeeded, and the
/// text it produced on its two output streams.
#[derive(Debug)]
pub struct JobOutcome {
    pub name: String,
    pub version: String,
    pub success: bool,
    pub stdout: String,
    pub stderr: String,
}

/// Raised once, after every dispatched job has completed, when any of them failed.
/// It carries no per-package detail: that was logged as each outcome arrived.
#[derive(Clone, Copy, Debug, PartialEq, Eq, Structural)]
pub struct AggregateError;

/// Whether every outcome in `s` succeeded.
pub open spec fn all_succeeded(s: Seq<JobOutcome>) -> bool {
    forall|i: int| 0 <= i < s.len() ==> #[trigger] s[i].success
}

/// The abstract state of a batch: how many jobs were dispatched, and the outcomes
/// recorded so far, in order of completion.
pub ghost struct BatchView {
    pub dispatched: nat,
    pub outcomes: Seq<JobOutcome>,
}

impl BatchView {
    /// Recording an outcome appends it, whatever earlier outcomes were.
    pub open spec fn record(self, o: JobOutcome) -> BatchView {
        BatchView { dispatched: self.dispatched, outcomes: self.outcomes.push(o) }
    }

    pub open spec fn is_complete(self) -> bool {
        self.outcomes.len() == self.dispatched
    }
}

/// Records outcomes one after the other, in the order given.
pub open spec fn record_all(b: BatchView, s: Seq<JobOutcome>) -> BatchView
    decreases s.len(),
{
    if s.len() == 0 {
        b
    } else {
        record_all(b.record(s[0]), s.drop_first())
    }
}

/// Collects the outcomes of a set of dispatched jobs as they complete; also serves
/// as the progress counter (one step per completion) and reduces the outcomes to
/// one verdict.
pub struct Batch {
    dispatched: usize,
    outcomes: Vec<JobOutcome>,
    all_ok: bool,
}

impl View for Batch {
    type V = BatchView;

    closed spec fn view(&self) -> BatchView {
        BatchView { dispatched: self.dispatched as nat, outcomes: self.outcomes@ }
    }
}

impl Batch {
    pub closed spec fn wf(&self) -> bool {
        &&& self.outcomes@.len() <= self.dispatched
        &&& self.all_ok == all_succeeded(self.outcomes@)
    }

    /// A batch of `dispatched` jobs, none completed yet.
    pub fn new(dispatched: usize) -> (r: Batch)
        ensures
            r.wf(),
            r@.dispatched == dispatched,
            r@.outcomes == Seq::<JobOutcome>::empty(),
    {
        Batch { dispatched, outcomes: Vec::new(), all_ok: true }
    }

    /// Records the outcome of one completed job. A failure changes nothing for the
    /// jobs still running: they are recorded in the same way when they complete.
    pub fn record(&mut self, o: JobOutcome)
        requires
            old(self).wf(),
            old(self)@.outcomes.len() < old(self)@.dispatched,
        ensures
            final(self).wf(),
            final(self)@ == old(self)@.record(o),
    {
        let ok = o.success;
        self.outcomes.push(o);
        self.all_ok = self.all_ok && ok;
        assert(self.all_ok == all_succeeded(self.outcomes@)) by {
            if self.all_ok {
                assert forall|i: int| 0 <= i < self.outcomes@.len() implies #[trigger] self.outcomes@[i].success by {
                    if i < self.outcomes@.len() - 1 {
                        assert(old(self).outcomes@[i] == self.outcomes@[i]);
                    }
                }
            } else if !ok {
                assert(!self.outcomes@[self.outcomes@.len() - 1].success);
            } else {
                let i = choose|i: int| 0 <= i < old(self).outcomes@.len() && !#[trigger] old(self).outcomes@[i].success;
                assert(self.outcomes@[i] == old(self).outcomes@[i]);
            }
        }
    }

    /// The number of jobs dispatched.
    pub fn dispatched(&self) -> (r: usize)
        ensures
            r == self@.dispatched,
    {
        self.dispatched
    }

    /// The progress counter: how many jobs have completed.
    pub fn completed(&self) -> (r: usize)
        requires
            self.wf(),
        ensures
            r == self@.outcomes.len(),
    {
        self.outcomes.len()
    }

    /// Whether every dispatched job has completed.
    pub fn is_complete(&self) -> (r: bool)
        requires
            self.wf(),
        ensures
            r == self@.is_complete(),
    {
        self.outcomes.len() == self.dispatched
    }

    /// The outcomes recorded so far, in order of completion.
    pub fn outcomes(&self) -> (r: &Vec<JobOutcome>)
        ensures
            r@ == self@.outcomes,
    {
        &self.outcomes
    }

    /// Whether every outcome recorded so far succeeded.
    pub fn all_succeeded(&self) -> (r: bool)
        requires
            self.wf(),
        ensures
            r == all_succeeded(self@.outcomes),
    {
        self.all_ok
    }

    /// The verdict once every dispatched job has completed: the number of outcomes
    /// when all succeeded, else the aggregate error.
    pub fn finish(&self) -> (r: Result<usize, AggregateError>)
        requires
            self.wf(),
            self@.is_complete(),
        ensures
            r is Err <==> exists|i: int| 0 <= i < self@.outcomes.len() && !#[trigger] self@.outcomes[i].success,
            r matches Ok(n) ==> n == self@.dispatched,
    {
        if self.all_ok {
            Ok(self.dispatched)
        } else {
            Err(AggregateError)
        }
    }
}

/// Recording a sequence of outcomes appends all of them, in order, whatever any
/// of them was.
pub proof fn lemma_record_all(b: BatchView, s: Seq<JobOutcome>)
    ensures
        record_all(b, s) == (BatchView { dispatched: b.dispatched, outcomes: b.outcomes + s }),
    decreases s.len(),
{
    if s.len() == 0 {
        assert(b.outcomes + s =~= b.outcomes);
    } else {
        lemma_record_all(b.record(s[0]), s.drop_first());
        assert(b.outcomes.push(s[0]) + s.drop_first() =~= b.outcomes + s);
    }
}

/// No job is cancelled by an earlier failure: when the first of N completed jobs
/// failed, a batch of N still records all N outcomes, in order, and becomes
/// complete, and its verdict is a failure.
pub proof fn lemma_run_to_completion(s: Seq<JobOutcome>)
    requires
        s.len() >= 1,
        !s[0].success,
    ensures
        record_all(BatchView { dispatched: s.len(), outcomes: Seq::empty() }, s).outcomes == s,
        record_all(BatchView { dispatched: s.len(), outcomes: Seq::empty() }, s).is_complete(),
        !all_succeeded(record_all(BatchView { dispatched: s.len(), outcomes: Seq::empty() }, s).outcomes),
{
    let b = BatchView { dispatched: s.len(), outcomes: Seq::empty() };
    lemma_record_all(b, s);
    assert(b.outcomes + s =~= s);
}

/// Over a run in which every dispatched job completed, the verdict is a failure
/// exactly when at least one job's outcome was unsuccessful.
pub proof fn lemma_verdict(s: Seq<JobOutcome>)
    ensures
        record_all(BatchView { dispatched: s.len(), outcomes: Seq::empty() }, s).is_complete(),
        all_succeeded(record_all(BatchView { dispatched: s.len(), outcomes: Seq::empty() }, s).outcomes)
            <==> !exists|i: int| 0 <= i < s.len() && !#[trigger] s[i].success,
{
    let b = BatchView { dispatched: s.len(), outcomes: Seq::empty() };
    lemma_record_all(b, s);
    assert(b.outcomes + s =~= s);
}

} // verus!
