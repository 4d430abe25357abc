use vstd::prelude::*;

verus! {

/// Where one configured service stands in a run.
#[derive(Clone, Copy, Debug, PartialEq, Eq, Structural)]
pub enum ServiceOutcome {
    /// Its runner has not completed yet.
    Running,
    /// Its executable could not be launched.
    LaunchFailed,
    /// It was launched, has exited, and its output and exit were handled.
    Finished,
}

/// Whether a run is over: every service's runner has completed.
pub open spec fn all_done(s: Seq<ServiceOutcome>) -> bool {
    forall|i: int| 0 <= i < s.len() ==> s[i] != ServiceOutcome::Running
}

/// The outcome of each service of a run, by position in the configuration.
pub struct RunProgress {
    outcomes: Vec<ServiceOutcome>,
}

impl View for RunProgress {
    type V = Seq<ServiceOutcome>;

    closed spec fn view(&self) -> Seq<ServiceOutcome> {
        self.outcomes@
    }
}

impl RunProgress {
    /// A run of `n` services, none of which has completed.
    pub fn new(n: usize) -> (r: RunProgress)
        ensures
            r@ == Seq::new(n as nat, |i: int| ServiceOutcome::Running),
    {
        let mut outcomes: Vec<ServiceOutcome> = Vec::new();
        let mut i: usize = 0;
        while i < n
            invariant
                i <= n,
                outcomes@ == Seq::new(i as nat, |j: int| ServiceOutcome::Running),
            decreases n - i,
        {
            outcomes.push(ServiceOutcome::Running);
            i = i + 1;
            proof {
                assert(outcomes@ =~= Seq::new(i as nat, |j: int| ServiceOutcome::Running));
            }
        }
        RunProgress { outcomes }
    }

    pub fn len(&self) -> (r: usize)
        ensures
            r == self@.len(),
    {
        self.outcomes.len()
    }

    /// The outcome of the service at position `i`.
    pub fn outcome(&self, i: usize) -> (r: ServiceOutcome)
        requires
            i < self@.len(),
        ensures
            r == self@[i as int],
    {
        self.outcomes[i]
    }

    /// Records how the runner of the service at position `i` completed. No
    /// other service's outcome changes.
    pub fn record(&mut self, i: usize, outcome: ServiceOutcome)
        requires
            i < old(self)@.len(),
        ensures
            final(self)@ == old(self)@.update(i as int, outcome),
    {
        self.outcomes.set(i, outcome);
    }

    /// Whether the run is over.
    pub fn is_complete(&self) -> (r: bool)
        ensures
            r == all_done(self@),
    {
        let mut i: usize = 0;
        while i < self.outcomes.len()
            invariant
                i <= self.outcomes@.len(),
                forall|j: int| 0 <= j < i ==> self.outcomes@[j] != ServiceOutcome::Running,
            decreases self.outcomes.len() - i,
        {
            if self.outcomes[i] == ServiceOutcome::Running {
                return false;
            }
            i = i + 1;
        }
        true
    }
}

/// Recording a launch failure of one service leaves the recorded outcome of
/// every other service unchanged.
pub proof fn lemma_launch_failure_isolated(s: Seq<ServiceOutcome>, a: int, b: int)
    requires
        0 <= a < s.len(),
        0 <= b < s.len(),
        a != b,
    ensures
        s.update(a, ServiceOutcome::LaunchFailed)[b] == s[b],
{
}

/// A run is not over while any service is still running, whatever became of
/// the others: the exit of one service does not end it early.
pub proof fn lemma_not_done_while_running(s: Seq<ServiceOutcome>, i: int)
    requires
        0 <= i < s.len(),
        s[i] == ServiceOutcome::Running,
    ensures
        !all_done(s),
{
}

/// Once every service has been recorded, in any order and with any outcome,
/// the run is over.
pub proof fn lemma_done_after_all_recorded(n: nat, order: Seq<(int, ServiceOutcome)>)
    requires
        forall|i: int| 0 <= i < n ==> #[trigger] is_recorded(order, i),
        forall|k: int| 0 <= k < order.len() ==> 0 <= order[k].0 < n && order[k].1
            != ServiceOutcome::Running,
    ensures
        all_done(recorded(Seq::new(n, |i: int| ServiceOutcome::Running), order)),
{
    let s0 = Seq::new(n, |i: int| ServiceOutcome::Running);
    lemma_recorded_entries(s0, order);
    assert forall|i: int| 0 <= i < n implies recorded(s0, order)[i] != ServiceOutcome::Running by {
        assert(is_recorded(order, i));
        let k = choose|k: int| 0 <= k < order.len() && order[k].0 == i;
    }
}

/// Whether `order` records the service at position `i`.
pub open spec fn is_recorded(order: Seq<(int, ServiceOutcome)>, i: int) -> bool {
    exists|k: int| 0 <= k < order.len() && order[k].0 == i
}

/// Outcomes after recording each `(position, outcome)` of `order`, in order.
pub open spec fn recorded(s: Seq<ServiceOutcome>, order: Seq<(int, ServiceOutcome)>) -> Seq<ServiceOutcome>
    decreases order.len(),
{
    if order.len() == 0 {
        s
    } else {
        recorded(s, order.drop_last()).update(order.last().0, order.last().1)
    }
}

proof fn lemma_recorded_entries(s: Seq<ServiceOutcome>, order: Seq<(int, ServiceOutcome)>)
    requires
        forall|k: int| 0 <= k < order.len() ==> 0 <= order[k].0 < s.len() && order[k].1
            != ServiceOutcome::Running,
    ensures
        recorded(s, order).len() == s.len(),
        forall|i: int|
            0 <= i < s.len() ==> (recorded(s, order)[i] == s[i] || recorded(s, order)[i]
                != ServiceOutcome::Running),
        forall|k: int| 0 <= k < order.len() ==> recorded(s, order)[order[k].0]
            != ServiceOutcome::Running,
    decreases order.len(),
{
    if order.len() > 0 {
        let p = order.drop_last();
        lemma_recorded_entries(s, p);
        assert forall|k: int| 0 <= k < order.len() implies recorded(s, order)[order[k].0]
            != ServiceOutcome::Running by {
            if k < order.len() - 1 {
                assert(p[k] == order[k]);
            }
        }
    }
}

} // verus!
