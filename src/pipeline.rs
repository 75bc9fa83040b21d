//! Decisions of the pipeline supervisor: which stage workers to restart,
//! which pipeline takes the next connection, and when the file worker may
//! start another read.
use vstd::prelude::*;

verus! {

/// The four stages of a pipeline, in data-flow order.
#[derive(Debug, Clone, Copy, PartialEq, Eq, Structural)]
pub enum Stage {
    Parser,
    Action,
    Compression,
    Sender,
}

/// Whether the worker of each stage of one pipeline is still running.
#[derive(Debug, Clone, Copy, PartialEq, Eq, Structural)]
pub struct PipelineHealth {
    pub parser: bool,
    pub action: bool,
    pub compression: bool,
    pub sender: bool,
}

impl PipelineHealth {
    /// Whether the worker of stage `s` is running.
    pub open spec fn alive(self, s: Stage) -> bool {
        match s {
            Stage::Parser => self.parser,
            Stage::Action => self.action,
            Stage::Compression => self.compression,
            Stage::Sender => self.sender,
        }
    }

    /// A pipeline is healthy when all four workers run.
    pub open spec fn healthy(self) -> bool {
        self.parser && self.action && self.compression && self.sender
    }

    /// The health after the worker of stage `s` was started again.
    pub open spec fn restarted(self, s: Stage) -> PipelineHealth {
        match s {
            Stage::Parser => PipelineHealth { parser: true, ..self },
            Stage::Action => PipelineHealth { action: true, ..self },
            Stage::Compression => PipelineHealth { compression: true, ..self },
            Stage::Sender => PipelineHealth { sender: true, ..self },
        }
    }

    /// Whether all four workers run.
    pub fn pipeline_state(&self) -> (r: bool)
        ensures
            r == self.healthy(),
    {
        self.parser && self.action && self.compression && self.sender
    }
}

/// The stages to restart, back to front (sender first), as pipelines are
/// built: exactly the stages whose worker stopped.
pub open spec fn plan_of(h: PipelineHealth) -> Seq<Stage> {
    let s1: Seq<Stage> = if h.sender { Seq::empty() } else { seq![Stage::Sender] };
    let s2 = if h.compression { s1 } else { s1.push(Stage::Compression) };
    let s3 = if h.action { s2 } else { s2.push(Stage::Action) };
    if h.parser { s3 } else { s3.push(Stage::Parser) }
}

/// The health after restarting each stage of `plan` in turn.
pub open spec fn after_restarts(h: PipelineHealth, plan: Seq<Stage>) -> PipelineHealth
    decreases plan.len(),
{
    if plan.len() == 0 {
        h
    } else {
        after_restarts(h, plan.drop_last()).restarted(plan.last())
    }
}

/// The stages of `h` whose worker stopped, sender first.
pub fn recovery_plan(h: &PipelineHealth) -> (r: Vec<Stage>)
    ensures
        r@ == plan_of(*h),
{
    let mut plan: Vec<Stage> = Vec::new();
    if !h.sender {
        plan.push(Stage::Sender);
    }
    if !h.compression {
        plan.push(Stage::Compression);
    }
    if !h.action {
        plan.push(Stage::Action);
    }
    if !h.parser {
        plan.push(Stage::Parser);
    }
    assert(plan@ =~= plan_of(*h));
    plan
}

/// A restart keeps running workers running and starts the planned ones.
proof fn lemma_after_restarts(h: PipelineHealth, plan: Seq<Stage>, s: Stage)
    ensures
        (h.alive(s) || plan.contains(s)) ==> after_restarts(h, plan).alive(s),
    decreases plan.len(),
{
    if plan.len() > 0 {
        lemma_after_restarts(h, plan.drop_last(), s);
        if plan.contains(s) && plan.last() != s {
            let k = choose|k: int| 0 <= k < plan.len() && plan[k] == s;
            assert(plan.drop_last()[k] == s);
        }
    }
}

/// Recovery restores health: the plan names exactly the stopped stages,
/// restarting them leaves every worker running, and a healthy pipeline has
/// nothing to restart.
pub proof fn lemma_recovery_restores(h: PipelineHealth)
    ensures
        forall|s: Stage| plan_of(h).contains(s) <==> !h.alive(s),
        after_restarts(h, plan_of(h)).healthy(),
        h.healthy() ==> plan_of(h).len() == 0,
{
    let s1: Seq<Stage> = if h.sender { Seq::empty() } else { seq![Stage::Sender] };
    let s2 = if h.compression { s1 } else { s1.push(Stage::Compression) };
    let s3 = if h.action { s2 } else { s2.push(Stage::Action) };
    let p = plan_of(h);
    assert forall|s: Stage| p.contains(s) <==> !h.alive(s) by {
        if p.contains(s) {
            let k = choose|k: int| 0 <= k < p.len() && p[k] == s;
        }
        if !h.alive(s) {
            match s {
                Stage::Sender => assert(p[0] == s),
                Stage::Compression => assert(s2[s2.len() - 1] == s && p[s2.len() - 1] == s),
                Stage::Action => assert(s3[s3.len() - 1] == s && p[s3.len() - 1] == s),
                Stage::Parser => assert(p[p.len() - 1] == s),
            }
        }
    }
    lemma_after_restarts(h, p, Stage::Parser);
    lemma_after_restarts(h, p, Stage::Action);
    lemma_after_restarts(h, p, Stage::Compression);
    lemma_after_restarts(h, p, Stage::Sender);
}

/// Whether a worker should be swapped for a new one: only a worker that
/// has stopped is replaced.
pub fn should_swap(alive: bool) -> (r: bool)
    ensures
        r == !alive,
{
    !alive
}

/// The pipeline that takes the next connection after pipeline `i`, round
/// robin over `n` pipelines.
pub fn next_pipeline(i: usize, n: usize) -> (r: usize)
    requires
        i < n,
    ensures
        r == (i as int + 1) % (n as int),
{
    if i + 1 == n {
        assert((i as int + 1) % (n as int) == 0) by (nonlinear_arith)
            requires i as int + 1 == n as int, n > 0;
        0
    } else {
        assert((i as int + 1) % (n as int) == i as int + 1) by (nonlinear_arith)
            requires i as int + 1 < n as int, 0 <= i;
        i + 1
    }
}

/// The pipeline that takes the `k`-th accepted connection when the index
/// starts at 0 and moves on before each connection.
pub open spec fn index_after(n: int, k: nat) -> int
    decreases k,
{
    if k == 0 {
        0
    } else {
        (index_after(n, (k - 1) as nat) + 1) % n
    }
}

/// Round robin over `n` pipelines hands the `k`-th connection to pipeline
/// `k mod n`: each connection goes to exactly one pipeline, and every
/// pipeline takes its turn.
pub proof fn lemma_round_robin(n: int, k: nat)
    requires
        n > 0,
    ensures
        index_after(n, k) == k as int % n,
        0 <= index_after(n, k) < n,
    decreases k,
{
    if k > 0 {
        lemma_round_robin(n, (k - 1) as nat);
        vstd::arithmetic::div_mod::lemma_add_mod_noop((k - 1) as int, 1, n);
        vstd::arithmetic::div_mod::lemma_mod_twice((k - 1) as int, n);
        if n == 1 {
            assert(1int % 1 == 0);
        } else {
            vstd::arithmetic::div_mod::lemma_small_mod(1, n as nat);
        }
    }
    vstd::arithmetic::div_mod::lemma_mod_bound(k as int, n);
}

/// Whether the file worker may start another read with `in_flight` reads
/// running, under the cap `max_reads` (0: no cap).
pub fn read_slot_free(max_reads: usize, in_flight: usize) -> (r: bool)
    ensures
        r == (max_reads == 0 || in_flight < max_reads),
{
    max_reads == 0 || in_flight < max_reads
}

} // verus!
