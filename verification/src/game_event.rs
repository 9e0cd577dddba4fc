use vstd::prelude::*;

use crate::graph::Edge;
use crate::graph::Graph;
use crate::graph::weight_in;

verus! {

/// A boolean predicate evaluated once per firing attempt. Implementations may
/// carry internal state (the receiver is mutable); the default implementation
/// never fires.
pub trait Trigger {
    fn should_fire(&mut self) -> (fire: bool)
        default_ensures
            !fire,
    {
        false
    }
}

/// A side-effecting action invoked once per successful firing. The default
/// implementation does nothing; that it leaves the receiver unchanged cannot
/// be written down for a dyn-compatible trait, whose receiver type has no
/// `Sized` bound.
pub trait Resolver {
    fn resolve(&mut self) {
    }
}

/// A stochastic counter: the number of occurrences within an interval `dt` at
/// intensity `rate`. The scheduler only distinguishes zero from non-zero.
pub trait PoissonSampler {
    fn sample(&mut self, dt: u64, rate: i64) -> u64;
}

/// Whether a proximity trigger fires: a node pair must be configured and the
/// owned snapshot must hold a weight for it.
pub open spec fn proximity_fires<T>(edges: Seq<Edge<T>>, pair: Option<(usize, usize)>) -> bool {
    match pair {
        Some((a, b)) => weight_in(edges, a, b).is_some(),
        None => false,
    }
}

/// A trigger that fires when two fixed nodes have a stored edge in an owned
/// adjacency snapshot. The snapshot is moved in at construction, so later
/// changes to other graph values never affect an existing trigger.
pub struct Proximity<T> {
    graph: Graph<T>,
    pair: Option<(usize, usize)>,
}

impl<T> Proximity<T> {
    /// The recorded edges of the owned snapshot.
    pub closed spec fn edges(self) -> Seq<Edge<T>> {
        self.graph@
    }

    /// The configured node pair, if one was set.
    pub closed spec fn pair(self) -> Option<(usize, usize)> {
        self.pair
    }

    /// A proximity trigger over `graph` with no pair configured yet; without a
    /// pair it never fires.
    pub fn new(graph: Graph<T>) -> (p: Self)
        ensures
            p.edges() == graph@,
            p.pair().is_none(),
    {
        Proximity { graph, pair: None }
    }

    /// The same trigger watching the pair `(a, b)`; a later call overwrites an
    /// earlier pair.
    pub fn with_pair(self, a: usize, b: usize) -> (p: Self)
        ensures
            p.edges() == self.edges(),
            p.pair() == Some((a, b)),
    {
        Proximity { pair: Some((a, b)), ..self }
    }
}

impl<T> Trigger for Proximity<T> {
    fn should_fire(&mut self) -> (r: bool)
        ensures
            r == proximity_fires(old(self).edges(), old(self).pair()),
            final(self).edges() == old(self).edges(),
            final(self).pair() == old(self).pair(),
    {
        match self.pair {
            Some((a, b)) => self.graph.weight(a, b).is_some(),
            None => false,
        }
    }
}

/// Law: a proximity trigger whose configured pair just had an edge recorded
/// in its snapshot fires, whatever was in the snapshot before.
pub proof fn lemma_proximity_fires_after_add<T>(edges: Seq<Edge<T>>, a: usize, b: usize, w: T)
    ensures
        proximity_fires(edges.push((a, b, w)), Some((a, b))),
{
    crate::graph::lemma_add_edge_weight(edges, a, b, w);
}

/// All verdicts in an ordered sequence of trigger verdicts are positive.
pub open spec fn all_fired(verdicts: Seq<bool>) -> bool {
    forall|i: int| 0 <= i < verdicts.len() ==> verdicts[i]
}

/// The firing decision of one attempt, over the verdicts the registered
/// triggers returned in registration order: the resolvers run iff there is at
/// least one trigger, at least one resolver, and every verdict is positive.
pub open spec fn fire_decision(verdicts: Seq<bool>, n_resolvers: nat) -> bool {
    verdicts.len() > 0 && n_resolvers > 0 && all_fired(verdicts)
}

/// The firing decision as executable code: `run_once` applies it to the
/// verdicts it collected from the triggers.
pub fn decide_fire(verdicts: &Vec<bool>, n_resolvers: usize) -> (fire: bool)
    ensures
        fire == fire_decision(verdicts@, n_resolvers as nat),
{
    if verdicts.len() == 0 || n_resolvers == 0 {
        return false;
    }
    let n = verdicts.len();
    let mut i: usize = 0;
    while i < n
        invariant
            n == verdicts@.len(),
            i <= n,
            forall|j: int| 0 <= j < i ==> verdicts@[j],
        decreases n - i,
    {
        if !verdicts[i] {
            return false;
        }
        i = i + 1;
    }
    true
}

/// The stochastic gate's decision over a sampled count, as executable code:
/// a count of zero rejects the tick, at least one occurrence lets it
/// delegate to `run_once`. `tick` applies it to what the sampler returned.
pub fn decide_sample(k: u64) -> (proceed: bool)
    ensures
        proceed == (k != 0),
{
    k != 0
}

/// A tick-driven event scheduler: an ordered list of triggers, an ordered
/// list of resolvers, and at most one active gate (frequency accumulation or
/// stochastic sampling). Assembled through the fluent `with_*` surface, then
/// driven by `tick`/`run_once`.
pub struct GameEventSys {
    triggers: Vec<Box<dyn Trigger>>,
    resolvers: Vec<Box<dyn Resolver>>,
    freq: Option<u64>,
    elapsed: u64,
    poisson_rate: Option<i64>,
    poisson_sampler: Option<Box<dyn PoissonSampler>>,
    fired_count: Ghost<nat>,
}

impl GameEventSys {
    /// The registered triggers, in registration — and so evaluation — order.
    pub closed spec fn triggers(self) -> Seq<Box<dyn Trigger>> {
        self.triggers@
    }

    /// The registered resolvers, in registration — and so execution — order.
    pub closed spec fn resolvers(self) -> Seq<Box<dyn Resolver>> {
        self.resolvers@
    }

    /// How many triggers are registered.
    pub open spec fn num_triggers(self) -> nat {
        self.triggers().len()
    }

    /// How many resolvers are registered.
    pub open spec fn num_resolvers(self) -> nat {
        self.resolvers().len()
    }

    /// The frequency gate's threshold, if one was configured.
    pub closed spec fn freq_threshold(self) -> Option<u64> {
        self.freq
    }

    /// The frequency gate's accumulated elapsed time.
    pub closed spec fn elapsed(self) -> u64 {
        self.elapsed
    }

    /// The stochastic gate's rate, if one was configured.
    pub closed spec fn poisson_rate(self) -> Option<i64> {
        self.poisson_rate
    }

    /// Whether a stochastic sampler was configured.
    pub closed spec fn has_sampler(self) -> bool {
        self.poisson_sampler is Some
    }

    /// How many firings — all-or-nothing resolver fan-outs — have happened
    /// over this scheduler's whole life (a history variable, not stored at
    /// run time).
    pub closed spec fn fire_count(self) -> nat {
        self.fired_count@
    }
}

/// The configuration of `b` — list sizes and gate settings, everything but
/// the accumulator — is that of `a`.
pub open spec fn same_config(a: GameEventSys, b: GameEventSys) -> bool {
    &&& b.num_triggers() == a.num_triggers()
    &&& b.num_resolvers() == a.num_resolvers()
    &&& b.freq_threshold() == a.freq_threshold()
    &&& b.poisson_rate() == a.poisson_rate()
    &&& b.has_sampler() == a.has_sampler()
}

/// A configured non-positive rate: the stochastic gate permanently rejects
/// every tick on this path.
pub open spec fn poisson_disabled(s: GameEventSys) -> bool {
    s.poisson_rate() matches Some(r) && r <= 0
}

/// A positive rate together with a sampler: the stochastic gate decides the
/// tick and the frequency gate is never consulted.
pub open spec fn poisson_sampled(s: GameEventSys) -> bool {
    s.poisson_rate() matches Some(r) && r > 0 && s.has_sampler()
}

/// The stochastic gate settles the tick by itself, so the frequency gate's
/// accumulator is never touched.
pub open spec fn poisson_settles(s: GameEventSys) -> bool {
    poisson_disabled(s) || poisson_sampled(s)
}

impl GameEventSys {
    /// An empty scheduler: no triggers, no resolvers, no gates, accumulator at
    /// zero.
    pub fn new() -> (s: Self)
        ensures
            s.num_triggers() == 0,
            s.num_resolvers() == 0,
            s.freq_threshold().is_none(),
            s.elapsed() == 0,
            s.poisson_rate().is_none(),
            !s.has_sampler(),
            s.fire_count() == 0,
    {
        GameEventSys {
            triggers: Vec::new(),
            resolvers: Vec::new(),
            freq: None,
            elapsed: 0,
            poisson_rate: None,
            poisson_sampler: None,
            fired_count: Ghost(0),
        }
    }

    /// Append a trigger; triggers are evaluated in registration order.
    pub fn with_trigger<T: Trigger + 'static>(self, trigger: T) -> (s: Self)
        ensures
            s.num_triggers() == self.num_triggers() + 1,
            s.num_resolvers() == self.num_resolvers(),
            s.freq_threshold() == self.freq_threshold(),
            s.elapsed() == self.elapsed(),
            s.poisson_rate() == self.poisson_rate(),
            s.has_sampler() == self.has_sampler(),
            s.fire_count() == self.fire_count(),
            s.triggers().drop_last() == self.triggers(),
            s.resolvers() == self.resolvers(),
    {
        let mut s = self;
        let boxed: Box<dyn Trigger> = Box::new(trigger);
        let ghost before = s.triggers@;
        let ghost pushed = boxed;
        s.triggers.push(boxed);
        proof {
            vstd::seq::axiom_seq_push_len::<Box<dyn Trigger>>(before, pushed);
            vstd::seq::axiom_seq_subrange_len::<Box<dyn Trigger>>(s.triggers@, 0, before.len() as int);
            assert forall|i: int| 0 <= i < before.len() implies s.triggers@.drop_last()[i]
                == before[i] by {
                vstd::seq::axiom_seq_push_index_different::<Box<dyn Trigger>>(before, pushed, i);
                vstd::seq::axiom_seq_subrange_index::<Box<dyn Trigger>>(
                    s.triggers@,
                    0,
                    before.len() as int,
                    i,
                );
            }
            assert(s.triggers@.drop_last() =~= before);
        }
        s
    }

    /// Append a resolver; resolvers run in registration order.
    pub fn with_resolver<R: Resolver + 'static>(self, resolver: R) -> (s: Self)
        ensures
            s.num_resolvers() == self.num_resolvers() + 1,
            s.num_triggers() == self.num_triggers(),
            s.freq_threshold() == self.freq_threshold(),
            s.elapsed() == self.elapsed(),
            s.poisson_rate() == self.poisson_rate(),
            s.has_sampler() == self.has_sampler(),
            s.fire_count() == self.fire_count(),
            s.resolvers().drop_last() == self.resolvers(),
            s.triggers() == self.triggers(),
    {
        let mut s = self;
        let boxed: Box<dyn Resolver> = Box::new(resolver);
        let ghost before = s.resolvers@;
        let ghost pushed = boxed;
        s.resolvers.push(boxed);
        proof {
            vstd::seq::axiom_seq_push_len::<Box<dyn Resolver>>(before, pushed);
            vstd::seq::axiom_seq_subrange_len::<Box<dyn Resolver>>(s.resolvers@, 0, before.len() as int);
            assert forall|i: int| 0 <= i < before.len() implies s.resolvers@.drop_last()[i]
                == before[i] by {
                vstd::seq::axiom_seq_push_index_different::<Box<dyn Resolver>>(before, pushed, i);
                vstd::seq::axiom_seq_subrange_index::<Box<dyn Resolver>>(
                    s.resolvers@,
                    0,
                    before.len() as int,
                    i,
                );
            }
            assert(s.resolvers@.drop_last() =~= before);
        }
        s
    }

    /// Configure the frequency gate's threshold; a later call overwrites an
    /// earlier one.
    pub fn with_freq(self, freq: u64) -> (s: Self)
        ensures
            s.freq_threshold() == Some(freq),
            s.num_triggers() == self.num_triggers(),
            s.num_resolvers() == self.num_resolvers(),
            s.elapsed() == self.elapsed(),
            s.poisson_rate() == self.poisson_rate(),
            s.has_sampler() == self.has_sampler(),
            s.fire_count() == self.fire_count(),
            s.triggers() == self.triggers(),
            s.resolvers() == self.resolvers(),
    {
        let mut s = self;
        s.freq = Some(freq);
        s
    }

    /// Configure the stochastic gate's rate; a later call overwrites an
    /// earlier one. A non-positive rate disables firing through `tick`.
    pub fn with_poisson_rate(self, rate: i64) -> (s: Self)
        ensures
            s.poisson_rate() == Some(rate),
            s.num_triggers() == self.num_triggers(),
            s.num_resolvers() == self.num_resolvers(),
            s.freq_threshold() == self.freq_threshold(),
            s.elapsed() == self.elapsed(),
            s.has_sampler() == self.has_sampler(),
            s.fire_count() == self.fire_count(),
            s.triggers() == self.triggers(),
            s.resolvers() == self.resolvers(),
    {
        let mut s = self;
        s.poisson_rate = Some(rate);
        s
    }

    /// Configure the stochastic gate's sampler; a later call overwrites an
    /// earlier one.
    pub fn with_poisson_sampler<S: PoissonSampler + 'static>(self, sampler: S) -> (s: Self)
        ensures
            s.has_sampler(),
            s.num_triggers() == self.num_triggers(),
            s.num_resolvers() == self.num_resolvers(),
            s.freq_threshold() == self.freq_threshold(),
            s.elapsed() == self.elapsed(),
            s.poisson_rate() == self.poisson_rate(),
            s.fire_count() == self.fire_count(),
            s.triggers() == self.triggers(),
            s.resolvers() == self.resolvers(),
    {
        let mut s = self;
        let boxed: Box<dyn PoissonSampler> = Box::new(sampler);
        s.poisson_sampler = Some(boxed);
        s
    }

    /// Collect every registered trigger's verdict, in registration order.
    fn poll_triggers(&mut self) -> (verdicts: Vec<bool>)
        ensures
            verdicts@.len() == old(self).num_triggers(),
            same_config(*old(self), *final(self)),
            final(self).elapsed() == old(self).elapsed(),
            final(self).fire_count() == old(self).fire_count(),
            final(self).resolvers() == old(self).resolvers(),
    {
        let n = self.triggers.len();
        let mut verdicts: Vec<bool> = Vec::new();
        let mut i: usize = 0;
        while i < n
            invariant
                n == self.triggers@.len(),
                self.triggers@.len() == old(self).triggers@.len(),
                self.resolvers@ == old(self).resolvers@,
                self.freq == old(self).freq,
                self.elapsed == old(self).elapsed,
                self.poisson_rate == old(self).poisson_rate,
                self.poisson_sampler == old(self).poisson_sampler,
                self.fired_count == old(self).fired_count,
                verdicts@.len() == i,
                i <= n,
            decreases n - i,
        {
            let v = self.triggers[i].should_fire();
            verdicts.push(v);
            i = i + 1;
        }
        verdicts
    }

    /// Run every registered resolver exactly once, in registration order.
    fn run_resolvers(&mut self)
        ensures
            same_config(*old(self), *final(self)),
            final(self).elapsed() == old(self).elapsed(),
            final(self).fire_count() == old(self).fire_count(),
            final(self).triggers() == old(self).triggers(),
    {
        let n = self.resolvers.len();
        let mut i: usize = 0;
        while i < n
            invariant
                n == self.resolvers@.len(),
                self.resolvers@.len() == old(self).resolvers@.len(),
                self.triggers@ == old(self).triggers@,
                self.freq == old(self).freq,
                self.elapsed == old(self).elapsed,
                self.poisson_rate == old(self).poisson_rate,
                self.poisson_sampler == old(self).poisson_sampler,
                self.fired_count == old(self).fired_count,
                i <= n,
            decreases n - i,
        {
            self.resolvers[i].resolve();
            i = i + 1;
        }
    }

    /// One ungated firing attempt: with a non-empty trigger list and a
    /// non-empty resolver list, evaluate every trigger in registration order
    /// and, iff every verdict is positive (`fire_decision`), run every
    /// resolver once in registration order; the result says whether the
    /// resolvers ran. Empty lists are rejected before any trigger is
    /// evaluated. The gates and the accumulator are never touched.
    pub fn run_once(&mut self) -> (fired: bool)
        ensures
            same_config(*old(self), *final(self)),
            final(self).elapsed() == old(self).elapsed(),
            old(self).num_triggers() == 0 || old(self).num_resolvers() == 0 ==> !fired,
            fired ==> old(self).num_triggers() > 0 && old(self).num_resolvers() > 0,
            fired ==> final(self).fire_count() == old(self).fire_count() + 1,
            !fired ==> final(self).fire_count() == old(self).fire_count(),
            old(self).num_triggers() == 0 || old(self).num_resolvers() == 0 ==> final(self).triggers() == old(self).triggers(),
            !fired ==> final(self).resolvers() == old(self).resolvers(),
    {
        if self.triggers.len() == 0 || self.resolvers.len() == 0 {
            return false;
        }
        let verdicts = self.poll_triggers();
        let fire = decide_fire(&verdicts, self.resolvers.len());
        if fire {
            self.run_resolvers();
            proof {
                self.fired_count@ = self.fired_count@ + 1;
            }
        }
        fire
    }

    /// Call the configured sampler.
    fn sample_poisson(&mut self, dt: u64, rate: i64) -> (k: u64)
        requires
            old(self).has_sampler(),
        ensures
            same_config(*old(self), *final(self)),
            final(self).elapsed() == old(self).elapsed(),
            final(self).fire_count() == old(self).fire_count(),
            final(self).triggers() == old(self).triggers(),
            final(self).resolvers() == old(self).resolvers(),
    {
        match &mut self.poisson_sampler {
            Some(sampler) => sampler.sample(dt, rate),
            None => 0,
        }
    }

    /// One gated time step of `dt`, with the gates consulted in fixed
    /// precedence order. A configured non-positive rate rejects the tick
    /// outright. A positive rate with a sampler lets the sampler decide: a
    /// zero count rejects the tick with no state change, a positive count
    /// delegates to `run_once` — at most one firing per tick, whatever the
    /// count. Otherwise a configured frequency threshold accumulates `dt`:
    /// below the threshold the tick is rejected and the partial sum is kept;
    /// at or above it the accumulator resets to zero before `run_once`
    /// decides, and the reset stands even if a trigger then fails. With no
    /// gate configured every tick delegates to `run_once`.
    pub fn tick(&mut self, dt: u64) -> (fired: bool)
        ensures
            same_config(*old(self), *final(self)),
            poisson_disabled(*old(self)) ==> !fired && final(self).elapsed() == old(self).elapsed(),
            poisson_sampled(*old(self)) ==> final(self).elapsed() == old(self).elapsed(),
            old(self).freq_threshold() matches Some(f) ==> {
                &&& (!poisson_settles(*old(self)) && old(self).elapsed() + dt < f ==> !fired
                    && final(self).elapsed() == old(self).elapsed() + dt
                    && final(self).triggers() == old(self).triggers()
                    && final(self).resolvers() == old(self).resolvers())
                &&& (!poisson_settles(*old(self)) && old(self).elapsed() + dt >= f ==> final(self).elapsed() == 0)
            },
            !poisson_settles(*old(self)) && old(self).freq_threshold() is None ==> final(self).elapsed() == old(self).elapsed(),
            old(self).num_triggers() == 0 || old(self).num_resolvers() == 0 ==> !fired,
            fired ==> old(self).num_triggers() > 0 && old(self).num_resolvers() > 0,
            fired ==> final(self).fire_count() == old(self).fire_count() + 1,
            !fired ==> final(self).fire_count() == old(self).fire_count(),
            poisson_disabled(*old(self)) ==> final(self).triggers() == old(self).triggers()
                && final(self).resolvers() == old(self).resolvers(),
            !fired ==> final(self).resolvers() == old(self).resolvers(),
    {
        if let Some(rate) = self.poisson_rate {
            if rate <= 0 {
                return false;
            }
            if self.poisson_sampler.is_some() {
                let k = self.sample_poisson(dt, rate);
                if !decide_sample(k) {
                    return false;
                }
                return self.run_once();
            }
        }
        if let Some(f) = self.freq {
            let accumulated = self.elapsed.saturating_add(dt);
            if accumulated < f {
                self.elapsed = accumulated;
                return false;
            }
            self.elapsed = 0;
        }
        self.run_once()
    }
}

} // verus!

