//! The bounce-depth policy of the radiance integrator.
//!
//! A primary ray is traced through at most `depth` surface interactions.
//! Each interaction is reported to a [`Walk`] as a [`Probe`]; the walk decides
//! whether the path ends black, ends in the sky, or continues with one more
//! attenuation factor folded in.
use vstd::prelude::*;

verus! {

/// What tracing the current ray against the world produced.
#[derive(Clone, Copy, Debug, PartialEq, Eq, Structural)]
pub enum Probe {
    /// The ray left the scene: it takes the background gradient.
    Miss,
    /// The ray hit a surface whose material absorbed it.
    Absorbed,
    /// The ray hit a surface and was scattered into a new ray.
    Scattered,
}

/// What the integrator does next.
#[derive(Clone, Copy, Debug, PartialEq, Eq, Structural)]
pub enum Step {
    /// The path ends black, whatever was gathered so far.
    Black,
    /// The path ends in the sky: the result is the gathered attenuation
    /// times the background gradient of the current ray.
    Sky,
    /// Trace the current ray against the world and report the outcome.
    Trace,
}

/// How a whole path ended.
#[derive(Clone, Copy, Debug, PartialEq, Eq, Structural)]
pub enum End {
    Black,
    /// Reached the sky after `bounces` scatter events, each contributing its
    /// attenuation to the product.
    Sky { bounces: usize },
}

/// The ending of a path traced with budget `depth`, whose successive
/// interactions are `probes`; `None` when the probes run out first.
pub open spec fn ending(depth: nat, probes: Seq<Probe>) -> Option<End>
    decreases probes.len(),
{
    if depth == 0 {
        Some(End::Black)
    } else if probes.len() == 0 {
        None
    } else {
        match probes[0] {
            Probe::Miss => Some(End::Sky { bounces: 0 }),
            Probe::Absorbed => Some(End::Black),
            Probe::Scattered => match ending((depth - 1) as nat, probes.drop_first()) {
                Some(End::Sky { bounces }) => Some(End::Sky { bounces: (bounces + 1) as usize }),
                other => other,
            },
        }
    }
}

/// `e` with `k` more scatter events counted in front of it.
pub open spec fn lifted(e: Option<End>, k: nat) -> Option<End> {
    match e {
        Some(End::Sky { bounces }) => Some(End::Sky { bounces: (bounces + k) as usize }),
        other => other,
    }
}

/// A path with no bounce budget is black, whatever the scene would do.
pub proof fn depth_zero_is_black(probes: Seq<Probe>)
    ensures
        ending(0, probes) == Some(End::Black),
{
}

/// A ray that hits nothing, with budget left, ends in the sky at once: its
/// colour is the background gradient, with no attenuation applied.
pub proof fn miss_is_sky(depth: nat, probes: Seq<Probe>)
    requires
        depth > 0,
        probes.len() > 0,
        probes[0] == Probe::Miss,
    ensures
        ending(depth, probes) == Some(End::Sky { bounces: 0 }),
{
}

/// A path reaches the sky only after fewer scatter events than its budget.
pub proof fn sky_within_budget(depth: nat, probes: Seq<Probe>)
    ensures
        ending(depth, probes) matches Some(End::Sky { bounces }) ==> bounces < depth,
    decreases probes.len(),
{
    if depth > 0 && probes.len() > 0 && probes[0] == Probe::Scattered {
        sky_within_budget((depth - 1) as nat, probes.drop_first());
    }
}

proof fn lemma_unroll(depth: nat, probes: Seq<Probe>, i: nat)
    requires
        i < depth,
        depth <= usize::MAX,
        i <= probes.len(),
        forall|j: int| 0 <= j < i ==> probes[j] == Probe::Scattered,
    ensures
        ending(depth, probes) == lifted(ending((depth - i) as nat, probes.skip(i as int)), i),
    decreases i,
{
    if i == 0 {
        assert(probes.skip(0) == probes);
    } else {
        let rest = probes.drop_first();
        lemma_unroll((depth - 1) as nat, rest, (i - 1) as nat);
        assert(rest.skip(i - 1) == probes.skip(i as int));
        sky_within_budget((depth - i) as nat, probes.skip(i as int));
    }
}

/// Progress of one path through the scene.
pub struct Walk {
    /// Interactions that may still be traced.
    pub remaining: usize,
    /// Scatter events so far, i.e. attenuation factors gathered.
    pub bounces: usize,
}

impl Walk {
    pub fn new(depth: usize) -> (w: Walk)
        ensures
            w.remaining == depth,
            w.bounces == 0,
    {
        Walk { remaining: depth, bounces: 0 }
    }

    /// The step to take before any probe: a walk with no budget left is black.
    pub fn first(&self) -> (s: Step)
        ensures
            s == (if self.remaining == 0 { Step::Black } else { Step::Trace }),
    {
        if self.remaining == 0 {
            Step::Black
        } else {
            Step::Trace
        }
    }

    /// Folds in the outcome of tracing the current ray.
    pub fn advance(&mut self, probe: Probe) -> (s: Step)
        requires
            old(self).remaining > 0,
            old(self).bounces + old(self).remaining <= usize::MAX,
        ensures
            probe == Probe::Miss ==> s == Step::Sky && *final(self) == *old(self),
            probe == Probe::Absorbed ==> s == Step::Black && *final(self) == *old(self),
            probe == Probe::Scattered ==> {
                &&& final(self).remaining == old(self).remaining - 1
                &&& final(self).bounces == old(self).bounces + 1
                &&& s == (if final(self).remaining == 0 { Step::Black } else { Step::Trace })
            },
    {
        match probe {
            Probe::Miss => Step::Sky,
            Probe::Absorbed => Step::Black,
            Probe::Scattered => {
                self.remaining = self.remaining - 1;
                self.bounces = self.bounces + 1;
                self.first()
            },
        }
    }
}

/// Runs a walk with budget `depth` over the interactions `probes`, in order,
/// and reports how the path ended (`None` when it needed more probes).
pub fn trace_path(depth: usize, probes: &Vec<Probe>) -> (r: Option<End>)
    ensures
        r == ending(depth as nat, probes@),
{
    let mut walk = Walk::new(depth);
    let mut step = walk.first();
    let mut i: usize = 0;
    while i < probes.len() && step == Step::Trace
        invariant
            i <= probes.len(),
            step == Step::Trace ==> {
                &&& walk.remaining > 0
                &&& walk.remaining + i == depth
                &&& walk.bounces == i
                &&& forall|j: int| 0 <= j < i ==> probes@[j] == Probe::Scattered
            },
            step == Step::Black ==> ending(depth as nat, probes@) == Some(End::Black),
            step == Step::Sky ==> ending(depth as nat, probes@) == Some(
                End::Sky { bounces: walk.bounces },
            ),
        decreases probes.len() - i,
    {
        proof {
            lemma_unroll(depth as nat, probes@, i as nat);
            let rest = probes@.skip(i as int);
            assert(rest[0] == probes@[i as int]);
            assert(ending(0, rest.drop_first()) == Some(End::Black));
        }
        step = walk.advance(probes[i]);
        i = i + 1;
    }
    proof {
        if step == Step::Trace {
            lemma_unroll(depth as nat, probes@, i as nat);
        }
    }
    match step {
        Step::Black => Some(End::Black),
        Step::Sky => Some(End::Sky { bounces: walk.bounces }),
        Step::Trace => None,
    }
}

} // verus!
