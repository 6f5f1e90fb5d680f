//! The choice, sample by sample, between rendering one tap set and blending two.
use vstd::prelude::*;
use crate::params::Params;
use crate::ramp::{FADE_MS, Ramp, RampView, steps_for};

verus! {

/// How a sample is rendered.
#[derive(Clone, Copy, PartialEq, Eq, Structural, Debug)]
pub enum Render {
    /// Only the tap set in `slot` is heard.
    Steady { slot: usize },
    /// Both tap sets are heard. The one in `incoming` is weighted by the crossfade
    /// window at `position / steps` (rising from 0 to 1), the other by its complement.
    /// `switched` is set on the sample where `incoming` was just loaded with a new
    /// configuration and the window restarted.
    Blend { incoming: usize, position: usize, steps: usize, switched: bool },
}

/// What a crossfader is: which slot is active, the configuration each slot holds,
/// and the ramp.
pub struct FadeView {
    pub active: nat,
    pub first: Params,
    pub second: Params,
    pub ramp: RampView,
}

impl FadeView {
    pub open spec fn wf(self) -> bool {
        self.active < 2 && self.ramp.wf()
    }

    pub open spec fn config(self, slot: nat) -> Params {
        if slot == 0 {
            self.first
        } else {
            self.second
        }
    }

    pub open spec fn with_config(self, slot: nat, p: Params) -> FadeView {
        if slot == 0 {
            FadeView { first: p, ..self }
        } else {
            FadeView { second: p, ..self }
        }
    }

    /// One sample with the configuration `current`: the next state and how the
    /// sample is rendered. A change is acted on only once the ramp has finished;
    /// then the other slot takes `current`, becomes active, and the ramp restarts.
    pub open spec fn next(self, current: Params) -> (FadeView, Render) {
        let changed = !current.same(self.config(self.active));
        if self.ramp.finished() && !changed {
            (FadeView { ramp: self.ramp.advanced(), ..self }, Render::Steady { slot: self.active as usize })
        } else if self.ramp.finished() {
            let a: nat = (1 - self.active) as nat;
            let ramp = RampView { position: 0, steps: self.ramp.steps }.advanced();
            let s = FadeView { active: a, ramp, ..self.with_config(a, current) };
            (
                s,
                Render::Blend {
                    incoming: a as usize,
                    position: ramp.position as usize,
                    steps: ramp.steps as usize,
                    switched: true,
                },
            )
        } else {
            let ramp = self.ramp.advanced();
            (
                FadeView { ramp, ..self },
                Render::Blend {
                    incoming: self.active as usize,
                    position: ramp.position as usize,
                    steps: ramp.steps as usize,
                    switched: false,
                },
            )
        }
    }
}

/// Double-buffered configuration slots and the timed switch between them.
pub struct Crossfade {
    active: usize,
    first: Params,
    second: Params,
    ramp: Ramp,
}

impl View for Crossfade {
    type V = FadeView;

    closed spec fn view(&self) -> FadeView {
        FadeView { active: self.active as nat, first: self.first, second: self.second, ramp: self.ramp@ }
    }
}

impl Crossfade {
    /// Slot 0 active, both slots holding the initial configuration, no fade running.
    pub fn new(sample_rate: usize) -> (r: Crossfade)
        requires
            sample_rate * FADE_MS + 999 <= usize::MAX,
        ensures
            r@.wf(),
            r@.active == 0,
            r@.first == Params::initial_spec(),
            r@.second == Params::initial_spec(),
            r@.ramp.finished(),
            r@.ramp.steps == steps_for(sample_rate, FADE_MS),
    {
        Crossfade {
            active: 0,
            first: Params::initial(),
            second: Params::initial(),
            ramp: Ramp::new(sample_rate, FADE_MS),
        }
    }

    /// Stores `p` as the active slot's configuration without a fade.
    pub fn prime(&mut self, p: Params)
        requires
            old(self)@.wf(),
        ensures
            final(self)@ == old(self)@.with_config(old(self)@.active, p),
            final(self)@.wf(),
    {
        if self.active == 0 {
            self.first = p;
        } else {
            self.second = p;
        }
    }

    pub fn active_index(&self) -> (r: usize)
        ensures
            r == self@.active,
    {
        self.active
    }

    /// The configuration held by `slot` (0 or 1).
    pub fn config(&self, slot: usize) -> (r: Params)
        ensures
            r == self@.config(slot as nat),
    {
        if slot == 0 {
            self.first
        } else {
            self.second
        }
    }

    pub fn is_finished(&self) -> (r: bool)
        ensures
            r == self@.ramp.finished(),
    {
        self.ramp.is_finished()
    }

    /// Decides how this sample is rendered for the configuration `current`, and
    /// moves the ramp one sample forward.
    pub fn step(&mut self, current: Params) -> (r: Render)
        requires
            old(self)@.wf(),
        ensures
            (final(self)@, r) == old(self)@.next(current),
            final(self)@.wf(),
    {
        let changed = current != self.config(self.active);
        if self.ramp.is_finished() && !changed {
            self.ramp.process();
            Render::Steady { slot: self.active }
        } else if self.ramp.is_finished() {
            self.active = 1 - self.active;
            if self.active == 0 {
                self.first = current;
            } else {
                self.second = current;
            }
            self.ramp.start();
            let position = self.ramp.process();
            Render::Blend {
                incoming: self.active,
                position,
                steps: self.ramp.steps(),
                switched: true,
            }
        } else {
            let position = self.ramp.process();
            Render::Blend {
                incoming: self.active,
                position,
                steps: self.ramp.steps(),
                switched: false,
            }
        }
    }
}

/// The state after the configurations `ps`, one per sample.
pub open spec fn run(s: FadeView, ps: Seq<Params>) -> FadeView
    decreases ps.len(),
{
    if ps.len() == 0 {
        s
    } else {
        run(s.next(ps[0]).0, ps.drop_first())
    }
}

/// How each of the samples with configurations `ps` is rendered.
pub open spec fn renders(s: FadeView, ps: Seq<Params>) -> Seq<Render>
    decreases ps.len(),
{
    if ps.len() == 0 {
        Seq::empty()
    } else {
        seq![s.next(ps[0]).1].add(renders(s.next(ps[0]).0, ps.drop_first()))
    }
}

pub open spec fn is_switch(r: Render) -> bool {
    match r {
        Render::Blend { switched, .. } => switched,
        Render::Steady { .. } => false,
    }
}

/// How many of the samples with configurations `ps` switch slots and restart the ramp.
pub open spec fn switches(s: FadeView, ps: Seq<Params>) -> nat
    decreases ps.len(),
{
    if ps.len() == 0 {
        0
    } else {
        (if is_switch(s.next(ps[0]).1) {
            1nat
        } else {
            0nat
        }) + switches(s.next(ps[0]).0, ps.drop_first())
    }
}

proof fn lemma_renders_len(s: FadeView, ps: Seq<Params>)
    ensures
        renders(s, ps).len() == ps.len(),
    decreases ps.len(),
{
    if ps.len() > 0 {
        lemma_renders_len(s.next(ps[0]).0, ps.drop_first());
    }
}

/// Two crossfaders in the same state, given the same configurations sample by
/// sample, render every sample the same way and end in the same state.
pub proof fn lemma_deterministic(a: FadeView, b: FadeView, ps: Seq<Params>)
    requires
        a == b,
    ensures
        renders(a, ps) == renders(b, ps),
        run(a, ps) == run(b, ps),
{
}

/// While a fade runs, no configuration, changed or not, switches slots: the
/// active slot and both configurations stay, and the ramp moves one sample each time.
pub proof fn lemma_no_switch_while_fading(s: FadeView, ps: Seq<Params>)
    requires
        s.wf(),
        s.ramp.position + ps.len() <= s.ramp.steps,
    ensures
        switches(s, ps) == 0,
        run(s, ps) == (FadeView {
            ramp: RampView { position: s.ramp.position + ps.len(), steps: s.ramp.steps },
            ..s
        }),
        forall|k: int|
            0 <= k < ps.len() ==> (match #[trigger] renders(s, ps)[k] {
                Render::Blend { incoming, position, steps, switched } => incoming == s.active
                    && position == s.ramp.position + k + 1 && steps == s.ramp.steps && !switched,
                Render::Steady { .. } => false,
            }),
    decreases ps.len(),
{
    if ps.len() > 0 {
        let t = s.next(ps[0]).0;
        lemma_no_switch_while_fading(t, ps.drop_first());
        lemma_renders_len(t, ps.drop_first());
        assert forall|k: int| 0 <= k < ps.len() implies (match #[trigger] renders(s, ps)[k] {
            Render::Blend { incoming, position, steps, switched } => incoming == s.active
                && position == s.ramp.position + k + 1 && steps == s.ramp.steps && !switched,
            Render::Steady { .. } => false,
        }) by {
            if k > 0 {
                assert(renders(s, ps)[k] == renders(t, ps.drop_first())[k - 1]);
            } else {
                assert(renders(s, ps)[0] == s.next(ps[0]).1);
            }
        }
    }
}

/// A change of configuration met with no fade running starts a fade to the other
/// slot that lasts exactly the ramp's number of samples, whatever configurations
/// follow: the ramp is unfinished after each earlier sample and finished after the
/// last, where the new slot's weight is the window's end.
pub proof fn lemma_fade_completes(s: FadeView, ps: Seq<Params>)
    requires
        s.wf(),
        s.ramp.finished(),
        ps.len() == s.ramp.steps,
        !ps[0].same(s.config(s.active)),
    ensures
        run(s, ps).ramp.finished(),
        run(s, ps).active == 1 - s.active,
        run(s, ps).config(run(s, ps).active) == ps[0],
        run(s, ps).config(s.active) == s.config(s.active),
        renders(s, ps)[ps.len() - 1] == (Render::Blend {
            incoming: (1 - s.active) as usize,
            position: s.ramp.steps as usize,
            steps: s.ramp.steps as usize,
            switched: ps.len() == 1,
        }),
        forall|k: int| 1 <= k < ps.len() ==> !(#[trigger] run(s, ps.take(k))).ramp.finished(),
{
    let t = s.next(ps[0]).0;
    let rest = ps.drop_first();
    lemma_no_switch_while_fading(t, rest);
    lemma_renders_len(t, rest);
    if ps.len() > 1 {
        assert(renders(s, ps)[ps.len() - 1] == renders(t, rest)[rest.len() - 1]);
    }
    assert forall|k: int| 1 <= k < ps.len() implies !(#[trigger] run(s, ps.take(k))).ramp.finished() by {
        let pre = ps.take(k);
        assert(pre.drop_first() =~= rest.take(k - 1));
        lemma_no_switch_while_fading(t, rest.take(k - 1));
    }
}

/// Within one fade window, however often the configuration changes, a change met
/// with no fade running switches slots exactly once.
pub proof fn lemma_single_switch_per_window(s: FadeView, ps: Seq<Params>)
    requires
        s.wf(),
        s.ramp.finished(),
        1 <= ps.len() <= s.ramp.steps,
        !ps[0].same(s.config(s.active)),
    ensures
        switches(s, ps) == 1,
{
    lemma_no_switch_while_fading(s.next(ps[0]).0, ps.drop_first());
}

/// Once a fade has run its full window, a configuration equal to the one that
/// started it is rendered from the new slot alone, with no blend. (A configuration
/// holding a NaN equals nothing, not even itself, and so never settles.)
pub proof fn lemma_steady_after_fade(s: FadeView, ps: Seq<Params>)
    requires
        s.wf(),
        s.ramp.finished(),
        ps.len() == s.ramp.steps,
        !ps[0].same(s.config(s.active)),
        ps[0].same(ps[0]),
    ensures
        run(s, ps).next(ps[0]).1 == (Render::Steady { slot: (1 - s.active) as usize }),
{
    lemma_fade_completes(s, ps);
}

} // verus!
