//! The post-processing of one output channel: an optional limiter, then either
//! the low-pass gate or a plain gain stage.
//!
//! The samples and the two stages' filter state are floating point and live
//! with the caller. `ChannelPostProcessor` keeps, for each stage, where it
//! stands (freshly constructed, initialised, or running) and decides, block by
//! block, which stage runs with which gain.

use vstd::prelude::*;

verus! {

/// Where one processing stage stands.
#[derive(Clone, Copy, Debug, PartialEq, Eq, Structural)]
pub enum StageState {
    /// As the stage's constructor left it.
    Constructed,
    /// As the stage's initialisation left it.
    Initialized,
    /// It has processed audio since it was last initialised.
    Running,
}

/// The gain applied after the limiter.
#[derive(Clone, Copy, Debug, PartialEq, Eq, Structural)]
pub enum PostGain {
    /// Unity gain: the limiter already applied the (negated) channel gain.
    Unity,
    /// The channel gain itself.
    Channel,
}

/// What the samples go through after the limiter.
#[derive(Clone, Copy, Debug, PartialEq, Eq, Structural)]
pub enum GateRoute {
    /// The low-pass gate, driven by the post gain times the LPG's gain.
    LowPassGate,
    /// A plain multiplication by the post gain.
    Scale,
}

/// The work to do on one block of a channel.
#[derive(Clone, Copy, Debug, PartialEq, Eq, Structural)]
pub struct PostPlan {
    /// Run the limiter first, with the opposite of the channel gain.
    pub limit: bool,
    pub post_gain: PostGain,
    pub route: GateRoute,
}

/// The plan for a block with a channel gain of the given sign.
pub open spec fn post_plan(negative_gain: bool, bypass_lpg: bool) -> PostPlan {
    PostPlan {
        limit: negative_gain,
        post_gain: if negative_gain { PostGain::Unity } else { PostGain::Channel },
        route: if bypass_lpg { GateRoute::Scale } else { GateRoute::LowPassGate },
    }
}

/// The stages of a channel, as (limiter, low-pass gate).
pub type Stages = (StageState, StageState);

/// The stages after `reset`: the limiter is initialised, the LPG untouched.
pub open spec fn reset_stages(s: Stages) -> Stages {
    (StageState::Initialized, s.1)
}

/// The stages after `init`: both initialised.
pub open spec fn init_stages(s: Stages) -> Stages {
    (StageState::Initialized, StageState::Initialized)
}

/// The stages after a block processed with `plan`: the stages that ran are
/// running, the others keep their state.
pub open spec fn processed_stages(s: Stages, plan: PostPlan) -> Stages {
    (
        if plan.limit { StageState::Running } else { s.0 },
        if plan.route == GateRoute::LowPassGate { StageState::Running } else { s.1 },
    )
}

/// Post-processing of one output channel.
#[derive(Debug)]
pub struct ChannelPostProcessor {
    limiter: StageState,
    lpg: StageState,
}

impl View for ChannelPostProcessor {
    type V = Stages;

    closed spec fn view(&self) -> Stages {
        (self.limiter, self.lpg)
    }
}

impl ChannelPostProcessor {
    /// A post-processor whose two stages are freshly constructed.
    pub fn new() -> (p: Self)
        ensures
            p@ == (StageState::Constructed, StageState::Constructed),
    {
        ChannelPostProcessor { limiter: StageState::Constructed, lpg: StageState::Constructed }
    }

    /// Initialises the low-pass gate, then resets (the limiter).
    pub fn init(&mut self)
        ensures
            final(self)@ == init_stages(old(self)@),
        no_unwind
    {
        self.lpg = StageState::Initialized;
        self.reset();
    }

    /// Initialises the limiter; the low-pass gate keeps its state.
    pub fn reset(&mut self)
        ensures
            final(self)@ == reset_stages(old(self)@),
        no_unwind
    {
        self.limiter = StageState::Initialized;
    }

    /// Where the limiter stands.
    pub fn limiter_state(&self) -> (r: StageState)
        ensures
            r == self@.0,
    {
        self.limiter
    }

    /// Where the low-pass gate stands.
    pub fn lpg_state(&self) -> (r: StageState)
        ensures
            r == self@.1,
    {
        self.lpg
    }

    fn run(&mut self, plan: PostPlan)
        ensures
            final(self)@ == processed_stages(old(self)@, plan),
        no_unwind
    {
        if plan.limit {
            self.limiter = StageState::Running;
        }
        match plan.route {
            GateRoute::LowPassGate => {
                self.lpg = StageState::Running;
            },
            GateRoute::Scale => {},
        }
    }

    /// Plans a block whose samples stay in floating point. `negative_gain`
    /// tells whether the channel gain is below zero; `bypass_lpg` whether the
    /// low-pass gate is bypassed. A negative gain runs the limiter with the
    /// opposite gain and leaves unity gain for what follows; otherwise the
    /// channel gain is applied after. A bypassed LPG leaves a plain
    /// multiplication by the post gain.
    pub fn process(&mut self, negative_gain: bool, bypass_lpg: bool) -> (plan: PostPlan)
        ensures
            plan == post_plan(negative_gain, bypass_lpg),
            final(self)@ == processed_stages(old(self)@, plan),
        no_unwind
    {
        let plan = PostPlan {
            limit: negative_gain,
            post_gain: if negative_gain { PostGain::Unity } else { PostGain::Channel },
            route: if bypass_lpg { GateRoute::Scale } else { GateRoute::LowPassGate },
        };
        self.run(plan);
        plan
    }

    /// Plans a block whose output is written as 16-bit samples. The plan is
    /// the one `process` makes; the post gain is then further multiplied by
    /// `-32767`, and on the plain gain route each scaled sample, truncated to
    /// an integer, is stored by `to_i16_sample`.
    pub fn process_to_i16(&mut self, negative_gain: bool, bypass_lpg: bool) -> (plan: PostPlan)
        ensures
            plan == post_plan(negative_gain, bypass_lpg),
            final(self)@ == processed_stages(old(self)@, plan),
        no_unwind
    {
        self.process(negative_gain, bypass_lpg)
    }
}

/// `x` clamped to the range of a 16-bit sample.
pub open spec fn clip_16_spec(x: int) -> int {
    if x < -32768 {
        -32768
    } else if x > 32767 {
        32767
    } else {
        x
    }
}

/// Clamps `x` to the range of a 16-bit sample.
pub fn clip_16(x: i32) -> (r: i32)
    ensures
        r == clip_16_spec(x as int),
{
    if x < -32768 {
        -32768
    } else if x > 32767 {
        32767
    } else {
        x
    }
}

/// The 16-bit sample stored for a scaled sample truncated to `scaled`: one is
/// added, then the value is clamped. `scaled` must leave room for the added
/// one.
pub fn to_i16_sample(scaled: i32) -> (r: i16)
    requires
        scaled < i32::MAX,
    ensures
        r as int == clip_16_spec(scaled + 1),
{
    let c = clip_16(scaled + 1);
    c as i16
}

/// Resetting twice is resetting once.
pub proof fn lemma_reset_idempotent(s: Stages)
    ensures
        reset_stages(reset_stages(s)) == reset_stages(s),
{
}

/// Initialisation forgets every earlier state, and a reset right after it
/// changes nothing.
pub proof fn lemma_init_forgets(s: Stages, t: Stages)
    ensures
        init_stages(s) == init_stages(t),
        reset_stages(init_stages(s)) == init_stages(s),
{
}

/// The limiter runs exactly for a negative gain, and then takes the whole
/// gain: the post gain is unity exactly when the limiter runs.
pub proof fn lemma_limiter_takes_negative_gain(negative_gain: bool, bypass_lpg: bool)
    ensures
        post_plan(negative_gain, bypass_lpg).limit == negative_gain,
        (post_plan(negative_gain, bypass_lpg).post_gain == PostGain::Unity)
            == post_plan(negative_gain, bypass_lpg).limit,
{
}

/// A block with a bypassed LPG leaves the LPG as it was, and one with a
/// non-negative gain leaves the limiter as it was.
pub proof fn lemma_idle_stages_keep_state(s: Stages, negative_gain: bool, bypass_lpg: bool)
    ensures
        bypass_lpg ==> processed_stages(s, post_plan(negative_gain, bypass_lpg)).1 == s.1,
        !negative_gain ==> processed_stages(s, post_plan(negative_gain, bypass_lpg)).0 == s.0,
{
}

/// Clamping to 16 bits stays in range, keeps in-range values and keeps order.
pub proof fn lemma_clip_16(x: int, y: int)
    ensures
        -32768 <= clip_16_spec(x) <= 32767,
        -32768 <= x <= 32767 ==> clip_16_spec(x) == x,
        x <= y ==> clip_16_spec(x) <= clip_16_spec(y),
        clip_16_spec(clip_16_spec(x)) == clip_16_spec(x),
{
}

} // verus!
