//! The discrete state of a voice and the decisions it takes on every block.
//!
//! A voice renders audio block by block. Before each block it reads the
//! (delayed) trigger input, selects an engine and routes the modulations;
//! after the engine has rendered it decides what the low-pass gate does.
//! `VoiceState` holds what those decisions remember from block to block and
//! plans each block; the caller renders and post-processes the audio
//! accordingly.

use vstd::prelude::*;
use crate::engine::{get_engine, engine_table, lemma_table_shape, EngineKind, EngineSlot, NUM_ENGINES};
use crate::post_processor::{
    init_stages, post_plan, processed_stages, reset_stages, ChannelPostProcessor, PostPlan,
    StageState, Stages,
};
use crate::resources::{resource_for_engine, resource_slot_for, ResourceSlot};
use crate::modulation::{
    accent_source, engine_setup, engine_setup_spec, parameter_sources, parameter_sources_spec,
    lpg_bypass, lpg_bypass_spec, lpg_plan, lpg_plan_spec, trigger_parameter,
    trigger_parameter_spec, AccentSource, EngineSetup, LpgPlan, ParameterSources, PatchedInputs,
    TriggerState,
};

verus! {

/// The trigger level after one block: a low trigger goes high when the input
/// is above the upper threshold, a high one goes low when the input is below
/// the lower threshold; otherwise the level is kept.
pub open spec fn next_trigger_high(high: bool, above_high: bool, below_low: bool) -> bool {
    if !high {
        above_high
    } else {
        !below_low
    }
}

/// What the trigger input asks for in one block.
#[derive(Clone, Copy, Debug, PartialEq, Eq, Structural)]
pub struct TriggerStep {
    /// The trigger level before this block.
    pub previous_high: bool,
    /// The trigger level after this block.
    pub high: bool,
    /// The trigger went from low to high in this block.
    pub rising_edge: bool,
    /// Trigger the low-pass gate envelope.
    pub trigger_lpg_envelope: bool,
    /// Trigger the internal decay envelope.
    pub trigger_decay_envelope: bool,
    /// Take the engine modulation input as the new engine control value.
    pub update_engine_cv: bool,
}

/// The trigger step from a voice whose trigger was `high`.
pub open spec fn trigger_step_spec(
    high: bool,
    above_high: bool,
    below_low: bool,
    p: PatchedInputs,
) -> TriggerStep {
    let rising = !high && above_high;
    TriggerStep {
        previous_high: high,
        high: next_trigger_high(high, above_high, below_low),
        rising_edge: rising,
        trigger_lpg_envelope: rising && !p.level_patched,
        trigger_decay_envelope: rising,
        update_engine_cv: rising || !p.trigger_patched,
    }
}

/// What engine selection asks for in one block.
#[derive(Clone, Copy, Debug, PartialEq, Eq, Structural)]
pub struct EngineChange {
    /// The engine slot that renders this block.
    pub engine_index: usize,
    /// The slot's table entry.
    pub slot: EngineSlot,
    /// Reset the engine and the main output's post-processor (the engine
    /// changed, or a reload was asked for).
    pub reset: bool,
    /// The resource to hand to the engine before it is reset.
    pub load: Option<ResourceSlot>,
}

/// The plan for everything a block needs before its engine renders.
#[derive(Clone, Copy, Debug, PartialEq, Eq, Structural)]
pub struct RenderPlan {
    pub trigger: TriggerStep,
    pub engine: EngineChange,
    /// The trigger as the engine sees it.
    pub trigger_parameter: TriggerState,
    pub accent: AccentSource,
    /// The internal decay envelope modulates the parameters.
    pub use_internal_envelope: bool,
    pub sources: ParameterSources,
    pub setup: EngineSetup,
}

/// What a voice inputs to one block's decisions.
#[derive(Clone, Copy, Debug, PartialEq, Eq, Structural)]
pub struct BlockInput {
    /// The delayed trigger input is above the upper threshold (0.3).
    pub trigger_above_high: bool,
    /// The delayed trigger input is below the lower threshold (0.1).
    pub trigger_below_low: bool,
    /// The engine slot that the engine quantizer picked.
    pub quantized_engine: usize,
    pub patched: PatchedInputs,
}

/// The discrete state of a voice, as a mathematical value.
pub ghost struct VoiceView {
    /// The engine slot that rendered last.
    pub engine: nat,
    /// A reload of the resources was asked for and not yet done.
    pub reload_pending: bool,
    /// The trigger is high.
    pub trigger_high: bool,
    /// The stages of the main output's post-processor.
    pub out_stages: Stages,
    /// The stages of the auxiliary output's post-processor.
    pub aux_stages: Stages,
}

/// Engine selection resets the engine when it changes or a reload is pending.
pub open spec fn select_resets(v: VoiceView, quantized: nat) -> bool {
    quantized != v.engine || v.reload_pending
}

/// The state after selecting engine `quantized`: that engine is active, no
/// reload is pending, and the main output's post-processor is reset when the
/// engine is.
pub open spec fn after_select(v: VoiceView, quantized: nat) -> VoiceView {
    VoiceView {
        engine: quantized,
        reload_pending: false,
        out_stages: if select_resets(v, quantized) {
            reset_stages(v.out_stages)
        } else {
            v.out_stages
        },
        ..v
    }
}

/// The state after asking for a reload.
pub open spec fn after_reload(v: VoiceView) -> VoiceView {
    VoiceView { reload_pending: true, ..v }
}

/// The state after reading the trigger input of one block.
pub open spec fn after_trigger(v: VoiceView, above_high: bool, below_low: bool) -> VoiceView {
    VoiceView { trigger_high: next_trigger_high(v.trigger_high, above_high, below_low), ..v }
}

/// The state after `init`: both post-processors initialised.
pub open spec fn after_init(v: VoiceView) -> VoiceView {
    VoiceView { out_stages: init_stages(v.out_stages), aux_stages: init_stages(v.aux_stages), ..v }
}

/// What happens after the engine of the active slot has rendered a block.
#[derive(Clone, Copy, Debug, PartialEq, Eq, Structural)]
pub struct FinishPlan {
    /// The low-pass gate is bypassed on both outputs.
    pub bypass_lpg: bool,
    /// What the low-pass gate envelope does.
    pub lpg: LpgPlan,
    /// The main output's post-processing.
    pub out: PostPlan,
    /// The auxiliary output's post-processing.
    pub aux: PostPlan,
}

/// The plan after the engine of slot `engine` rendered, with
/// `already_enveloped` as the engine left it.
pub open spec fn finish_plan_spec(engine: int, already_enveloped: bool, p: PatchedInputs) -> FinishPlan {
    let slot = engine_table(engine).unwrap();
    let bypass = lpg_bypass_spec(already_enveloped, p);
    FinishPlan {
        bypass_lpg: bypass,
        lpg: lpg_plan_spec(already_enveloped, p),
        out: post_plan(slot.out_gain.tenths < 0, bypass),
        aux: post_plan(slot.aux_gain.tenths < 0, bypass),
    }
}

/// The state after a finished block: each post-processor's stages that ran
/// are running.
pub open spec fn after_finish(v: VoiceView, plan: FinishPlan) -> VoiceView {
    VoiceView {
        out_stages: processed_stages(v.out_stages, plan.out),
        aux_stages: processed_stages(v.aux_stages, plan.aux),
        ..v
    }
}

/// The discrete state of a voice.
#[derive(Debug)]
pub struct VoiceState {
    previous_engine_index: usize,
    reload_resources: bool,
    trigger_state: bool,
    out_post_processor: ChannelPostProcessor,
    aux_post_processor: ChannelPostProcessor,
}

impl View for VoiceState {
    type V = VoiceView;

    closed spec fn view(&self) -> VoiceView {
        VoiceView {
            engine: self.previous_engine_index as nat,
            reload_pending: self.reload_resources,
            trigger_high: self.trigger_state,
            out_stages: self.out_post_processor@,
            aux_stages: self.aux_post_processor@,
        }
    }
}

impl VoiceState {
    #[verifier::type_invariant]
    spec fn engine_in_range(self) -> bool {
        self.previous_engine_index < NUM_ENGINES
    }

    /// A voice on slot 0, with a low trigger, no reload pending and freshly
    /// constructed post-processors.
    pub fn new() -> (s: Self)
        ensures
            s@ == (VoiceView {
                engine: 0,
                reload_pending: false,
                trigger_high: false,
                out_stages: (StageState::Constructed, StageState::Constructed),
                aux_stages: (StageState::Constructed, StageState::Constructed),
            }),
    {
        VoiceState {
            previous_engine_index: 0,
            reload_resources: false,
            trigger_state: false,
            out_post_processor: ChannelPostProcessor::new(),
            aux_post_processor: ChannelPostProcessor::new(),
        }
    }

    /// Initialises both post-processors and returns the engines that the
    /// caller initialises, one per table slot.
    pub fn init(&mut self) -> (engines: Vec<EngineKind>)
        ensures
            final(self)@ == after_init(old(self)@),
            engines.len() == NUM_ENGINES,
            forall|i: int|
                0 <= i < NUM_ENGINES ==> #[trigger] engine_table(i) is Some && engine_table(
                    i,
                ).unwrap().kind == engines[i],
    {
        proof {
            use_type_invariant(&*self);
        }
        let engines = engines_to_init();
        self.out_post_processor.init();
        self.aux_post_processor.init();
        engines
    }

    /// Asks for the resources to be handed again to the engine at the next
    /// engine selection, even if the engine stays the same.
    pub fn reload_resources(&mut self)
        ensures
            final(self)@ == after_reload(old(self)@),
    {
        proof {
            use_type_invariant(&*self);
        }
        self.reload_resources = true;
    }

    /// The engine slot that rendered last.
    pub fn active_engine(&self) -> (r: usize)
        ensures
            r == self@.engine,
            r < NUM_ENGINES,
    {
        proof {
            use_type_invariant(self);
        }
        self.previous_engine_index
    }

    /// The main output's post-processor.
    pub fn out_post_processor(&self) -> (r: &ChannelPostProcessor)
        ensures
            r@ == self@.out_stages,
    {
        &self.out_post_processor
    }

    /// The auxiliary output's post-processor.
    pub fn aux_post_processor(&self) -> (r: &ChannelPostProcessor)
        ensures
            r@ == self@.aux_stages,
    {
        &self.aux_post_processor
    }

    /// Reads the delayed trigger input of one block: `above_high` and
    /// `below_low` say how it compares to the two thresholds.
    pub fn trigger_step(&mut self, above_high: bool, below_low: bool, p: PatchedInputs) -> (r:
        TriggerStep)
        ensures
            r == trigger_step_spec(old(self)@.trigger_high, above_high, below_low, p),
            final(self)@ == after_trigger(old(self)@, above_high, below_low),
    {
        proof {
            use_type_invariant(&*self);
        }
        let previous = self.trigger_state;
        let mut trigger_lpg_envelope = false;
        let mut trigger_decay_envelope = false;
        let mut update_engine_cv = false;
        if !previous {
            if above_high {
                self.trigger_state = true;
                if !p.level_patched {
                    trigger_lpg_envelope = true;
                }
                trigger_decay_envelope = true;
                update_engine_cv = true;
            }
        } else if below_low {
            self.trigger_state = false;
        }
        if !p.trigger_patched {
            update_engine_cv = true;
        }
        let rising_edge = self.trigger_state && !previous;
        TriggerStep {
            previous_high: previous,
            high: self.trigger_state,
            rising_edge,
            trigger_lpg_envelope,
            trigger_decay_envelope,
            update_engine_cv,
        }
    }

    /// Selects the engine that the quantizer picked. The engine is reset,
    /// first handed its resource if it loads one, and the main output's
    /// post-processor reset, when the engine differs from the last one or a
    /// reload is pending; the reload is then done.
    pub fn select_engine(&mut self, quantized: usize) -> (r: EngineChange)
        requires
            quantized < NUM_ENGINES,
        ensures
            r.engine_index == quantized,
            engine_table(quantized as int) == Some(r.slot),
            r.reset == select_resets(old(self)@, quantized as nat),
            r.load == (if r.reset { resource_slot_for(quantized as int) } else { None }),
            final(self)@ == after_select(old(self)@, quantized as nat),
    {
        proof {
            use_type_invariant(&*self);
        }
        let engine_index = quantized;
        let reset = engine_index != self.previous_engine_index || self.reload_resources;
        let mut load = None;
        if reset {
            load = resource_for_engine(engine_index);
            self.out_post_processor.reset();
            self.previous_engine_index = engine_index;
            self.reload_resources = false;
        }
        let slot = get_engine(engine_index).unwrap();
        EngineChange { engine_index, slot, reset, load }
    }

    /// Plans the part of a block that comes before the engine renders: the
    /// trigger, the engine selection, and the routing of the modulations.
    pub fn plan_render(&mut self, input: BlockInput) -> (r: RenderPlan)
        requires
            input.quantized_engine < NUM_ENGINES,
        ensures
            r.trigger == trigger_step_spec(
                old(self)@.trigger_high,
                input.trigger_above_high,
                input.trigger_below_low,
                input.patched,
            ),
            r.engine.engine_index == input.quantized_engine,
            engine_table(input.quantized_engine as int) == Some(r.engine.slot),
            r.engine.reset == select_resets(old(self)@, input.quantized_engine as nat),
            r.engine.load == (if r.engine.reset {
                resource_slot_for(input.quantized_engine as int)
            } else {
                None
            }),
            r.trigger_parameter == trigger_parameter_spec(
                input.patched.trigger_patched,
                r.trigger.rising_edge,
                r.trigger.high,
            ),
            r.accent == (if input.patched.level_patched {
                AccentSource::Level
            } else {
                AccentSource::Default
            }),
            r.use_internal_envelope == input.patched.trigger_patched,
            r.sources == parameter_sources_spec(input.patched),
            r.setup == engine_setup_spec(input.quantized_engine as int, input.patched),
            final(self)@ == after_select(
                after_trigger(old(self)@, input.trigger_above_high, input.trigger_below_low),
                input.quantized_engine as nat,
            ),
    {
        let trigger = self.trigger_step(input.trigger_above_high, input.trigger_below_low, input.patched);
        let engine = self.select_engine(input.quantized_engine);
        let trigger_parameter = trigger_parameter(
            input.patched.trigger_patched,
            trigger.rising_edge,
            trigger.high,
        );
        let accent = accent_source(input.patched.level_patched);
        let sources = parameter_sources(input.patched);
        let setup = engine_setup(engine.engine_index, input.patched);
        RenderPlan {
            trigger,
            engine,
            trigger_parameter,
            accent,
            use_internal_envelope: input.patched.trigger_patched,
            sources,
            setup,
        }
    }

    /// Plans what follows the active engine's rendering of a block:
    /// `already_enveloped` is what the engine left in that flag. The LPG is
    /// bypassed as `lpg_bypass_spec` says, and each output is post-processed
    /// with the sign of its gain in the active slot.
    pub fn finish_render(&mut self, already_enveloped: bool, p: PatchedInputs) -> (r: FinishPlan)
        ensures
            r == finish_plan_spec(old(self)@.engine as int, already_enveloped, p),
            final(self)@ == after_finish(old(self)@, r),
    {
        proof {
            use_type_invariant(&*self);
        }
        let slot = get_engine(self.previous_engine_index).unwrap();
        let bypass = lpg_bypass(already_enveloped, p);
        let lpg = lpg_plan(already_enveloped, p);
        let out = self.out_post_processor.process(slot.out_gain.tenths < 0, bypass);
        let aux = self.aux_post_processor.process(slot.aux_gain.tenths < 0, bypass);
        FinishPlan { bypass_lpg: bypass, lpg, out, aux }
    }
}

/// An engine selection resets exactly when the slot differs from the
/// active one or a reload is pending: any change of slot resets, even
/// between slots of the same engine (slot 2 to slot 3 hands the six-operator
/// engine the second sysex bank), and loads that slot's resource.
pub proof fn lemma_select_resets_on_slot_change(v: VoiceView, quantized: nat)
    ensures
        select_resets(v, quantized) == (quantized != v.engine || v.reload_pending),
        quantized != v.engine ==> select_resets(v, quantized),
        quantized == v.engine && !v.reload_pending ==> !select_resets(v, quantized),
        after_select(v, quantized).engine == quantized,
        v.engine == 2 && !v.reload_pending && quantized == 3 ==> select_resets(v, quantized)
            && resource_slot_for(quantized as int) == Some(ResourceSlot::SyxBankB),
{
}

/// Selecting the same engine twice in a row resets it at most once: the
/// second selection never resets and loads nothing.
pub proof fn lemma_select_twice(v: VoiceView, quantized: nat)
    ensures
        !select_resets(after_select(v, quantized), quantized),
        after_select(after_select(v, quantized), quantized) == after_select(v, quantized),
{
}

/// After a reload is asked for, the next selection resets the engine even
/// when it stays the same, and hands it its resource again.
pub proof fn lemma_reload_forces_reset(v: VoiceView, quantized: nat)
    ensures
        select_resets(after_reload(v), quantized),
        !after_select(after_reload(v), quantized).reload_pending,
{
}

/// The trigger has hysteresis: it only goes high on an input above the upper
/// threshold and only goes low on an input below the lower one. Since no
/// input is both, a second block with the same input changes nothing, and
/// it brings no second rising edge.
pub proof fn lemma_trigger_hysteresis(
    v: VoiceView,
    above_high: bool,
    below_low: bool,
    p: PatchedInputs,
)
    requires
        !(above_high && below_low),
    ensures
        !v.trigger_high && after_trigger(v, above_high, below_low).trigger_high ==> above_high,
        v.trigger_high && !after_trigger(v, above_high, below_low).trigger_high ==> below_low,
        after_trigger(after_trigger(v, above_high, below_low), above_high, below_low) == after_trigger(
            v,
            above_high,
            below_low,
        ),
        !trigger_step_spec(
            after_trigger(v, above_high, below_low).trigger_high,
            above_high,
            below_low,
            p,
        ).rising_edge,
{
}

/// The envelopes are triggered only on a rising edge, and a rising edge
/// always triggers the decay envelope.
pub proof fn lemma_envelopes_on_rising_edge(
    high: bool,
    above_high: bool,
    below_low: bool,
    p: PatchedInputs,
)
    ensures
        trigger_step_spec(high, above_high, below_low, p).rising_edge == (!high
            && trigger_step_spec(high, above_high, below_low, p).high),
        trigger_step_spec(high, above_high, below_low, p).trigger_decay_envelope
            == trigger_step_spec(high, above_high, below_low, p).rising_edge,
        trigger_step_spec(high, above_high, below_low, p).trigger_lpg_envelope ==> trigger_step_spec(
            high,
            above_high,
            below_low,
            p,
        ).rising_edge,
{
}

/// An engine change resets only the main output's limiter: the auxiliary
/// output's post-processor and the main output's LPG keep their state.
pub proof fn lemma_select_resets_main_limiter_only(v: VoiceView, quantized: nat)
    ensures
        after_select(v, quantized).aux_stages == v.aux_stages,
        after_select(v, quantized).out_stages.1 == v.out_stages.1,
        select_resets(v, quantized) ==> after_select(v, quantized).out_stages.0
            == StageState::Initialized,
{
}

/// After the engine of a slot rendered, the main output goes through the
/// limiter exactly for slots 15 to 20 and the auxiliary output only for slot
/// 17, whatever the patch; both outputs take the LPG or bypass it together.
pub proof fn lemma_finish_limiter(engine: int, already_enveloped: bool, p: PatchedInputs)
    requires
        0 <= engine < NUM_ENGINES,
    ensures
        finish_plan_spec(engine, already_enveloped, p).out.limit == (15 <= engine <= 20),
        finish_plan_spec(engine, already_enveloped, p).aux.limit == (engine == 17),
        finish_plan_spec(engine, already_enveloped, p).out.route == finish_plan_spec(
            engine,
            already_enveloped,
            p,
        ).aux.route,
{
    lemma_table_shape(engine);
}

/// The engines to initialise when a voice is initialised: one per table
/// slot, in slot order (so an engine serving several slots appears once per
/// slot).
pub fn engines_to_init() -> (r: Vec<EngineKind>)
    ensures
        r.len() == NUM_ENGINES,
        forall|i: int|
            0 <= i < NUM_ENGINES ==> #[trigger] engine_table(i) is Some && engine_table(i).unwrap().kind == r[i],
{
    let mut r: Vec<EngineKind> = Vec::new();
    let mut i: usize = 0;
    while i < NUM_ENGINES
        invariant
            i <= NUM_ENGINES,
            r.len() == i,
            forall|j: int|
                0 <= j < i ==> #[trigger] engine_table(j) is Some && engine_table(j).unwrap().kind == r[j],
        decreases NUM_ENGINES - i,
    {
        let slot = get_engine(i).unwrap();
        r.push(slot.kind);
        i = i + 1;
    }
    r
}

} // verus!
