//! How the patch and the modulation inputs are routed to the engine
//! parameters, block by block.

use vstd::prelude::*;

verus! {

/// Which modulation inputs are patched.
#[derive(Clone, Copy, Debug, PartialEq, Eq, Structural)]
pub struct PatchedInputs {
    pub frequency_patched: bool,
    pub timbre_patched: bool,
    pub morph_patched: bool,
    pub trigger_patched: bool,
    pub level_patched: bool,
}

/// The trigger as an engine sees it.
#[derive(Clone, Copy, Debug, PartialEq, Eq, Structural)]
pub enum TriggerState {
    /// Nothing is patched into the trigger input.
    Unpatched,
    Low,
    High,
    /// The block in which the trigger went high.
    RisingEdge,
}

/// The trigger an engine sees, from whether the trigger input is patched, a
/// rising edge in this block and the trigger's current level.
pub open spec fn trigger_parameter_spec(trigger_patched: bool, rising_edge: bool, high: bool) -> TriggerState {
    if !trigger_patched {
        TriggerState::Unpatched
    } else if rising_edge {
        TriggerState::RisingEdge
    } else if high {
        TriggerState::High
    } else {
        TriggerState::Low
    }
}

/// Computes `trigger_parameter_spec`.
pub fn trigger_parameter(trigger_patched: bool, rising_edge: bool, high: bool) -> (r: TriggerState)
    ensures
        r == trigger_parameter_spec(trigger_patched, rising_edge, high),
{
    if trigger_patched {
        if rising_edge {
            TriggerState::RisingEdge
        } else if high {
            TriggerState::High
        } else {
            TriggerState::Low
        }
    } else {
        TriggerState::Unpatched
    }
}

/// Where the modulation of a parameter comes from.
#[derive(Clone, Copy, Debug, PartialEq, Eq, Structural)]
pub enum ModulationSource {
    /// The external modulation input.
    External,
    /// The voice's internal decay envelope.
    InternalEnvelope,
    /// The parameter's default internal modulation.
    Default,
}

/// The external input when it is used, else the internal envelope when it
/// is used, else the default.
pub open spec fn modulation_source_spec(use_external: bool, use_internal_envelope: bool) -> ModulationSource {
    if use_external {
        ModulationSource::External
    } else if use_internal_envelope {
        ModulationSource::InternalEnvelope
    } else {
        ModulationSource::Default
    }
}

/// Computes `modulation_source_spec`.
pub fn modulation_source(use_external: bool, use_internal_envelope: bool) -> (r: ModulationSource)
    ensures
        r == modulation_source_spec(use_external, use_internal_envelope),
{
    if use_external {
        ModulationSource::External
    } else if use_internal_envelope {
        ModulationSource::InternalEnvelope
    } else {
        ModulationSource::Default
    }
}

/// Where the accent comes from.
#[derive(Clone, Copy, Debug, PartialEq, Eq, Structural)]
pub enum AccentSource {
    /// The compressed level input.
    Level,
    /// The fixed default accent.
    Default,
}

/// The accent follows the level input exactly when it is patched.
pub fn accent_source(level_patched: bool) -> (r: AccentSource)
    ensures
        r == (if level_patched { AccentSource::Level } else { AccentSource::Default }),
{
    if level_patched {
        AccentSource::Level
    } else {
        AccentSource::Default
    }
}

/// Engine-specific settings made before an engine renders.
#[derive(Clone, Copy, Debug, PartialEq, Eq, Structural)]
pub enum EngineSetup {
    /// The speech engine (slot 15): its amplitude envelope follows the
    /// harmonics; the prosody amount and the speed follow the patch's
    /// frequency and morph modulation amounts when the flag is set, and are
    /// zero otherwise.
    Speech { prosody_from_patch: bool, speed_from_patch: bool },
    /// The chiptune engine (slot 7): its envelope shape follows the patch's
    /// timbre modulation amount (at least 0.05) when the flag is set;
    /// otherwise it has no envelope.
    Chiptune { envelope_from_timbre: bool },
    /// Any other engine: nothing to set.
    Plain,
}

/// The settings for engine slot `index` under the given patched inputs.
pub open spec fn engine_setup_spec(index: int, p: PatchedInputs) -> EngineSetup {
    if index == 15 {
        EngineSetup::Speech {
            prosody_from_patch: p.trigger_patched && !p.frequency_patched,
            speed_from_patch: p.trigger_patched && !p.morph_patched,
        }
    } else if index == 7 {
        EngineSetup::Chiptune { envelope_from_timbre: p.trigger_patched && !p.timbre_patched }
    } else {
        EngineSetup::Plain
    }
}

/// Computes `engine_setup_spec`.
pub fn engine_setup(index: usize, p: PatchedInputs) -> (r: EngineSetup)
    ensures
        r == engine_setup_spec(index as int, p),
{
    if index == 15 {
        EngineSetup::Speech {
            prosody_from_patch: !(!p.trigger_patched || p.frequency_patched),
            speed_from_patch: !(!p.trigger_patched || p.morph_patched),
        }
    } else if index == 7 {
        EngineSetup::Chiptune { envelope_from_timbre: p.trigger_patched && !p.timbre_patched }
    } else {
        EngineSetup::Plain
    }
}

/// What the low-pass gate envelope does after the engine has rendered.
#[derive(Clone, Copy, Debug, PartialEq, Eq, Structural)]
pub enum LpgPlan {
    /// The LPG is bypassed: the envelope is re-initialised.
    Bypass,
    /// The envelope follows the compressed level input.
    LowPass,
    /// The envelope is pinged, with an attack that follows the note.
    Ping,
}

/// The LPG is bypassed when the engine shaped its own envelope, or when
/// neither the level nor the trigger input is patched.
pub open spec fn lpg_bypass_spec(already_enveloped: bool, p: PatchedInputs) -> bool {
    already_enveloped || (!p.level_patched && !p.trigger_patched)
}

/// The LPG's plan: bypassed as `lpg_bypass_spec` says; otherwise it follows
/// the level input when that is patched, and is pinged when it is not.
pub open spec fn lpg_plan_spec(already_enveloped: bool, p: PatchedInputs) -> LpgPlan {
    if lpg_bypass_spec(already_enveloped, p) {
        LpgPlan::Bypass
    } else if p.level_patched {
        LpgPlan::LowPass
    } else {
        LpgPlan::Ping
    }
}

/// Computes `lpg_bypass_spec`; `already_enveloped` is the engine's answer
/// after rendering the block.
pub fn lpg_bypass(already_enveloped: bool, p: PatchedInputs) -> (r: bool)
    ensures
        r == lpg_bypass_spec(already_enveloped, p),
{
    already_enveloped || (!p.level_patched && !p.trigger_patched)
}

/// Computes `lpg_plan_spec`.
pub fn lpg_plan(already_enveloped: bool, p: PatchedInputs) -> (r: LpgPlan)
    ensures
        r == lpg_plan_spec(already_enveloped, p),
{
    if lpg_bypass(already_enveloped, p) {
        LpgPlan::Bypass
    } else if p.level_patched {
        LpgPlan::LowPass
    } else {
        LpgPlan::Ping
    }
}

/// The three engine parameters that take modulations.
#[derive(Clone, Copy, Debug, PartialEq, Eq, Structural)]
pub struct ParameterSources {
    pub note: ModulationSource,
    pub timbre: ModulationSource,
    pub morph: ModulationSource,
}

/// Each parameter takes its external input when it is patched, else the
/// internal envelope when the trigger is patched, else its default.
pub open spec fn parameter_sources_spec(p: PatchedInputs) -> ParameterSources {
    ParameterSources {
        note: modulation_source_spec(p.frequency_patched, p.trigger_patched),
        timbre: modulation_source_spec(p.timbre_patched, p.trigger_patched),
        morph: modulation_source_spec(p.morph_patched, p.trigger_patched),
    }
}

/// Computes `parameter_sources_spec`.
pub fn parameter_sources(p: PatchedInputs) -> (r: ParameterSources)
    ensures
        r == parameter_sources_spec(p),
{
    let use_internal_envelope = p.trigger_patched;
    ParameterSources {
        note: modulation_source(p.frequency_patched, use_internal_envelope),
        timbre: modulation_source(p.timbre_patched, use_internal_envelope),
        morph: modulation_source(p.morph_patched, use_internal_envelope),
    }
}

/// The trigger an engine sees: `Unpatched` whenever the trigger input is not
/// patched, whatever the edge and level; otherwise `RisingEdge` on an edge,
/// else `High` or `Low` by the level.
pub proof fn lemma_trigger_parameter(trigger_patched: bool, rising_edge: bool, high: bool)
    ensures
        !trigger_patched ==> trigger_parameter_spec(trigger_patched, rising_edge, high)
            == TriggerState::Unpatched,
        trigger_patched && rising_edge ==> trigger_parameter_spec(trigger_patched, rising_edge, high)
            == TriggerState::RisingEdge,
        trigger_patched && !rising_edge && high ==> trigger_parameter_spec(
            trigger_patched,
            rising_edge,
            high,
        ) == TriggerState::High,
        trigger_patched && !rising_edge && !high ==> trigger_parameter_spec(
            trigger_patched,
            rising_edge,
            high,
        ) == TriggerState::Low,
{
}

/// A parameter whose input is patched always takes the external input;
/// an unpatched one takes the internal envelope when the trigger is patched,
/// and its default otherwise.
pub proof fn lemma_parameter_sources(p: PatchedInputs)
    ensures
        p.frequency_patched ==> parameter_sources_spec(p).note == ModulationSource::External,
        p.timbre_patched ==> parameter_sources_spec(p).timbre == ModulationSource::External,
        p.morph_patched ==> parameter_sources_spec(p).morph == ModulationSource::External,
        !p.frequency_patched && p.trigger_patched ==> parameter_sources_spec(p).note
            == ModulationSource::InternalEnvelope,
        !p.timbre_patched && p.trigger_patched ==> parameter_sources_spec(p).timbre
            == ModulationSource::InternalEnvelope,
        !p.morph_patched && p.trigger_patched ==> parameter_sources_spec(p).morph
            == ModulationSource::InternalEnvelope,
        !p.frequency_patched && !p.trigger_patched ==> parameter_sources_spec(p).note
            == ModulationSource::Default,
        !p.timbre_patched && !p.trigger_patched ==> parameter_sources_spec(p).timbre
            == ModulationSource::Default,
        !p.morph_patched && !p.trigger_patched ==> parameter_sources_spec(p).morph
            == ModulationSource::Default,
{
}

/// The LPG is bypassed exactly for a self-enveloped engine or with neither
/// level nor trigger patched. Otherwise it follows the level input whenever
/// that is patched, whatever the trigger, and is pinged when it is not.
pub proof fn lemma_lpg_plan(already_enveloped: bool, p: PatchedInputs)
    ensures
        (lpg_plan_spec(already_enveloped, p) == LpgPlan::Bypass) == (already_enveloped || (
        !p.level_patched && !p.trigger_patched)),
        !already_enveloped && p.level_patched ==> lpg_plan_spec(already_enveloped, p)
            == LpgPlan::LowPass,
        !already_enveloped && !p.level_patched && p.trigger_patched ==> lpg_plan_spec(
            already_enveloped,
            p,
        ) == LpgPlan::Ping,
{
}

/// An engine that shapes its own envelope always bypasses the LPG, and so
/// does a voice with neither level nor trigger patched; a bypassed LPG is
/// exactly a `Bypass` plan.
pub proof fn lemma_lpg_bypass(already_enveloped: bool, p: PatchedInputs)
    ensures
        (lpg_plan_spec(already_enveloped, p) == LpgPlan::Bypass) == lpg_bypass_spec(already_enveloped, p),
        already_enveloped ==> lpg_bypass_spec(already_enveloped, p),
        !p.level_patched && !p.trigger_patched ==> lpg_bypass_spec(already_enveloped, p),
{
}

/// The internal envelope modulates a parameter only when the trigger is
/// patched and the parameter's own input is not.
pub proof fn lemma_envelope_needs_trigger(p: PatchedInputs)
    ensures
        (parameter_sources_spec(p).note == ModulationSource::InternalEnvelope) == (p.trigger_patched
            && !p.frequency_patched),
        (parameter_sources_spec(p).timbre == ModulationSource::InternalEnvelope) == (p.trigger_patched
            && !p.timbre_patched),
        (parameter_sources_spec(p).morph == ModulationSource::InternalEnvelope) == (p.trigger_patched
            && !p.morph_patched),
{
}

} // verus!
