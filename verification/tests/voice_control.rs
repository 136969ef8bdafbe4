use plaits_voice::engine::{get_engine, EngineKind, Gain, NUM_ENGINES};
use plaits_voice::modulation::{
    accent_source, engine_setup, lpg_bypass, lpg_plan, modulation_source, parameter_sources,
    trigger_parameter, AccentSource, EngineSetup, LpgPlan, ModulationSource, PatchedInputs,
    TriggerState,
};
use plaits_voice::post_processor::{
    clip_16, to_i16_sample, ChannelPostProcessor, GateRoute, PostGain, StageState,
};
use plaits_voice::resources::{resource_for_engine, ResourceLoad, ResourceSlot, Resources};
use plaits_voice::voice::{engines_to_init, BlockInput, VoiceState};

fn patched(frequency: bool, timbre: bool, morph: bool, trigger: bool, level: bool) -> PatchedInputs {
    PatchedInputs {
        frequency_patched: frequency,
        timbre_patched: timbre,
        morph_patched: morph,
        trigger_patched: trigger,
        level_patched: level,
    }
}

fn block(above: bool, below: bool, engine: usize, p: PatchedInputs) -> BlockInput {
    BlockInput { trigger_above_high: above, trigger_below_low: below, quantized_engine: engine, patched: p }
}

#[test]
fn engine_table_entries() {
    let s = get_engine(0).unwrap();
    assert_eq!(s.kind, EngineKind::VirtualAnalogVcf);
    assert!(!s.already_enveloped);
    assert_eq!(s.out_gain, Gain { tenths: 10 });
    let s = get_engine(9).unwrap();
    assert_eq!(s.kind, EngineKind::Waveshaping);
    assert_eq!((s.out_gain.tenths, s.aux_gain.tenths), (7, 6));
    let s = get_engine(16).unwrap();
    assert_eq!(s.kind, EngineKind::Swarm);
    assert_eq!((s.out_gain.tenths, s.aux_gain.tenths), (-30, 10));
    let s = get_engine(19).unwrap();
    assert_eq!(s.kind, EngineKind::String);
    assert!(s.already_enveloped);
    assert_eq!(get_engine(23).unwrap().kind, EngineKind::Hihat);
    assert_eq!(get_engine(24), None);
    assert_eq!(get_engine(usize::MAX), None);
}

#[test]
fn six_op_serves_three_slots() {
    assert_eq!(get_engine(2), get_engine(3));
    assert_eq!(get_engine(3), get_engine(4));
    assert_eq!(get_engine(2).unwrap().kind, EngineKind::SixOp);
}

#[test]
fn negative_gains_only_on_limited_slots() {
    for i in 0..NUM_ENGINES {
        let s = get_engine(i).unwrap();
        assert_eq!(s.out_gain.tenths < 0, (15..=20).contains(&i));
        assert_eq!(s.aux_gain.tenths < 0, i == 17);
    }
}

#[test]
fn engines_to_init_one_per_slot() {
    let engines = engines_to_init();
    assert_eq!(engines.len(), 24);
    assert_eq!(engines[0], EngineKind::VirtualAnalogVcf);
    assert_eq!(&engines[2..5], &[EngineKind::SixOp; 3]);
    assert_eq!(engines[15], EngineKind::Speech);
    assert_eq!(engines[23], EngineKind::Hihat);
}

#[test]
fn resource_slots() {
    assert_eq!(resource_for_engine(2), Some(ResourceSlot::SyxBankA));
    assert_eq!(resource_for_engine(3), Some(ResourceSlot::SyxBankB));
    assert_eq!(resource_for_engine(4), Some(ResourceSlot::SyxBankC));
    assert_eq!(resource_for_engine(5), Some(ResourceSlot::UserWaveTerrain));
    assert_eq!(resource_for_engine(13), Some(ResourceSlot::Wavetables));
    assert_eq!(resource_for_engine(0), None);
    assert_eq!(resource_for_engine(14), None);
}

#[test]
fn resources_hand_out_their_data() {
    let a = [1u8; 4096];
    let b = [2u8; 4096];
    let c = [3u8; 4096];
    let t = [4u8; 4096];
    let w = vec![5i16; 25344];
    let w: &[i16; 25344] = w.as_slice().try_into().unwrap();
    let r = Resources { syx_bank_a: &a, syx_bank_b: &b, syx_bank_c: &c, user_wave_terrain: Some(&t), wavetables: w };
    match r.load(ResourceSlot::SyxBankB) {
        ResourceLoad::SyxBank(bank) => assert_eq!(bank[0], 2),
        _ => panic!("wrong resource"),
    }
    match r.load(ResourceSlot::UserWaveTerrain) {
        ResourceLoad::UserWaveTerrain(Some(terrain)) => assert_eq!(terrain[10], 4),
        _ => panic!("wrong resource"),
    }
    match r.load(ResourceSlot::Wavetables) {
        ResourceLoad::Wavetables(tables) => assert_eq!(tables[25343], 5),
        _ => panic!("wrong resource"),
    }
    let r2 = Resources { user_wave_terrain: None, ..r };
    assert!(matches!(r2.load(ResourceSlot::UserWaveTerrain), ResourceLoad::UserWaveTerrain(None)));
}

#[test]
fn post_processor_stages() {
    let mut p = ChannelPostProcessor::new();
    assert_eq!(p.limiter_state(), StageState::Constructed);
    assert_eq!(p.lpg_state(), StageState::Constructed);
    p.init();
    assert_eq!(p.limiter_state(), StageState::Initialized);
    assert_eq!(p.lpg_state(), StageState::Initialized);
    let plan = p.process(true, false);
    assert!(plan.limit);
    assert_eq!(plan.post_gain, PostGain::Unity);
    assert_eq!(plan.route, GateRoute::LowPassGate);
    assert_eq!(p.limiter_state(), StageState::Running);
    assert_eq!(p.lpg_state(), StageState::Running);
    p.reset();
    assert_eq!(p.limiter_state(), StageState::Initialized);
    assert_eq!(p.lpg_state(), StageState::Running);
    p.reset();
    assert_eq!(p.limiter_state(), StageState::Initialized);
}

#[test]
fn post_processor_plain_gain() {
    let mut p = ChannelPostProcessor::new();
    p.init();
    let plan = p.process(false, true);
    assert!(!plan.limit);
    assert_eq!(plan.post_gain, PostGain::Channel);
    assert_eq!(plan.route, GateRoute::Scale);
    assert_eq!(p.limiter_state(), StageState::Initialized);
    assert_eq!(p.lpg_state(), StageState::Initialized);
    let plan = p.process_to_i16(true, true);
    assert!(plan.limit);
    assert_eq!(plan.post_gain, PostGain::Unity);
    assert_eq!(plan.route, GateRoute::Scale);
    assert_eq!(p.lpg_state(), StageState::Initialized);
}

#[test]
fn clip_and_convert() {
    assert_eq!(clip_16(0), 0);
    assert_eq!(clip_16(32767), 32767);
    assert_eq!(clip_16(32768), 32767);
    assert_eq!(clip_16(-32768), -32768);
    assert_eq!(clip_16(-32769), -32768);
    assert_eq!(clip_16(i32::MIN), -32768);
    assert_eq!(to_i16_sample(-1), 0);
    assert_eq!(to_i16_sample(100), 101);
    assert_eq!(to_i16_sample(32766), 32767);
    assert_eq!(to_i16_sample(32767), 32767);
    assert_eq!(to_i16_sample(-32769), -32768);
    assert_eq!(to_i16_sample(i32::MIN), -32768);
    assert_eq!(to_i16_sample(i32::MAX - 1), 32767);
}

#[test]
fn trigger_hysteresis() {
    let mut v = VoiceState::new();
    let p = patched(false, false, false, true, false);
    // Between the thresholds: a low trigger stays low.
    let s = v.trigger_step(false, false, p);
    assert!(!s.high && !s.rising_edge && !s.trigger_decay_envelope);
    // Above the upper threshold: rising edge.
    let s = v.trigger_step(true, false, p);
    assert!(s.high && s.rising_edge && s.trigger_decay_envelope && s.trigger_lpg_envelope);
    assert!(s.update_engine_cv);
    // Still above: high, no second edge.
    let s = v.trigger_step(true, false, p);
    assert!(s.high && !s.rising_edge && !s.trigger_decay_envelope && !s.update_engine_cv);
    // Between the thresholds: a high trigger stays high.
    let s = v.trigger_step(false, false, p);
    assert!(s.high && s.previous_high);
    // Below the lower threshold: low.
    let s = v.trigger_step(false, true, p);
    assert!(!s.high && s.previous_high && !s.rising_edge);
}

#[test]
fn trigger_with_level_patched_spares_lpg_envelope() {
    let mut v = VoiceState::new();
    let s = v.trigger_step(true, false, patched(false, false, false, true, true));
    assert!(s.rising_edge && s.trigger_decay_envelope && !s.trigger_lpg_envelope);
}

#[test]
fn engine_cv_follows_unpatched_trigger() {
    let mut v = VoiceState::new();
    let s = v.trigger_step(false, false, patched(false, false, false, false, false));
    assert!(s.update_engine_cv && !s.rising_edge);
    let s = v.trigger_step(false, false, patched(false, false, false, true, false));
    assert!(!s.update_engine_cv);
}

#[test]
fn engine_selection_and_reload() {
    let mut v = VoiceState::new();
    assert_eq!(v.active_engine(), 0);
    let c = v.select_engine(0);
    assert!(!c.reset);
    assert_eq!(c.load, None);
    let c = v.select_engine(3);
    assert!(c.reset);
    assert_eq!(c.engine_index, 3);
    assert_eq!(c.load, Some(ResourceSlot::SyxBankB));
    assert_eq!(c.slot.kind, EngineKind::SixOp);
    assert_eq!(v.active_engine(), 3);
    let c = v.select_engine(3);
    assert!(!c.reset);
    assert_eq!(c.load, None);
    v.reload_resources();
    let c = v.select_engine(3);
    assert!(c.reset);
    assert_eq!(c.load, Some(ResourceSlot::SyxBankB));
    let c = v.select_engine(3);
    assert!(!c.reset);
    let c = v.select_engine(10);
    assert!(c.reset);
    assert_eq!(c.load, None);
    assert_eq!(v.active_engine(), 10);
}

#[test]
fn trigger_parameter_values() {
    assert_eq!(trigger_parameter(false, true, true), TriggerState::Unpatched);
    assert_eq!(trigger_parameter(true, true, true), TriggerState::RisingEdge);
    assert_eq!(trigger_parameter(true, false, true), TriggerState::High);
    assert_eq!(trigger_parameter(true, false, false), TriggerState::Low);
}

#[test]
fn modulation_routing() {
    assert_eq!(modulation_source(true, true), ModulationSource::External);
    assert_eq!(modulation_source(false, true), ModulationSource::InternalEnvelope);
    assert_eq!(modulation_source(false, false), ModulationSource::Default);
    let s = parameter_sources(patched(true, false, false, true, false));
    assert_eq!(s.note, ModulationSource::External);
    assert_eq!(s.timbre, ModulationSource::InternalEnvelope);
    assert_eq!(s.morph, ModulationSource::InternalEnvelope);
    let s = parameter_sources(patched(false, false, true, false, false));
    assert_eq!(s.note, ModulationSource::Default);
    assert_eq!(s.morph, ModulationSource::External);
    assert_eq!(accent_source(true), AccentSource::Level);
    assert_eq!(accent_source(false), AccentSource::Default);
}

#[test]
fn engine_specific_setup() {
    assert_eq!(
        engine_setup(15, patched(false, false, true, true, false)),
        EngineSetup::Speech { prosody_from_patch: true, speed_from_patch: false }
    );
    assert_eq!(
        engine_setup(15, patched(false, false, false, false, false)),
        EngineSetup::Speech { prosody_from_patch: false, speed_from_patch: false }
    );
    assert_eq!(
        engine_setup(7, patched(false, false, false, true, false)),
        EngineSetup::Chiptune { envelope_from_timbre: true }
    );
    assert_eq!(
        engine_setup(7, patched(false, true, false, true, false)),
        EngineSetup::Chiptune { envelope_from_timbre: false }
    );
    assert_eq!(engine_setup(8, patched(true, true, true, true, true)), EngineSetup::Plain);
}

#[test]
fn lpg_decisions() {
    assert!(lpg_bypass(true, patched(false, false, false, true, true)));
    assert!(lpg_bypass(false, patched(true, true, true, false, false)));
    assert!(!lpg_bypass(false, patched(false, false, false, true, false)));
    assert_eq!(lpg_plan(false, patched(false, false, false, false, true)), LpgPlan::LowPass);
    assert_eq!(lpg_plan(false, patched(false, false, false, true, false)), LpgPlan::Ping);
    assert_eq!(lpg_plan(true, patched(false, false, false, true, true)), LpgPlan::Bypass);
}

#[test]
fn render_plan_for_a_block() {
    let mut v = VoiceState::new();
    let engines = v.init();
    assert_eq!(engines.len(), 24);
    let p = patched(false, false, false, true, false);
    let plan = v.plan_render(block(true, false, 15, p));
    assert!(plan.trigger.rising_edge);
    assert_eq!(plan.trigger_parameter, TriggerState::RisingEdge);
    assert!(plan.engine.reset);
    assert_eq!(plan.engine.slot.kind, EngineKind::Speech);
    assert_eq!(plan.accent, AccentSource::Default);
    assert!(plan.use_internal_envelope);
    assert_eq!(plan.sources.note, ModulationSource::InternalEnvelope);
    assert_eq!(plan.setup, EngineSetup::Speech { prosody_from_patch: true, speed_from_patch: true });
    let f = v.finish_render(false, p);
    assert!(!f.bypass_lpg);
    assert_eq!(f.lpg, LpgPlan::Ping);
    assert!(f.out.limit);
    assert_eq!(f.out.route, GateRoute::LowPassGate);
    assert!(!f.aux.limit);
    assert_eq!(f.aux.post_gain, PostGain::Channel);
    let plan = v.plan_render(block(true, false, 15, p));
    assert!(!plan.engine.reset);
    assert!(!plan.trigger.rising_edge);
    assert_eq!(plan.trigger_parameter, TriggerState::High);
}

#[test]
fn enveloped_engine_bypasses_gate() {
    let mut v = VoiceState::new();
    v.init();
    let p = patched(false, false, false, true, true);
    let plan = v.plan_render(block(false, false, 21, p));
    assert!(plan.engine.reset);
    assert!(plan.engine.slot.already_enveloped);
    let f = v.finish_render(plan.engine.slot.already_enveloped, p);
    assert!(f.bypass_lpg);
    assert_eq!(f.lpg, LpgPlan::Bypass);
    assert_eq!(f.out.route, GateRoute::Scale);
    assert_eq!(f.aux.route, GateRoute::Scale);
    assert!(!f.out.limit);
}

#[test]
fn engine_change_resets_main_limiter_only() {
    let mut v = VoiceState::new();
    v.init();
    let p = patched(false, false, false, true, false);
    v.plan_render(block(false, false, 17, p));
    v.finish_render(false, p);
    assert_eq!(v.out_post_processor().limiter_state(), StageState::Running);
    assert_eq!(v.out_post_processor().lpg_state(), StageState::Running);
    assert_eq!(v.aux_post_processor().limiter_state(), StageState::Running);
    let plan = v.plan_render(block(false, false, 0, p));
    assert!(plan.engine.reset);
    assert_eq!(v.out_post_processor().limiter_state(), StageState::Initialized);
    assert_eq!(v.out_post_processor().lpg_state(), StageState::Running);
    assert_eq!(v.aux_post_processor().limiter_state(), StageState::Running);
    // No change: nothing is reset.
    v.finish_render(false, p);
    v.plan_render(block(false, false, 0, p));
    assert_eq!(v.aux_post_processor().limiter_state(), StageState::Running);
}

#[test]
fn init_initialises_both_post_processors() {
    let mut v = VoiceState::new();
    assert_eq!(v.out_post_processor().limiter_state(), StageState::Constructed);
    v.init();
    assert_eq!(v.out_post_processor().lpg_state(), StageState::Initialized);
    assert_eq!(v.aux_post_processor().limiter_state(), StageState::Initialized);
    assert_eq!(v.aux_post_processor().lpg_state(), StageState::Initialized);
}

#[test]
fn resources_only_for_data_engines() {
    for i in 0..NUM_ENGINES {
        if let Some(slot) = resource_for_engine(i) {
            let kind = get_engine(i).unwrap().kind;
            match slot {
                ResourceSlot::SyxBankA | ResourceSlot::SyxBankB | ResourceSlot::SyxBankC => {
                    assert_eq!(kind, EngineKind::SixOp)
                }
                ResourceSlot::UserWaveTerrain => assert_eq!(kind, EngineKind::WaveTerrain),
                ResourceSlot::Wavetables => assert_eq!(kind, EngineKind::Wavetable),
            }
        }
    }
}
