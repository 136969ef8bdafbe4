//! The table of synthesis engines that a voice can select.

use vstd::prelude::*;

verus! {

/// Number of engines a voice can select from.
pub const NUM_ENGINES: usize = 24;

/// The synthesis engines of a voice. Several table slots may refer to the
/// same engine (the six-operator FM engine serves three slots).
#[derive(Clone, Copy, Debug, PartialEq, Eq, Structural)]
pub enum EngineKind {
    VirtualAnalogVcf,
    PhaseDistortion,
    SixOp,
    WaveTerrain,
    StringMachine,
    Chiptune,
    VirtualAnalog,
    Waveshaping,
    Fm,
    Grain,
    Additive,
    Wavetable,
    Chord,
    Speech,
    Swarm,
    Noise,
    Particle,
    String,
    Modal,
    BassDrum,
    SnareDrum,
    Hihat,
}

/// A channel gain, in tenths. A negative gain asks the post-processor to run
/// its limiter with the opposite gain.
#[derive(Clone, Copy, Debug, PartialEq, Eq, Structural)]
pub struct Gain {
    pub tenths: i32,
}

/// What a table slot holds: the engine, whether the engine shapes its own
/// amplitude envelope, and the gains of the main and auxiliary outputs.
#[derive(Clone, Copy, Debug, PartialEq, Eq, Structural)]
pub struct EngineSlot {
    pub kind: EngineKind,
    pub already_enveloped: bool,
    pub out_gain: Gain,
    pub aux_gain: Gain,
}

/// The slot value built from its four parts.
pub open spec fn slot(kind: EngineKind, enveloped: bool, out: int, aux: int) -> EngineSlot {
    EngineSlot {
        kind,
        already_enveloped: enveloped,
        out_gain: Gain { tenths: out as i32 },
        aux_gain: Gain { tenths: aux as i32 },
    }
}

/// The engine table: the slot at `index`, or `None` past the last engine.
pub open spec fn engine_table(index: int) -> Option<EngineSlot> {
    if index == 0 {
        Some(slot(EngineKind::VirtualAnalogVcf, false, 10, 10))
    } else if index == 1 {
        Some(slot(EngineKind::PhaseDistortion, false, 7, 7))
    } else if 2 <= index <= 4 {
        Some(slot(EngineKind::SixOp, true, 10, 10))
    } else if index == 5 {
        Some(slot(EngineKind::WaveTerrain, false, 7, 7))
    } else if index == 6 {
        Some(slot(EngineKind::StringMachine, false, 8, 8))
    } else if index == 7 {
        Some(slot(EngineKind::Chiptune, false, 5, 5))
    } else if index == 8 {
        Some(slot(EngineKind::VirtualAnalog, false, 8, 8))
    } else if index == 9 {
        Some(slot(EngineKind::Waveshaping, false, 7, 6))
    } else if index == 10 {
        Some(slot(EngineKind::Fm, false, 6, 6))
    } else if index == 11 {
        Some(slot(EngineKind::Grain, false, 7, 6))
    } else if index == 12 {
        Some(slot(EngineKind::Additive, false, 8, 8))
    } else if index == 13 {
        Some(slot(EngineKind::Wavetable, false, 6, 6))
    } else if index == 14 {
        Some(slot(EngineKind::Chord, false, 8, 8))
    } else if index == 15 {
        Some(slot(EngineKind::Speech, false, -7, 8))
    } else if index == 16 {
        Some(slot(EngineKind::Swarm, false, -30, 10))
    } else if index == 17 {
        Some(slot(EngineKind::Noise, false, -10, -10))
    } else if index == 18 {
        Some(slot(EngineKind::Particle, false, -20, 10))
    } else if index == 19 {
        Some(slot(EngineKind::String, true, -10, 8))
    } else if index == 20 {
        Some(slot(EngineKind::Modal, true, -10, 8))
    } else if index == 21 {
        Some(slot(EngineKind::BassDrum, true, 8, 8))
    } else if index == 22 {
        Some(slot(EngineKind::SnareDrum, true, 8, 8))
    } else if index == 23 {
        Some(slot(EngineKind::Hihat, true, 8, 8))
    } else {
        None
    }
}

fn make_slot(kind: EngineKind, enveloped: bool, out: i32, aux: i32) -> (s: EngineSlot)
    ensures
        s == slot(kind, enveloped, out as int, aux as int),
{
    EngineSlot {
        kind,
        already_enveloped: enveloped,
        out_gain: Gain { tenths: out },
        aux_gain: Gain { tenths: aux },
    }
}

/// The table slot of engine `index`: `Some` exactly for the indices below
/// `NUM_ENGINES`, and then the slot that `engine_table` gives.
pub fn get_engine(index: usize) -> (r: Option<EngineSlot>)
    ensures
        r == engine_table(index as int),
        r is Some <==> index < NUM_ENGINES,
{
    match index {
        0 => Some(make_slot(EngineKind::VirtualAnalogVcf, false, 10, 10)),
        1 => Some(make_slot(EngineKind::PhaseDistortion, false, 7, 7)),
        2 => Some(make_slot(EngineKind::SixOp, true, 10, 10)),
        3 => Some(make_slot(EngineKind::SixOp, true, 10, 10)),
        4 => Some(make_slot(EngineKind::SixOp, true, 10, 10)),
        5 => Some(make_slot(EngineKind::WaveTerrain, false, 7, 7)),
        6 => Some(make_slot(EngineKind::StringMachine, false, 8, 8)),
        7 => Some(make_slot(EngineKind::Chiptune, false, 5, 5)),
        8 => Some(make_slot(EngineKind::VirtualAnalog, false, 8, 8)),
        9 => Some(make_slot(EngineKind::Waveshaping, false, 7, 6)),
        10 => Some(make_slot(EngineKind::Fm, false, 6, 6)),
        11 => Some(make_slot(EngineKind::Grain, false, 7, 6)),
        12 => Some(make_slot(EngineKind::Additive, false, 8, 8)),
        13 => Some(make_slot(EngineKind::Wavetable, false, 6, 6)),
        14 => Some(make_slot(EngineKind::Chord, false, 8, 8)),
        15 => Some(make_slot(EngineKind::Speech, false, -7, 8)),
        16 => Some(make_slot(EngineKind::Swarm, false, -30, 10)),
        17 => Some(make_slot(EngineKind::Noise, false, -10, -10)),
        18 => Some(make_slot(EngineKind::Particle, false, -20, 10)),
        19 => Some(make_slot(EngineKind::String, true, -10, 8)),
        20 => Some(make_slot(EngineKind::Modal, true, -10, 8)),
        21 => Some(make_slot(EngineKind::BassDrum, true, 8, 8)),
        22 => Some(make_slot(EngineKind::SnareDrum, true, 8, 8)),
        23 => Some(make_slot(EngineKind::Hihat, true, 8, 8)),
        _ => None,
    }
}

/// Each slot holds its engine: slot by slot, the engine, whether it shapes
/// its own envelope, and its main and auxiliary gains in tenths.
pub proof fn lemma_slot_contents()
    ensures
        engine_table(0) == Some(slot(EngineKind::VirtualAnalogVcf, false, 10, 10)),
        engine_table(1) == Some(slot(EngineKind::PhaseDistortion, false, 7, 7)),
        engine_table(2) == Some(slot(EngineKind::SixOp, true, 10, 10)),
        engine_table(3) == Some(slot(EngineKind::SixOp, true, 10, 10)),
        engine_table(4) == Some(slot(EngineKind::SixOp, true, 10, 10)),
        engine_table(5) == Some(slot(EngineKind::WaveTerrain, false, 7, 7)),
        engine_table(6) == Some(slot(EngineKind::StringMachine, false, 8, 8)),
        engine_table(7) == Some(slot(EngineKind::Chiptune, false, 5, 5)),
        engine_table(8) == Some(slot(EngineKind::VirtualAnalog, false, 8, 8)),
        engine_table(9) == Some(slot(EngineKind::Waveshaping, false, 7, 6)),
        engine_table(10) == Some(slot(EngineKind::Fm, false, 6, 6)),
        engine_table(11) == Some(slot(EngineKind::Grain, false, 7, 6)),
        engine_table(12) == Some(slot(EngineKind::Additive, false, 8, 8)),
        engine_table(13) == Some(slot(EngineKind::Wavetable, false, 6, 6)),
        engine_table(14) == Some(slot(EngineKind::Chord, false, 8, 8)),
        engine_table(15) == Some(slot(EngineKind::Speech, false, -7, 8)),
        engine_table(16) == Some(slot(EngineKind::Swarm, false, -30, 10)),
        engine_table(17) == Some(slot(EngineKind::Noise, false, -10, -10)),
        engine_table(18) == Some(slot(EngineKind::Particle, false, -20, 10)),
        engine_table(19) == Some(slot(EngineKind::String, true, -10, 8)),
        engine_table(20) == Some(slot(EngineKind::Modal, true, -10, 8)),
        engine_table(21) == Some(slot(EngineKind::BassDrum, true, 8, 8)),
        engine_table(22) == Some(slot(EngineKind::SnareDrum, true, 8, 8)),
        engine_table(23) == Some(slot(EngineKind::Hihat, true, 8, 8)),
        forall|i: int| (i < 0 || i >= NUM_ENGINES) ==> engine_table(i) is None,
{
}

/// Two different slots hold the same engine only when both are among the
/// six-operator slots 2, 3 and 4.
pub proof fn lemma_slots_hold_distinct_engines(i: int, j: int)
    requires
        0 <= i < NUM_ENGINES,
        0 <= j < NUM_ENGINES,
        i != j,
        engine_table(i).unwrap().kind == engine_table(j).unwrap().kind,
    ensures
        2 <= i <= 4,
        2 <= j <= 4,
{
}

/// The six-operator engine serves slots 2, 3 and 4 with one table entry.
pub proof fn lemma_six_op_slots()
    ensures
        engine_table(2) == engine_table(3),
        engine_table(3) == engine_table(4),
        engine_table(2).unwrap().kind == EngineKind::SixOp,
{
}

/// The main output runs through the limiter (its gain is negative) exactly
/// for slots 15 to 20; the auxiliary output only for slot 17. The engines
/// that shape their own envelope are those of slots 2 to 4 and 19 to 23.
/// Every gain lies between -3 and 1.
pub proof fn lemma_table_shape(index: int)
    requires
        0 <= index < NUM_ENGINES,
    ensures
        engine_table(index) is Some,
        (engine_table(index).unwrap().out_gain.tenths < 0) == (15 <= index <= 20),
        (engine_table(index).unwrap().aux_gain.tenths < 0) == (index == 17),
        engine_table(index).unwrap().already_enveloped == (2 <= index <= 4 || 19 <= index <= 23),
        -30 <= engine_table(index).unwrap().out_gain.tenths <= 10,
        -30 <= engine_table(index).unwrap().aux_gain.tenths <= 10,
{
}

} // verus!
