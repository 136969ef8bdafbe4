//! The data that some engines load when they are selected.

use vstd::prelude::*;
use crate::engine::{engine_table, EngineKind};

verus! {

/// Resources used by some of the engines. The data is handed to an engine
/// when the engine is selected, or when a reload was asked for.
#[derive(Clone, Copy, Debug)]
pub struct Resources<'a> {
    /// Sysex bank for the six-operator engine in slot 2.
    pub syx_bank_a: &'a [u8; 4096],
    /// Sysex bank for the six-operator engine in slot 3.
    pub syx_bank_b: &'a [u8; 4096],
    /// Sysex bank for the six-operator engine in slot 4.
    pub syx_bank_c: &'a [u8; 4096],
    /// User terrain for the wave terrain engine; `None` for the built-in one.
    pub user_wave_terrain: Option<&'a [u8; 4096]>,
    /// Wavetables for the wavetable engine.
    pub wavetables: &'a [i16; 25344],
}

/// Which of the resources an engine slot loads.
#[derive(Clone, Copy, Debug, PartialEq, Eq, Structural)]
pub enum ResourceSlot {
    SyxBankA,
    SyxBankB,
    SyxBankC,
    UserWaveTerrain,
    Wavetables,
}

/// A resource, handed to the engine that loads it.
#[derive(Clone, Copy, Debug)]
pub enum ResourceLoad<'a> {
    /// A sysex bank for the six-operator engine.
    SyxBank(&'a [u8; 4096]),
    /// The terrain of the wave terrain engine.
    UserWaveTerrain(Option<&'a [u8; 4096]>),
    /// The wavetables of the wavetable engine.
    Wavetables(&'a [i16; 25344]),
}

/// The resource that engine slot `index` loads, if any.
pub open spec fn resource_slot_for(index: int) -> Option<ResourceSlot> {
    if index == 2 {
        Some(ResourceSlot::SyxBankA)
    } else if index == 3 {
        Some(ResourceSlot::SyxBankB)
    } else if index == 4 {
        Some(ResourceSlot::SyxBankC)
    } else if index == 5 {
        Some(ResourceSlot::UserWaveTerrain)
    } else if index == 13 {
        Some(ResourceSlot::Wavetables)
    } else {
        None
    }
}

/// The resource that engine slot `index` loads: the three sysex banks for
/// slots 2 to 4, the user terrain for slot 5 and the wavetables for slot 13.
pub fn resource_for_engine(index: usize) -> (r: Option<ResourceSlot>)
    ensures
        r == resource_slot_for(index as int),
{
    match index {
        2 => Some(ResourceSlot::SyxBankA),
        3 => Some(ResourceSlot::SyxBankB),
        4 => Some(ResourceSlot::SyxBankC),
        5 => Some(ResourceSlot::UserWaveTerrain),
        13 => Some(ResourceSlot::Wavetables),
        _ => None,
    }
}

impl<'a> Resources<'a> {
    /// The data held in `slot`.
    pub open spec fn load_spec(&self, slot: ResourceSlot) -> ResourceLoad<'a> {
        match slot {
            ResourceSlot::SyxBankA => ResourceLoad::SyxBank(self.syx_bank_a),
            ResourceSlot::SyxBankB => ResourceLoad::SyxBank(self.syx_bank_b),
            ResourceSlot::SyxBankC => ResourceLoad::SyxBank(self.syx_bank_c),
            ResourceSlot::UserWaveTerrain => ResourceLoad::UserWaveTerrain(self.user_wave_terrain),
            ResourceSlot::Wavetables => ResourceLoad::Wavetables(self.wavetables),
        }
    }

    /// Hands out the data held in `slot`.
    pub fn load(&self, slot: ResourceSlot) -> (r: ResourceLoad<'a>)
        ensures
            r == self.load_spec(slot),
    {
        match slot {
            ResourceSlot::SyxBankA => ResourceLoad::SyxBank(self.syx_bank_a),
            ResourceSlot::SyxBankB => ResourceLoad::SyxBank(self.syx_bank_b),
            ResourceSlot::SyxBankC => ResourceLoad::SyxBank(self.syx_bank_c),
            ResourceSlot::UserWaveTerrain => ResourceLoad::UserWaveTerrain(self.user_wave_terrain),
            ResourceSlot::Wavetables => ResourceLoad::Wavetables(self.wavetables),
        }
    }
}

/// Slot by slot, the resource loaded: the three sysex banks for slots 2, 3
/// and 4 in that order, the terrain for slot 5, the wavetables for slot 13,
/// and nothing for any other slot.
pub proof fn lemma_resource_slots(index: int)
    ensures
        resource_slot_for(2) == Some(ResourceSlot::SyxBankA),
        resource_slot_for(3) == Some(ResourceSlot::SyxBankB),
        resource_slot_for(4) == Some(ResourceSlot::SyxBankC),
        resource_slot_for(5) == Some(ResourceSlot::UserWaveTerrain),
        resource_slot_for(13) == Some(ResourceSlot::Wavetables),
        (resource_slot_for(index) is Some) == (2 <= index <= 5 || index == 13),
{
}

/// Only the engines that take external data load a resource: the sysex
/// banks go to the six-operator engine, the terrain to the wave terrain
/// engine and the wavetables to the wavetable engine.
pub proof fn lemma_resources_match_engines(index: int)
    requires
        resource_slot_for(index) is Some,
    ensures
        engine_table(index) is Some,
        match resource_slot_for(index).unwrap() {
            ResourceSlot::SyxBankA | ResourceSlot::SyxBankB | ResourceSlot::SyxBankC =>
                engine_table(index).unwrap().kind == EngineKind::SixOp,
            ResourceSlot::UserWaveTerrain => engine_table(index).unwrap().kind
                == EngineKind::WaveTerrain,
            ResourceSlot::Wavetables => engine_table(index).unwrap().kind == EngineKind::Wavetable,
        },
{
}

} // verus!
