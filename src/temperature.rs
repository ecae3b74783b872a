//! The temperatures at which a material changes state or takes damage.
use vstd::prelude::*;

verus! {

/// Temperatures of a material, in the game's own degrees; zero means unset.
#[derive(Clone, Copy, Debug, PartialEq, Eq, Structural)]
pub struct Temperatures {
    /// How much heat the material holds before its temperature changes.
    pub specific_heat: u32,
    /// The temperature at which the material catches fire.
    pub ignition_point: u32,
    /// The temperature at which the material melts or freezes.
    pub melting_point: u32,
    /// The temperature at which the material boils or condenses.
    pub boiling_point: u32,
    /// The temperature above which the material takes heat damage.
    pub heat_damage_point: u32,
    /// The temperature below which the material takes frost damage.
    pub cold_damage_point: u32,
    /// A temperature that the material always keeps.
    pub material_fixed_temperature: u32,
}

/// Temperatures with nothing set.
pub open spec fn no_temperatures() -> Temperatures {
    Temperatures {
        specific_heat: 0,
        ignition_point: 0,
        melting_point: 0,
        boiling_point: 0,
        heat_damage_point: 0,
        cold_damage_point: 0,
        material_fixed_temperature: 0,
    }
}

impl Temperatures {
    /// Temperatures with nothing set.
    pub fn new() -> (r: Temperatures)
        ensures
            r == no_temperatures(),
    {
        Temperatures {
            specific_heat: 0,
            ignition_point: 0,
            melting_point: 0,
            boiling_point: 0,
            heat_damage_point: 0,
            cold_damage_point: 0,
            material_fixed_temperature: 0,
        }
    }

    /// Whether no temperature is set.
    pub fn is_empty(&self) -> (r: bool)
        ensures
            r == (*self == no_temperatures()),
    {
        self.specific_heat == 0 && self.ignition_point == 0 && self.melting_point == 0
            && self.boiling_point == 0 && self.heat_damage_point == 0 && self.cold_damage_point
            == 0 && self.material_fixed_temperature == 0
    }

    pub fn update_specific_heat(&mut self, value: u32)
        ensures
            *final(self) == (Temperatures { specific_heat: value, ..*old(self) }),
    {
        self.specific_heat = value;
    }

    pub fn update_ignition_point(&mut self, value: u32)
        ensures
            *final(self) == (Temperatures { ignition_point: value, ..*old(self) }),
    {
        self.ignition_point = value;
    }

    pub fn update_melting_point(&mut self, value: u32)
        ensures
            *final(self) == (Temperatures { melting_point: value, ..*old(self) }),
    {
        self.melting_point = value;
    }

    pub fn update_boiling_point(&mut self, value: u32)
        ensures
            *final(self) == (Temperatures { boiling_point: value, ..*old(self) }),
    {
        self.boiling_point = value;
    }

    pub fn update_heat_damage_point(&mut self, value: u32)
        ensures
            *final(self) == (Temperatures { heat_damage_point: value, ..*old(self) }),
    {
        self.heat_damage_point = value;
    }

    pub fn update_cold_damage_point(&mut self, value: u32)
        ensures
            *final(self) == (Temperatures { cold_damage_point: value, ..*old(self) }),
    {
        self.cold_damage_point = value;
    }

    pub fn update_material_fixed_temperature(&mut self, value: u32)
        ensures
            *final(self) == (Temperatures { material_fixed_temperature: value, ..*old(self) }),
    {
        self.material_fixed_temperature = value;
    }
}

} // verus!
