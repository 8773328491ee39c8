//! A preset: a named bundle of optional power and thermal limits.

use vstd::prelude::*;

verus! {

/// A named bundle of tuning limits. A limit that is `None` is left alone when
/// the preset is applied; it does not stand for zero.
#[derive(Debug)]
pub struct Preset {
    /// Display label, and the key by which the preset is looked up.
    pub name: String,
    pub stapm_limit: Option<u32>,
    pub fast_limit: Option<u32>,
    pub slow_limit: Option<u32>,
    pub slow_time: Option<u32>,
    pub tctl_temp: Option<u32>,
    pub apu_skin_temp: Option<u32>,
    pub dgpu_skin_temp: Option<u32>,
    /// Carried with the preset; no argument of the power tool is derived from it.
    pub power_saving: bool,
    /// Carried with the preset; no argument of the power tool is derived from it.
    pub max_performance: bool,
}

/// What a preset says, with its name as a sequence of characters.
pub struct PresetModel {
    pub name: Seq<char>,
    pub stapm_limit: Option<u32>,
    pub fast_limit: Option<u32>,
    pub slow_limit: Option<u32>,
    pub slow_time: Option<u32>,
    pub tctl_temp: Option<u32>,
    pub apu_skin_temp: Option<u32>,
    pub dgpu_skin_temp: Option<u32>,
    pub power_saving: bool,
    pub max_performance: bool,
}

impl PresetModel {
    /// True when none of the seven limits is set.
    pub open spec fn has_no_limit(self) -> bool {
        &&& self.stapm_limit is None
        &&& self.fast_limit is None
        &&& self.slow_limit is None
        &&& self.slow_time is None
        &&& self.tctl_temp is None
        &&& self.apu_skin_temp is None
        &&& self.dgpu_skin_temp is None
    }
}

impl View for Preset {
    type V = PresetModel;

    open spec fn view(&self) -> PresetModel {
        PresetModel {
            name: self.name@,
            stapm_limit: self.stapm_limit,
            fast_limit: self.fast_limit,
            slow_limit: self.slow_limit,
            slow_time: self.slow_time,
            tctl_temp: self.tctl_temp,
            apu_skin_temp: self.apu_skin_temp,
            dgpu_skin_temp: self.dgpu_skin_temp,
            power_saving: self.power_saving,
            max_performance: self.max_performance,
        }
    }
}

impl DeepView for Preset {
    type V = PresetModel;

    open spec fn deep_view(&self) -> PresetModel {
        self@
    }
}

impl Clone for Preset {
    fn clone(&self) -> (copy: Self)
        ensures
            copy == *self,
    {
        Preset {
            name: self.name.clone(),
            stapm_limit: self.stapm_limit,
            fast_limit: self.fast_limit,
            slow_limit: self.slow_limit,
            slow_time: self.slow_time,
            tctl_temp: self.tctl_temp,
            apu_skin_temp: self.apu_skin_temp,
            dgpu_skin_temp: self.dgpu_skin_temp,
            power_saving: self.power_saving,
            max_performance: self.max_performance,
        }
    }
}

impl PartialEq for Preset {
    /// Two presets are equal when they say the same: the same name and the
    /// same value in every field.
    fn eq(&self, other: &Self) -> (same: bool) {
        self.name == other.name && self.stapm_limit == other.stapm_limit && self.fast_limit
            == other.fast_limit && self.slow_limit == other.slow_limit && self.slow_time
            == other.slow_time && self.tctl_temp == other.tctl_temp && self.apu_skin_temp
            == other.apu_skin_temp && self.dgpu_skin_temp == other.dgpu_skin_temp
            && self.power_saving == other.power_saving && self.max_performance
            == other.max_performance
    }
}

impl vstd::std_specs::cmp::PartialEqSpecImpl for Preset {
    open spec fn obeys_eq_spec() -> bool {
        true
    }

    open spec fn eq_spec(&self, other: &Self) -> bool {
        self@ == other@
    }
}

} // verus!
