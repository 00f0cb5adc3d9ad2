use vstd::prelude::*;

verus! {

/// Whether the weather vanes are unlocked from the start or shuffled into the pool.
#[derive(Clone, Copy, Debug, PartialEq, Eq, Hash, Structural)]
pub enum WeatherVanes {
    Standard,
    Shuffled,
}

/// Whether the portals between the worlds are shuffled.
#[derive(Clone, Copy, Debug, PartialEq, Eq, Hash, Structural)]
pub enum PortalShuffle {
    Off,
    On,
}

/// Which dungeon keys are taken out of the logic.
#[derive(Clone, Copy, Debug, PartialEq, Eq, Hash, Structural)]
pub enum Keysy {
    Off,
    SmallKeysy,
    BigKeysy,
    AllKeysy,
}

impl Keysy {
    /// Small keys are no longer required anywhere.
    pub open spec fn removes_small(self) -> bool {
        self == Keysy::SmallKeysy || self == Keysy::AllKeysy
    }

    /// Big keys are no longer required anywhere.
    pub open spec fn removes_big(self) -> bool {
        self == Keysy::BigKeysy || self == Keysy::AllKeysy
    }
}

/// The options of a generation run that the placement reads.
#[derive(Clone, Copy, Debug, PartialEq, Eq, Hash, Structural)]
pub struct Settings {
    pub weather_vanes: WeatherVanes,
    pub portal_shuffle: PortalShuffle,
    pub keysy: Keysy,
    pub progressive_bow_of_light: bool,
    pub dev_mode: bool,
}

} // verus!
