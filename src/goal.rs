use vstd::prelude::*;

use crate::hint_color::HintColor;

verus! {

/// A quest event: a boss defeated, a door opened, the win condition.
#[derive(Clone, Copy, Debug, PartialEq, Eq, Hash, Structural)]
pub enum Goal {
    // Bosses
    Yuga,
    Margomill,
    Moldorm,
    GemesaurKing,
    Arrghus,
    Knucklemaster,
    Stalblind,
    Grinexx,
    Zaganaga,
    Dharkstare,

    // The rest
    RavioSigns,
    RavioShopOpen,
    OpenSanctuaryDoors,
    ShadyGuyTrigger,
    BigBombFlower,
    StylishWomansHouseOpen,
    WomanRoofMaiamai,
    SkullEyeRight,
    SkullEyeLeft,
    ThievesB1DoorOpen,
    ThievesB2DoorOpen,
    ThievesB3WaterDrained,
    TurtleFlipped,
    TurtleAttacked,
    TurtleWall,
    AccessPotionShop,
    AccessMilkBar,
    AccessFairyFountain,
    AccessHyruleBlacksmith,
    AccessLoruleCastleField,
    LcBombTrial,
    LcTileTrial,
    LcLampTrial,
    LcHookTrial,
    Triforce,
}

impl Goal {
    /// The display name of the goal.
    pub open spec fn name(self) -> &'static str {
        match self {
            Goal::Yuga => "Yuga",
            Goal::Margomill => "Margomill",
            Goal::Moldorm => "Moldorm",
            Goal::GemesaurKing => "Gemesaur King",
            Goal::Arrghus => "Arrghus",
            Goal::Knucklemaster => "Knucklemaster",
            Goal::Stalblind => "Stalblind",
            Goal::Grinexx => "Grinexx",
            Goal::Zaganaga => "Zaganaga",
            Goal::Dharkstare => "Dharkstare",
            Goal::RavioSigns => "Ravio's Signs Seen",
            Goal::RavioShopOpen => "Ravio's Shop Open",
            Goal::OpenSanctuaryDoors => "Sanctuary Doors Opened",
            Goal::ShadyGuyTrigger => "Shady Guy Trigger",
            Goal::BigBombFlower => "Big Bomb Flower",
            Goal::StylishWomansHouseOpen => "Stylish Woman's House Opened",
            Goal::WomanRoofMaiamai => "Woman's Roof Maiamai",
            Goal::SkullEyeRight => "Skull Woods Right Eye",
            Goal::SkullEyeLeft => "Skull Woods Left Eye",
            Goal::ThievesB1DoorOpen => "Thieves' Hideout B1 Door Open",
            Goal::ThievesB2DoorOpen => "Thieves' Hideout B2 Door Open",
            Goal::ThievesB3WaterDrained => "Thieves' Hideout B3 Water Drained",
            Goal::TurtleFlipped => "Turtle Flipped",
            Goal::TurtleAttacked => "Turtle Bullied",
            Goal::TurtleWall => "Turtle Wall",
            Goal::AccessPotionShop => "Potion Shop Access",
            Goal::AccessMilkBar => "Milk Bar Access",
            Goal::AccessFairyFountain => "Fairy Fountain Access",
            Goal::AccessHyruleBlacksmith => "Hyrule Blacksmith Access",
            Goal::AccessLoruleCastleField => "Lorule Castle Field Access",
            Goal::LcBombTrial => "Bomb Trial Complete",
            Goal::LcTileTrial => "Tile Trial Complete",
            Goal::LcLampTrial => "Lamp Trial Complete",
            Goal::LcHookTrial => "Hook Trial Complete",
            Goal::Triforce => "Triforce",
        }
    }

    /// The colour in which the goal is named in a message.
    pub open spec fn color(self) -> HintColor {
        match self {
            Goal::Yuga => HintColor::Green,
            Goal::Margomill => HintColor::Blue,
            Goal::Moldorm => HintColor::Attention,
            Goal::GemesaurKing => HintColor::Green,
            Goal::Arrghus => HintColor::Beige,
            Goal::Knucklemaster => HintColor::Blue,
            Goal::Stalblind => HintColor::Beige,
            Goal::Grinexx => HintColor::Purple,
            Goal::Zaganaga => HintColor::Name,
            Goal::Dharkstare => HintColor::Attention,
            _ => HintColor::Name,
        }
    }

    pub fn as_str(&self) -> (r: &'static str)
        ensures
            r == self.name(),
    {
        match *self {
            Goal::Yuga => "Yuga",
            Goal::Margomill => "Margomill",
            Goal::Moldorm => "Moldorm",
            Goal::GemesaurKing => "Gemesaur King",
            Goal::Arrghus => "Arrghus",
            Goal::Knucklemaster => "Knucklemaster",
            Goal::Stalblind => "Stalblind",
            Goal::Grinexx => "Grinexx",
            Goal::Zaganaga => "Zaganaga",
            Goal::Dharkstare => "Dharkstare",
            Goal::RavioSigns => "Ravio's Signs Seen",
            Goal::RavioShopOpen => "Ravio's Shop Open",
            Goal::OpenSanctuaryDoors => "Sanctuary Doors Opened",
            Goal::ShadyGuyTrigger => "Shady Guy Trigger",
            Goal::BigBombFlower => "Big Bomb Flower",
            Goal::StylishWomansHouseOpen => "Stylish Woman's House Opened",
            Goal::WomanRoofMaiamai => "Woman's Roof Maiamai",
            Goal::SkullEyeRight => "Skull Woods Right Eye",
            Goal::SkullEyeLeft => "Skull Woods Left Eye",
            Goal::ThievesB1DoorOpen => "Thieves' Hideout B1 Door Open",
            Goal::ThievesB2DoorOpen => "Thieves' Hideout B2 Door Open",
            Goal::ThievesB3WaterDrained => "Thieves' Hideout B3 Water Drained",
            Goal::TurtleFlipped => "Turtle Flipped",
            Goal::TurtleAttacked => "Turtle Bullied",
            Goal::TurtleWall => "Turtle Wall",
            Goal::AccessPotionShop => "Potion Shop Access",
            Goal::AccessMilkBar => "Milk Bar Access",
            Goal::AccessFairyFountain => "Fairy Fountain Access",
            Goal::AccessHyruleBlacksmith => "Hyrule Blacksmith Access",
            Goal::AccessLoruleCastleField => "Lorule Castle Field Access",
            Goal::LcBombTrial => "Bomb Trial Complete",
            Goal::LcTileTrial => "Tile Trial Complete",
            Goal::LcLampTrial => "Lamp Trial Complete",
            Goal::LcHookTrial => "Hook Trial Complete",
            Goal::Triforce => "Triforce",
        }
    }

    pub fn as_str_colorized(&self) -> (r: String)
        ensures
            r@ == self.color().markup(self.name()@),
    {
        let color = match *self {
            Goal::Yuga => HintColor::Green,
            Goal::Margomill => HintColor::Blue,
            Goal::Moldorm => HintColor::Attention,
            Goal::GemesaurKing => HintColor::Green,
            Goal::Arrghus => HintColor::Beige,
            Goal::Knucklemaster => HintColor::Blue,
            Goal::Stalblind => HintColor::Beige,
            Goal::Grinexx => HintColor::Purple,
            Goal::Zaganaga => HintColor::Name,
            Goal::Dharkstare => HintColor::Attention,
            _ => HintColor::Name,
        };
        color.format(self.as_str())
    }
}

} // verus!
