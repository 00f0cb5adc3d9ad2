use vstd::prelude::*;

use crate::game::GameItem;
use crate::ghosts::HintGhost;
use crate::goal::Goal;
use crate::hint_color::HintColor;
use crate::item::Item;
use crate::portal::Portal;
use crate::settings::{PortalShuffle, Settings, WeatherVanes};
use crate::vane::Vane;

verus! {

/// A placeable token: one of the five families that can go into a location.
#[derive(Clone, Copy, Debug, PartialEq, Eq, Hash, Structural)]
pub enum FillerItem {
    Item(Item),
    Goal(Goal),
    HintGhost(HintGhost),
    Vane(Vane),
    Portal(Portal),
}

/// The form of a token that the traversal logic reasons about. Tokens that differ only
/// in tier or in being a rental have the same logic token.
#[derive(Clone, Copy, Debug, PartialEq, Eq, Hash, Structural)]
pub enum LogicToken {
    Item(GameItem),
    Goal(Goal),
    HintGhost(HintGhost),
    Vane(Vane),
    Portal(Portal),
}

/// The message file that a dungeon prize's text lives in.
#[derive(Clone, Copy, Debug, PartialEq, Eq, Hash, Structural)]
pub enum MsbfKey {
    Dark,
    Water,
    Dokuro,
    Hagure,
    Sand,
    Ice,
}

impl FillerItem {
    /// The canonical game item of an item token.
    pub open spec fn normalized(self) -> GameItem
        recommends
            self is Item,
    {
        self->Item_0.game_item().canonical()
    }

    /// The logic token of any token.
    pub open spec fn logic(self) -> LogicToken {
        match self {
            FillerItem::Item(item) => LogicToken::Item(item.game_item().canonical()),
            FillerItem::Goal(goal) => LogicToken::Goal(goal),
            FillerItem::HintGhost(ghost) => LogicToken::HintGhost(ghost),
            FillerItem::Vane(vane) => LogicToken::Vane(vane),
            FillerItem::Portal(portal) => LogicToken::Portal(portal),
        }
    }

    /// Whether the token can change what is reachable under the given settings: the
    /// progression items, the vanes when they are shuffled, the portals when they are
    /// shuffled, and the win condition.
    pub open spec fn in_search(self, settings: Settings) -> bool {
        match self {
            FillerItem::Item(item) => item.in_sphere_search(),
            FillerItem::Vane(_) => settings.weather_vanes == WeatherVanes::Shuffled,
            FillerItem::Portal(_) => settings.portal_shuffle != PortalShuffle::Off,
            FillerItem::Goal(goal) => goal == Goal::Triforce,
            FillerItem::HintGhost(_) => false,
        }
    }

    /// Whether the token is shown in a large chest when chest appearance matches contents.
    pub open spec fn large_chest(self) -> bool {
        match self {
            FillerItem::Item(item) => {
            match item {
                Item::Bow01 | Item::Bow02 | Item::Bow03 | Item::Boomerang01 | Item::Boomerang02
                | Item::Hookshot01 | Item::Hookshot02 | Item::Bombs01 | Item::Bombs02
                | Item::FireRod01 | Item::FireRod02 | Item::IceRod01 | Item::IceRod02
                | Item::Hammer01 | Item::Hammer02 | Item::SandRod01 | Item::SandRod02
                | Item::TornadoRod01 | Item::TornadoRod02 | Item::Bell | Item::StaminaScroll
                | Item::BowOfLight | Item::PegasusBoots | Item::Flippers
                | Item::RaviosBracelet01 | Item::RaviosBracelet02 | Item::HylianShield
                | Item::SmoothGem | Item::LetterInABottle | Item::PremiumMilk | Item::Pouch
                | Item::BeeBadge | Item::HintGlasses | Item::GreatSpin | Item::Bottle01
                | Item::Bottle02 | Item::Bottle03 | Item::Bottle04 | Item::Bottle05
                | Item::Lamp01 | Item::Lamp02 | Item::Sword01 | Item::Sword02 | Item::Sword03
                | Item::Sword04 | Item::Glove01 | Item::Glove02 | Item::Net01 | Item::Net02
                | Item::Mail01 | Item::Mail02 | Item::OreYellow | Item::OreGreen | Item::OreBlue
                | Item::OreRed | Item::HyruleSanctuaryKey | Item::LoruleSanctuaryKey
                | Item::EasternKeyBig | Item::EasternKeySmall01 | Item::EasternKeySmall02
                | Item::GalesKeyBig | Item::GalesKeySmall01 | Item::GalesKeySmall02
                | Item::GalesKeySmall03 | Item::GalesKeySmall04 | Item::HeraKeyBig
                | Item::HeraKeySmall01 | Item::HeraKeySmall02 | Item::DarkKeyBig
                | Item::DarkKeySmall01 | Item::DarkKeySmall02 | Item::DarkKeySmall03
                | Item::DarkKeySmall04 | Item::SwampKeyBig | Item::SwampKeySmall01
                | Item::SwampKeySmall02 | Item::SwampKeySmall03 | Item::SwampKeySmall04
                | Item::SkullKeyBig | Item::SkullKeySmall01 | Item::SkullKeySmall02
                | Item::SkullKeySmall03 | Item::ThievesKeyBig | Item::ThievesKeySmall
                | Item::IceKeyBig | Item::IceKeySmall01 | Item::IceKeySmall02
                | Item::IceKeySmall03 | Item::DesertKeyBig | Item::DesertKeySmall01
                | Item::DesertKeySmall02 | Item::DesertKeySmall03 | Item::DesertKeySmall04
                | Item::DesertKeySmall05 | Item::TurtleKeyBig | Item::TurtleKeySmall01
                | Item::TurtleKeySmall02 | Item::TurtleKeySmall03 | Item::LoruleCastleKeySmall01
                | Item::LoruleCastleKeySmall02 | Item::LoruleCastleKeySmall03
                | Item::LoruleCastleKeySmall04 | Item::LoruleCastleKeySmall05
                | Item::PendantOfPower | Item::PendantOfWisdom | Item::Charm
                | Item::PendantOfCourage | Item::SageGulley | Item::SageOren | Item::SageSeres
                | Item::SageOsfala | Item::SageRosso | Item::SageIrene | Item::SageImpa
                | Item::ScootFruit01 | Item::FoulFruit01 | Item::Shield01 | Item::ScootFruit02
                | Item::FoulFruit02 | Item::Shield02 | Item::Shield03 | Item::Shield04 => true,
                _ => false,
            }
            },
            _ => false,
        }
    }

    /// The message file of a dungeon prize, for the prizes that have one.
    pub open spec fn has_msbf_key(self) -> bool {
        match self {
            FillerItem::Item(item) => match item {
                Item::SageGulley | Item::SageOren | Item::SageSeres | Item::SageOsfala
                | Item::SageIrene | Item::SageRosso | Item::SageImpa | Item::PendantOfPower
                | Item::PendantOfWisdom | Item::PendantOfCourage => true,
                _ => false,
            },
            _ => false,
        }
    }

    /// The message file of a dungeon prize: a sage's own, none for Impa and the pendants.
    pub open spec fn msbf(self) -> Option<MsbfKey> {
        match self {
            FillerItem::Item(Item::SageGulley) => Some(MsbfKey::Dark),
            FillerItem::Item(Item::SageOren) => Some(MsbfKey::Water),
            FillerItem::Item(Item::SageSeres) => Some(MsbfKey::Dokuro),
            FillerItem::Item(Item::SageOsfala) => Some(MsbfKey::Hagure),
            FillerItem::Item(Item::SageIrene) => Some(MsbfKey::Sand),
            FillerItem::Item(Item::SageRosso) => Some(MsbfKey::Ice),
            _ => None,
        }
    }

    /// The display name of the token.
    pub open spec fn name(self) -> &'static str {
        match self {
            FillerItem::Item(item) => item.name(),
            FillerItem::Goal(goal) => goal.name(),
            FillerItem::HintGhost(ghost) => ghost.name(),
            FillerItem::Vane(vane) => vane.name(),
            FillerItem::Portal(portal) => portal.name(),
        }
    }

    /// The display name of the token in its message colour.
    pub open spec fn colorized(self) -> Seq<char> {
        match self {
            FillerItem::Goal(goal) => goal.color().markup(goal.name()@),
            _ => HintColor::Name.markup(self.name()@),
        }
    }

    pub fn as_item(&self) -> (r: Option<Item>)
        ensures
            r == (match *self {
                FillerItem::Item(item) => Some(item),
                _ => None,
            }),
    {
        match *self {
            FillerItem::Item(item) => Some(item),
            _ => None,
        }
    }

    pub fn normalize(self) -> (r: GameItem)
        requires
            self is Item,
        ensures
            r == self.normalized(),
    {
        match self {
            FillerItem::Item(item) => item.to_game_item().to_canonical(),
            _ => GameItem::Empty,
        }
    }

    pub fn as_item_index(&self) -> (r: u32)
        requires
            *self is Item,
        ensures
            r == self.normalized().index(),
    {
        self.normalize().to_index()
    }

    pub fn is_hint_ghost(self) -> (r: bool)
        ensures
            r == (self is HintGhost),
    {
        match self {
            FillerItem::HintGhost(_) => true,
            _ => false,
        }
    }

    pub fn to_logic(self) -> (r: LogicToken)
        ensures
            r == self.logic(),
    {
        match self {
            FillerItem::Item(item) => LogicToken::Item(item.to_game_item().to_canonical()),
            FillerItem::Goal(goal) => LogicToken::Goal(goal),
            FillerItem::HintGhost(ghost) => LogicToken::HintGhost(ghost),
            FillerItem::Vane(vane) => LogicToken::Vane(vane),
            FillerItem::Portal(portal) => LogicToken::Portal(portal),
        }
    }

    pub fn include_in_sphere_search(self, settings: &Settings) -> (r: bool)
        ensures
            r == self.in_search(*settings),
    {
        match self {
            FillerItem::Item(item) => item.include_in_sphere_search(),
            FillerItem::Vane(_) => settings.weather_vanes == WeatherVanes::Shuffled,
            FillerItem::Portal(_) => settings.portal_shuffle != PortalShuffle::Off,
            FillerItem::Goal(goal) => goal == Goal::Triforce,
            FillerItem::HintGhost(_) => false,
        }
    }

    pub fn goes_in_csmc_large_chest(&self, _settings: &Settings) -> (r: bool)
        ensures
            r == self.large_chest(),
    {
        match *self {
            FillerItem::Item(item) => {
                match item {
                    Item::Bow01 | Item::Bow02 | Item::Bow03 | Item::Boomerang01
                    | Item::Boomerang02 | Item::Hookshot01 | Item::Hookshot02 | Item::Bombs01
                    | Item::Bombs02 | Item::FireRod01 | Item::FireRod02 | Item::IceRod01
                    | Item::IceRod02 | Item::Hammer01 | Item::Hammer02 | Item::SandRod01
                    | Item::SandRod02 | Item::TornadoRod01 | Item::TornadoRod02 | Item::Bell
                    | Item::StaminaScroll | Item::BowOfLight | Item::PegasusBoots
                    | Item::Flippers | Item::RaviosBracelet01 | Item::RaviosBracelet02
                    | Item::HylianShield | Item::SmoothGem | Item::LetterInABottle
                    | Item::PremiumMilk | Item::Pouch | Item::BeeBadge | Item::HintGlasses
                    | Item::GreatSpin | Item::Bottle01 | Item::Bottle02 | Item::Bottle03
                    | Item::Bottle04 | Item::Bottle05 | Item::Lamp01 | Item::Lamp02
                    | Item::Sword01 | Item::Sword02 | Item::Sword03 | Item::Sword04
                    | Item::Glove01 | Item::Glove02 | Item::Net01 | Item::Net02 | Item::Mail01
                    | Item::Mail02 | Item::OreYellow | Item::OreGreen | Item::OreBlue
                    | Item::OreRed | Item::HyruleSanctuaryKey | Item::LoruleSanctuaryKey
                    | Item::EasternKeyBig | Item::EasternKeySmall01 | Item::EasternKeySmall02
                    | Item::GalesKeyBig | Item::GalesKeySmall01 | Item::GalesKeySmall02
                    | Item::GalesKeySmall03 | Item::GalesKeySmall04 | Item::HeraKeyBig
                    | Item::HeraKeySmall01 | Item::HeraKeySmall02 | Item::DarkKeyBig
                    | Item::DarkKeySmall01 | Item::DarkKeySmall02 | Item::DarkKeySmall03
                    | Item::DarkKeySmall04 | Item::SwampKeyBig | Item::SwampKeySmall01
                    | Item::SwampKeySmall02 | Item::SwampKeySmall03 | Item::SwampKeySmall04
                    | Item::SkullKeyBig | Item::SkullKeySmall01 | Item::SkullKeySmall02
                    | Item::SkullKeySmall03 | Item::ThievesKeyBig | Item::ThievesKeySmall
                    | Item::IceKeyBig | Item::IceKeySmall01 | Item::IceKeySmall02
                    | Item::IceKeySmall03 | Item::DesertKeyBig | Item::DesertKeySmall01
                    | Item::DesertKeySmall02 | Item::DesertKeySmall03 | Item::DesertKeySmall04
                    | Item::DesertKeySmall05 | Item::TurtleKeyBig | Item::TurtleKeySmall01
                    | Item::TurtleKeySmall02 | Item::TurtleKeySmall03
                    | Item::LoruleCastleKeySmall01 | Item::LoruleCastleKeySmall02
                    | Item::LoruleCastleKeySmall03 | Item::LoruleCastleKeySmall04
                    | Item::LoruleCastleKeySmall05 | Item::PendantOfPower
                    | Item::PendantOfWisdom | Item::Charm | Item::PendantOfCourage
                    | Item::SageGulley | Item::SageOren | Item::SageSeres | Item::SageOsfala
                    | Item::SageRosso | Item::SageIrene | Item::SageImpa | Item::ScootFruit01
                    | Item::FoulFruit01 | Item::Shield01 | Item::ScootFruit02
                    | Item::FoulFruit02 | Item::Shield02 | Item::Shield03 | Item::Shield04 => true,
                    _ => false,
                }
            },
            _ => false,
        }
    }

    pub fn msbf_key(self) -> (r: Option<MsbfKey>)
        requires
            self.has_msbf_key(),
        ensures
            r == self.msbf(),
    {
        match self {
            FillerItem::Item(Item::SageGulley) => Some(MsbfKey::Dark),
            FillerItem::Item(Item::SageOren) => Some(MsbfKey::Water),
            FillerItem::Item(Item::SageSeres) => Some(MsbfKey::Dokuro),
            FillerItem::Item(Item::SageOsfala) => Some(MsbfKey::Hagure),
            FillerItem::Item(Item::SageIrene) => Some(MsbfKey::Sand),
            FillerItem::Item(Item::SageRosso) => Some(MsbfKey::Ice),
            _ => None,
        }
    }

    pub fn as_str(self) -> (r: &'static str)
        ensures
            r == self.name(),
    {
        match self {
            FillerItem::Item(item) => item.as_str(),
            FillerItem::Goal(goal) => goal.as_str(),
            FillerItem::HintGhost(ghost) => ghost.as_str(),
            FillerItem::Vane(vane) => vane.as_str(),
            FillerItem::Portal(portal) => portal.as_str(),
        }
    }

    pub fn as_str_colorized(&self) -> (r: String)
        ensures
            r@ == self.colorized(),
    {
        match *self {
            FillerItem::Goal(goal) => goal.as_str_colorized(),
            _ => HintColor::Name.format(self.as_str()),
        }
    }
}

impl From<Item> for FillerItem {
    fn from(item: Item) -> (r: Self) {
        FillerItem::Item(item)
    }
}

impl vstd::std_specs::convert::FromSpecImpl<Item> for FillerItem {
    open spec fn obeys_from_spec() -> bool {
        true
    }

    open spec fn from_spec(item: Item) -> Self {
        FillerItem::Item(item)
    }
}

impl From<Goal> for FillerItem {
    fn from(goal: Goal) -> (r: Self) {
        FillerItem::Goal(goal)
    }
}

impl vstd::std_specs::convert::FromSpecImpl<Goal> for FillerItem {
    open spec fn obeys_from_spec() -> bool {
        true
    }

    open spec fn from_spec(goal: Goal) -> Self {
        FillerItem::Goal(goal)
    }
}

impl From<HintGhost> for FillerItem {
    fn from(hint_ghost: HintGhost) -> (r: Self) {
        FillerItem::HintGhost(hint_ghost)
    }
}

impl vstd::std_specs::convert::FromSpecImpl<HintGhost> for FillerItem {
    open spec fn obeys_from_spec() -> bool {
        true
    }

    open spec fn from_spec(hint_ghost: HintGhost) -> Self {
        FillerItem::HintGhost(hint_ghost)
    }
}

impl From<Vane> for FillerItem {
    fn from(vane: Vane) -> (r: Self) {
        FillerItem::Vane(vane)
    }
}

impl vstd::std_specs::convert::FromSpecImpl<Vane> for FillerItem {
    open spec fn obeys_from_spec() -> bool {
        true
    }

    open spec fn from_spec(vane: Vane) -> Self {
        FillerItem::Vane(vane)
    }
}

impl From<Portal> for FillerItem {
    fn from(portal: Portal) -> (r: Self) {
        FillerItem::Portal(portal)
    }
}

impl vstd::std_specs::convert::FromSpecImpl<Portal> for FillerItem {
    open spec fn obeys_from_spec() -> bool {
        true
    }

    open spec fn from_spec(portal: Portal) -> Self {
        FillerItem::Portal(portal)
    }
}

} // verus!
