use vstd::prelude::*;

verus! {

/// Which of the two worlds a place belongs to.
#[derive(Clone, Copy, Debug, PartialEq, Eq, Hash, Structural)]
pub enum World {
    Hyrule,
    Lorule,
}

/// An item as the game itself knows it. Several items of the pool can be given as the
/// same game item, and some game items are tiers or rentals of another.
#[derive(Clone, Copy, Debug, PartialEq, Eq, Hash, Structural)]
pub enum GameItem {
    Empty,
    ItemBow,
    ItemBoomerang,
    ItemHookShot,
    ItemBomb,
    ItemFireRod,
    ItemIceRod,
    ItemHammer,
    ItemBell,
    GanbariPowerUp,
    ItemSandRod,
    ItemTornadeRod,
    ItemBowLight,
    DashBoots,
    ItemMizukaki,
    RingRental,
    HyruleShield,
    ItemStoneBeauty,
    MessageBottle,
    MilkMatured,
    Pouch,
    BadgeBee,
    HintGlasses,
    HeartPiece,
    HeartContainer,
    ItemBottle,
    ItemKandelaar,
    ItemSwordLv2,
    PowerGlove,
    ItemInsectNet,
    ClothesBlue,
    OreYellow,
    OreGreen,
    OreBlue,
    OreRed,
    KeySmall,
    KeyBoss,
    Compass,
    SpecialMove,
    RupeeG,
    RupeeB,
    RupeeR,
    RupeePurple,
    RupeeSilver,
    RupeeGold,
    Kinsta,
    LiverPurple,
    LiverYellow,
    LiverBlue,
    PendantPower,
    PendantWisdom,
    PendantCourage,
    ZeldaAmulet,
    SageGulley,
    SageOren,
    SageSeres,
    SageOsfala,
    SageImpa,
    SageIrene,
    SageRosso,
    EscapeFruit,
    StopFruit,
    ItemShield,
    Bee,
    GoldenBeeForSale,
    Fairy,
    ItemRentalShield,
    PackageSword,
    ItemSwordLv1,
    ItemSwordLv3,
    ItemSwordLv4,
    ItemRentalIceRod,
    ItemRentalSandRod,
    ItemRentalTornadeRod,
    ItemRentalBomb,
    ItemRentalFireRod,
    ItemRentalHookShot,
    ItemRentalBoomerang,
    ItemRentalHammer,
    ItemRentalBow,
    PowerfulGlove,
    ClothesRed,
    ItemKandelaarLv2,
    ItemInsectNetLv2,
}

impl GameItem {
    /// The form that the traversal logic reasons about: every tier of the sword is one
    /// sword, and a rental stands for the item it rents.
    pub open spec fn canonical(self) -> GameItem {
        match self {
            GameItem::PackageSword | GameItem::ItemSwordLv1 | GameItem::ItemSwordLv3
            | GameItem::ItemSwordLv4 => GameItem::ItemSwordLv2,
            GameItem::ItemRentalIceRod => GameItem::ItemIceRod,
            GameItem::ItemRentalSandRod => GameItem::ItemSandRod,
            GameItem::ItemRentalTornadeRod => GameItem::ItemTornadeRod,
            GameItem::ItemRentalBomb => GameItem::ItemBomb,
            GameItem::ItemRentalFireRod => GameItem::ItemFireRod,
            GameItem::ItemRentalHookShot => GameItem::ItemHookShot,
            GameItem::ItemRentalBoomerang => GameItem::ItemBoomerang,
            GameItem::ItemRentalHammer => GameItem::ItemHammer,
            GameItem::ItemRentalBow => GameItem::ItemBow,
            GameItem::PowerfulGlove => GameItem::PowerGlove,
            GameItem::ClothesRed => GameItem::ClothesBlue,
            GameItem::ItemKandelaarLv2 => GameItem::ItemKandelaar,
            GameItem::ItemInsectNetLv2 => GameItem::ItemInsectNet,
            _ => self,
        }
    }

    /// The position of the item in the list of game items.
    pub open spec fn index(self) -> u32 {
        match self {
            GameItem::Empty => 0,
            GameItem::ItemBow => 1,
            GameItem::ItemBoomerang => 2,
            GameItem::ItemHookShot => 3,
            GameItem::ItemBomb => 4,
            GameItem::ItemFireRod => 5,
            GameItem::ItemIceRod => 6,
            GameItem::ItemHammer => 7,
            GameItem::ItemBell => 8,
            GameItem::GanbariPowerUp => 9,
            GameItem::ItemSandRod => 10,
            GameItem::ItemTornadeRod => 11,
            GameItem::ItemBowLight => 12,
            GameItem::DashBoots => 13,
            GameItem::ItemMizukaki => 14,
            GameItem::RingRental => 15,
            GameItem::HyruleShield => 16,
            GameItem::ItemStoneBeauty => 17,
            GameItem::MessageBottle => 18,
            GameItem::MilkMatured => 19,
            GameItem::Pouch => 20,
            GameItem::BadgeBee => 21,
            GameItem::HintGlasses => 22,
            GameItem::HeartPiece => 23,
            GameItem::HeartContainer => 24,
            GameItem::ItemBottle => 25,
            GameItem::ItemKandelaar => 26,
            GameItem::ItemSwordLv2 => 27,
            GameItem::PowerGlove => 28,
            GameItem::ItemInsectNet => 29,
            GameItem::ClothesBlue => 30,
            GameItem::OreYellow => 31,
            GameItem::OreGreen => 32,
            GameItem::OreBlue => 33,
            GameItem::OreRed => 34,
            GameItem::KeySmall => 35,
            GameItem::KeyBoss => 36,
            GameItem::Compass => 37,
            GameItem::SpecialMove => 38,
            GameItem::RupeeG => 39,
            GameItem::RupeeB => 40,
            GameItem::RupeeR => 41,
            GameItem::RupeePurple => 42,
            GameItem::RupeeSilver => 43,
            GameItem::RupeeGold => 44,
            GameItem::Kinsta => 45,
            GameItem::LiverPurple => 46,
            GameItem::LiverYellow => 47,
            GameItem::LiverBlue => 48,
            GameItem::PendantPower => 49,
            GameItem::PendantWisdom => 50,
            GameItem::PendantCourage => 51,
            GameItem::ZeldaAmulet => 52,
            GameItem::SageGulley => 53,
            GameItem::SageOren => 54,
            GameItem::SageSeres => 55,
            GameItem::SageOsfala => 56,
            GameItem::SageImpa => 57,
            GameItem::SageIrene => 58,
            GameItem::SageRosso => 59,
            GameItem::EscapeFruit => 60,
            GameItem::StopFruit => 61,
            GameItem::ItemShield => 62,
            GameItem::Bee => 63,
            GameItem::GoldenBeeForSale => 64,
            GameItem::Fairy => 65,
            GameItem::ItemRentalShield => 66,
            GameItem::PackageSword => 67,
            GameItem::ItemSwordLv1 => 68,
            GameItem::ItemSwordLv3 => 69,
            GameItem::ItemSwordLv4 => 70,
            GameItem::ItemRentalIceRod => 71,
            GameItem::ItemRentalSandRod => 72,
            GameItem::ItemRentalTornadeRod => 73,
            GameItem::ItemRentalBomb => 74,
            GameItem::ItemRentalFireRod => 75,
            GameItem::ItemRentalHookShot => 76,
            GameItem::ItemRentalBoomerang => 77,
            GameItem::ItemRentalHammer => 78,
            GameItem::ItemRentalBow => 79,
            GameItem::PowerfulGlove => 80,
            GameItem::ClothesRed => 81,
            GameItem::ItemKandelaarLv2 => 82,
            GameItem::ItemInsectNetLv2 => 83,
        }
    }

    pub fn to_canonical(self) -> (r: GameItem)
        ensures
            r == self.canonical(),
    {
        match self {
            GameItem::PackageSword | GameItem::ItemSwordLv1 | GameItem::ItemSwordLv3
            | GameItem::ItemSwordLv4 => GameItem::ItemSwordLv2,
            GameItem::ItemRentalIceRod => GameItem::ItemIceRod,
            GameItem::ItemRentalSandRod => GameItem::ItemSandRod,
            GameItem::ItemRentalTornadeRod => GameItem::ItemTornadeRod,
            GameItem::ItemRentalBomb => GameItem::ItemBomb,
            GameItem::ItemRentalFireRod => GameItem::ItemFireRod,
            GameItem::ItemRentalHookShot => GameItem::ItemHookShot,
            GameItem::ItemRentalBoomerang => GameItem::ItemBoomerang,
            GameItem::ItemRentalHammer => GameItem::ItemHammer,
            GameItem::ItemRentalBow => GameItem::ItemBow,
            GameItem::PowerfulGlove => GameItem::PowerGlove,
            GameItem::ClothesRed => GameItem::ClothesBlue,
            GameItem::ItemKandelaarLv2 => GameItem::ItemKandelaar,
            GameItem::ItemInsectNetLv2 => GameItem::ItemInsectNet,
            _ => self,
        }
    }

    pub fn to_index(self) -> (r: u32)
        ensures
            r == self.index(),
    {
        match self {
            GameItem::Empty => 0,
            GameItem::ItemBow => 1,
            GameItem::ItemBoomerang => 2,
            GameItem::ItemHookShot => 3,
            GameItem::ItemBomb => 4,
            GameItem::ItemFireRod => 5,
            GameItem::ItemIceRod => 6,
            GameItem::ItemHammer => 7,
            GameItem::ItemBell => 8,
            GameItem::GanbariPowerUp => 9,
            GameItem::ItemSandRod => 10,
            GameItem::ItemTornadeRod => 11,
            GameItem::ItemBowLight => 12,
            GameItem::DashBoots => 13,
            GameItem::ItemMizukaki => 14,
            GameItem::RingRental => 15,
            GameItem::HyruleShield => 16,
            GameItem::ItemStoneBeauty => 17,
            GameItem::MessageBottle => 18,
            GameItem::MilkMatured => 19,
            GameItem::Pouch => 20,
            GameItem::BadgeBee => 21,
            GameItem::HintGlasses => 22,
            GameItem::HeartPiece => 23,
            GameItem::HeartContainer => 24,
            GameItem::ItemBottle => 25,
            GameItem::ItemKandelaar => 26,
            GameItem::ItemSwordLv2 => 27,
            GameItem::PowerGlove => 28,
            GameItem::ItemInsectNet => 29,
            GameItem::ClothesBlue => 30,
            GameItem::OreYellow => 31,
            GameItem::OreGreen => 32,
            GameItem::OreBlue => 33,
            GameItem::OreRed => 34,
            GameItem::KeySmall => 35,
            GameItem::KeyBoss => 36,
            GameItem::Compass => 37,
            GameItem::SpecialMove => 38,
            GameItem::RupeeG => 39,
            GameItem::RupeeB => 40,
            GameItem::RupeeR => 41,
            GameItem::RupeePurple => 42,
            GameItem::RupeeSilver => 43,
            GameItem::RupeeGold => 44,
            GameItem::Kinsta => 45,
            GameItem::LiverPurple => 46,
            GameItem::LiverYellow => 47,
            GameItem::LiverBlue => 48,
            GameItem::PendantPower => 49,
            GameItem::PendantWisdom => 50,
            GameItem::PendantCourage => 51,
            GameItem::ZeldaAmulet => 52,
            GameItem::SageGulley => 53,
            GameItem::SageOren => 54,
            GameItem::SageSeres => 55,
            GameItem::SageOsfala => 56,
            GameItem::SageImpa => 57,
            GameItem::SageIrene => 58,
            GameItem::SageRosso => 59,
            GameItem::EscapeFruit => 60,
            GameItem::StopFruit => 61,
            GameItem::ItemShield => 62,
            GameItem::Bee => 63,
            GameItem::GoldenBeeForSale => 64,
            GameItem::Fairy => 65,
            GameItem::ItemRentalShield => 66,
            GameItem::PackageSword => 67,
            GameItem::ItemSwordLv1 => 68,
            GameItem::ItemSwordLv3 => 69,
            GameItem::ItemSwordLv4 => 70,
            GameItem::ItemRentalIceRod => 71,
            GameItem::ItemRentalSandRod => 72,
            GameItem::ItemRentalTornadeRod => 73,
            GameItem::ItemRentalBomb => 74,
            GameItem::ItemRentalFireRod => 75,
            GameItem::ItemRentalHookShot => 76,
            GameItem::ItemRentalBoomerang => 77,
            GameItem::ItemRentalHammer => 78,
            GameItem::ItemRentalBow => 79,
            GameItem::PowerfulGlove => 80,
            GameItem::ClothesRed => 81,
            GameItem::ItemKandelaarLv2 => 82,
            GameItem::ItemInsectNetLv2 => 83,
        }
    }
}

} // verus!
