use vstd::prelude::*;

use crate::game::GameItem;
use crate::hint_color::HintColor;

verus! {

/// A concrete item of the pool. Tiers of one piece of equipment are distinct items here,
/// so that each can hold its own location.
#[derive(Clone, Copy, Debug, PartialEq, Eq, Hash, Structural)]
pub enum Item {
    Empty,
    Bow01,
    Bow02,
    Bow03,
    Boomerang01,
    Boomerang02,
    Hookshot01,
    Hookshot02,
    Bombs01,
    Bombs02,
    FireRod01,
    FireRod02,
    IceRod01,
    IceRod02,
    Hammer01,
    Hammer02,
    SandRod01,
    SandRod02,
    TornadoRod01,
    TornadoRod02,
    Bell,
    StaminaScroll,
    BowOfLight,
    PegasusBoots,
    Flippers,
    RaviosBracelet01,
    RaviosBracelet02,
    HylianShield,
    SmoothGem,
    LetterInABottle,
    PremiumMilk,
    Pouch,
    BeeBadge,
    HintGlasses,
    Charm,
    GreatSpin,
    Quake,
    RupeeGreen,
    RupeeBlue,
    RupeeRed,
    RupeePurple01,
    RupeePurple02,
    RupeePurple03,
    RupeePurple04,
    RupeePurple05,
    RupeePurple06,
    RupeePurple07,
    RupeePurple08,
    RupeePurple09,
    RupeePurple10,
    RupeePurple11,
    RupeePurple12,
    RupeePurple13,
    RupeePurple14,
    RupeePurple15,
    RupeePurple16,
    RupeePurple17,
    RupeePurple18,
    RupeePurple19,
    RupeePurple20,
    RupeeSilver01,
    RupeeSilver02,
    RupeeSilver03,
    RupeeSilver04,
    RupeeSilver05,
    RupeeSilver06,
    RupeeSilver07,
    RupeeSilver08,
    RupeeSilver09,
    RupeeSilver10,
    RupeeSilver11,
    RupeeSilver12,
    RupeeSilver13,
    RupeeSilver14,
    RupeeSilver15,
    RupeeSilver16,
    RupeeSilver17,
    RupeeSilver18,
    RupeeSilver19,
    RupeeSilver20,
    RupeeSilver21,
    RupeeSilver22,
    RupeeSilver23,
    RupeeSilver24,
    RupeeSilver25,
    RupeeSilver26,
    RupeeSilver27,
    RupeeSilver28,
    RupeeSilver29,
    RupeeSilver30,
    RupeeSilver31,
    RupeeSilver32,
    RupeeSilver33,
    RupeeSilver34,
    RupeeSilver35,
    RupeeSilver36,
    RupeeSilver37,
    RupeeSilver38,
    RupeeSilver39,
    RupeeSilver40,
    RupeeSilver41,
    RupeeGold01,
    RupeeGold02,
    RupeeGold03,
    RupeeGold04,
    RupeeGold05,
    RupeeGold06,
    RupeeGold07,
    RupeeGold08,
    RupeeGold09,
    RupeeGold10,
    Maiamai001,
    Maiamai002,
    Maiamai003,
    Maiamai004,
    Maiamai005,
    Maiamai006,
    Maiamai007,
    Maiamai008,
    Maiamai009,
    Maiamai010,
    Maiamai011,
    Maiamai012,
    Maiamai013,
    Maiamai014,
    Maiamai015,
    Maiamai016,
    Maiamai017,
    Maiamai018,
    Maiamai019,
    Maiamai020,
    Maiamai021,
    Maiamai022,
    Maiamai023,
    Maiamai024,
    Maiamai025,
    Maiamai026,
    Maiamai027,
    Maiamai028,
    Maiamai029,
    Maiamai030,
    Maiamai031,
    Maiamai032,
    Maiamai033,
    Maiamai034,
    Maiamai035,
    Maiamai036,
    Maiamai037,
    Maiamai038,
    Maiamai039,
    Maiamai040,
    Maiamai041,
    Maiamai042,
    Maiamai043,
    Maiamai044,
    Maiamai045,
    Maiamai046,
    Maiamai047,
    Maiamai048,
    Maiamai049,
    Maiamai050,
    Maiamai051,
    Maiamai052,
    Maiamai053,
    Maiamai054,
    Maiamai055,
    Maiamai056,
    Maiamai057,
    Maiamai058,
    Maiamai059,
    Maiamai060,
    Maiamai061,
    Maiamai062,
    Maiamai063,
    Maiamai064,
    Maiamai065,
    Maiamai066,
    Maiamai067,
    Maiamai068,
    Maiamai069,
    Maiamai070,
    Maiamai071,
    Maiamai072,
    Maiamai073,
    Maiamai074,
    Maiamai075,
    Maiamai076,
    Maiamai077,
    Maiamai078,
    Maiamai079,
    Maiamai080,
    Maiamai081,
    Maiamai082,
    Maiamai083,
    Maiamai084,
    Maiamai085,
    Maiamai086,
    Maiamai087,
    Maiamai088,
    Maiamai089,
    Maiamai090,
    Maiamai091,
    Maiamai092,
    Maiamai093,
    Maiamai094,
    Maiamai095,
    Maiamai096,
    Maiamai097,
    Maiamai098,
    Maiamai099,
    Maiamai100,
    MonsterGuts,
    MonsterHorn,
    MonsterTail,
    HeartPiece01,
    HeartPiece02,
    HeartPiece03,
    HeartPiece04,
    HeartPiece05,
    HeartPiece06,
    HeartPiece07,
    HeartPiece08,
    HeartPiece09,
    HeartPiece10,
    HeartPiece11,
    HeartPiece12,
    HeartPiece13,
    HeartPiece14,
    HeartPiece15,
    HeartPiece16,
    HeartPiece17,
    HeartPiece18,
    HeartPiece19,
    HeartPiece20,
    HeartPiece21,
    HeartPiece22,
    HeartPiece23,
    HeartPiece24,
    HeartPiece25,
    HeartPiece26,
    HeartPiece27,
    HeartPiece28,
    HeartContainer01,
    HeartContainer02,
    HeartContainer03,
    HeartContainer04,
    HeartContainer05,
    HeartContainer06,
    HeartContainer07,
    HeartContainer08,
    HeartContainer09,
    HeartContainer10,
    Bottle01,
    Bottle02,
    Bottle03,
    Bottle04,
    Bottle05,
    Lamp01,
    Lamp02,
    Sword01,
    Sword02,
    Sword03,
    Sword04,
    Glove01,
    Glove02,
    Net01,
    Net02,
    Mail01,
    Mail02,
    OreYellow,
    OreGreen,
    OreBlue,
    OreRed,
    HyruleSanctuaryKey,
    LoruleSanctuaryKey,
    EasternCompass,
    EasternKeyBig,
    EasternKeySmall01,
    EasternKeySmall02,
    GalesCompass,
    GalesKeyBig,
    GalesKeySmall01,
    GalesKeySmall02,
    GalesKeySmall03,
    GalesKeySmall04,
    HeraCompass,
    HeraKeyBig,
    HeraKeySmall01,
    HeraKeySmall02,
    DarkCompass,
    DarkKeyBig,
    DarkKeySmall01,
    DarkKeySmall02,
    DarkKeySmall03,
    DarkKeySmall04,
    SwampCompass,
    SwampKeyBig,
    SwampKeySmall01,
    SwampKeySmall02,
    SwampKeySmall03,
    SwampKeySmall04,
    SkullCompass,
    SkullKeyBig,
    SkullKeySmall01,
    SkullKeySmall02,
    SkullKeySmall03,
    ThievesCompass,
    ThievesKeyBig,
    ThievesKeySmall,
    IceCompass,
    IceKeyBig,
    IceKeySmall01,
    IceKeySmall02,
    IceKeySmall03,
    DesertCompass,
    DesertKeyBig,
    DesertKeySmall01,
    DesertKeySmall02,
    DesertKeySmall03,
    DesertKeySmall04,
    DesertKeySmall05,
    TurtleCompass,
    TurtleKeyBig,
    TurtleKeySmall01,
    TurtleKeySmall02,
    TurtleKeySmall03,
    LoruleCastleCompass,
    LoruleCastleKeySmall01,
    LoruleCastleKeySmall02,
    LoruleCastleKeySmall03,
    LoruleCastleKeySmall04,
    LoruleCastleKeySmall05,
    PendantOfPower,
    PendantOfWisdom,
    PendantOfCourage,
    SageGulley,
    SageOren,
    SageSeres,
    SageOsfala,
    SageRosso,
    SageIrene,
    SageImpa,
    ScootFruit01,
    FoulFruit01,
    Shield01,
    ScootFruit02,
    FoulFruit02,
    Shield02,
    GoldBee01,
    Bee01,
    GoldBee02,
    Fairy01,
    Shield03,
    Bee02,
    GoldBee03,
    Fairy02,
    Shield04,
}

impl Item {
    /// The in-game item that this item is given as.
    pub open spec fn game_item(self) -> GameItem {
        match self {
            Item::Empty => GameItem::Empty,
            Item::Bow01 | Item::Bow02 | Item::Bow03 => GameItem::ItemBow,
            Item::Boomerang01 | Item::Boomerang02 => GameItem::ItemBoomerang,
            Item::Hookshot01 | Item::Hookshot02 => GameItem::ItemHookShot,
            Item::Bombs01 | Item::Bombs02 => GameItem::ItemBomb,
            Item::FireRod01 | Item::FireRod02 => GameItem::ItemFireRod,
            Item::IceRod01 | Item::IceRod02 => GameItem::ItemIceRod,
            Item::Hammer01 | Item::Hammer02 => GameItem::ItemHammer,
            Item::Bell => GameItem::ItemBell,
            Item::StaminaScroll => GameItem::GanbariPowerUp,
            Item::SandRod01 | Item::SandRod02 => GameItem::ItemSandRod,
            Item::TornadoRod01 | Item::TornadoRod02 => GameItem::ItemTornadeRod,
            Item::BowOfLight => GameItem::ItemBowLight,
            Item::PegasusBoots => GameItem::DashBoots,
            Item::Flippers => GameItem::ItemMizukaki,
            Item::RaviosBracelet01 => GameItem::RingRental,
            Item::RaviosBracelet02 => GameItem::RingRental,
            Item::HylianShield => GameItem::HyruleShield,
            Item::SmoothGem => GameItem::ItemStoneBeauty,
            Item::LetterInABottle => GameItem::MessageBottle,
            Item::PremiumMilk => GameItem::MilkMatured,
            Item::Pouch => GameItem::Pouch,
            Item::BeeBadge => GameItem::BadgeBee,
            Item::HintGlasses => GameItem::HintGlasses,
            Item::HeartPiece01 | Item::HeartPiece02 | Item::HeartPiece03 | Item::HeartPiece04
            | Item::HeartPiece05 | Item::HeartPiece06 | Item::HeartPiece07 | Item::HeartPiece08
            | Item::HeartPiece09 | Item::HeartPiece10 | Item::HeartPiece11 | Item::HeartPiece12
            | Item::HeartPiece13 | Item::HeartPiece14 | Item::HeartPiece15 | Item::HeartPiece16
            | Item::HeartPiece17 | Item::HeartPiece18 | Item::HeartPiece19 | Item::HeartPiece20
            | Item::HeartPiece21 | Item::HeartPiece22 | Item::HeartPiece23 | Item::HeartPiece24
            | Item::HeartPiece25 | Item::HeartPiece26 | Item::HeartPiece27 | Item::HeartPiece28 => GameItem::HeartPiece,
            Item::HeartContainer01 | Item::HeartContainer02 | Item::HeartContainer03
            | Item::HeartContainer04 | Item::HeartContainer05 | Item::HeartContainer06
            | Item::HeartContainer07 | Item::HeartContainer08 | Item::HeartContainer09
            | Item::HeartContainer10 => GameItem::HeartContainer,
            Item::Bottle01 | Item::Bottle02 | Item::Bottle03 | Item::Bottle04 | Item::Bottle05 => GameItem::ItemBottle,
            Item::Lamp01 | Item::Lamp02 => GameItem::ItemKandelaar,
            Item::Sword01 | Item::Sword02 | Item::Sword03 | Item::Sword04 => GameItem::ItemSwordLv2,
            Item::Glove01 | Item::Glove02 => GameItem::PowerGlove,
            Item::Net01 | Item::Net02 => GameItem::ItemInsectNet,
            Item::Mail01 | Item::Mail02 => GameItem::ClothesBlue,
            Item::OreYellow => GameItem::OreYellow,
            Item::OreGreen => GameItem::OreGreen,
            Item::OreBlue => GameItem::OreBlue,
            Item::OreRed => GameItem::OreRed,
            Item::HyruleSanctuaryKey | Item::LoruleSanctuaryKey | Item::EasternKeySmall01
            | Item::EasternKeySmall02 | Item::GalesKeySmall01 | Item::GalesKeySmall02
            | Item::GalesKeySmall03 | Item::GalesKeySmall04 | Item::HeraKeySmall01
            | Item::HeraKeySmall02 | Item::DarkKeySmall01 | Item::DarkKeySmall02
            | Item::DarkKeySmall03 | Item::DarkKeySmall04 | Item::SwampKeySmall01
            | Item::SwampKeySmall02 | Item::SwampKeySmall03 | Item::SwampKeySmall04
            | Item::SkullKeySmall01 | Item::SkullKeySmall02 | Item::SkullKeySmall03
            | Item::ThievesKeySmall | Item::IceKeySmall01 | Item::IceKeySmall02
            | Item::IceKeySmall03 | Item::DesertKeySmall01 | Item::DesertKeySmall02
            | Item::DesertKeySmall03 | Item::DesertKeySmall04 | Item::DesertKeySmall05
            | Item::TurtleKeySmall01 | Item::TurtleKeySmall02 | Item::TurtleKeySmall03
            | Item::LoruleCastleKeySmall01 | Item::LoruleCastleKeySmall02
            | Item::LoruleCastleKeySmall03 | Item::LoruleCastleKeySmall04
            | Item::LoruleCastleKeySmall05 => GameItem::KeySmall,
            Item::EasternKeyBig | Item::GalesKeyBig | Item::HeraKeyBig | Item::DarkKeyBig
            | Item::SwampKeyBig | Item::SkullKeyBig | Item::ThievesKeyBig | Item::IceKeyBig
            | Item::DesertKeyBig | Item::TurtleKeyBig => GameItem::KeyBoss,
            Item::EasternCompass | Item::GalesCompass | Item::HeraCompass | Item::DarkCompass
            | Item::SwampCompass | Item::SkullCompass | Item::ThievesCompass | Item::IceCompass
            | Item::DesertCompass | Item::TurtleCompass | Item::LoruleCastleCompass => GameItem::Compass,
            Item::GreatSpin => GameItem::SpecialMove,
            Item::RupeeGreen => GameItem::RupeeG,
            Item::RupeeBlue => GameItem::RupeeB,
            Item::RupeeRed => GameItem::RupeeR,
            Item::RupeePurple01 | Item::RupeePurple02 | Item::RupeePurple03
            | Item::RupeePurple04 | Item::RupeePurple05 | Item::RupeePurple06
            | Item::RupeePurple07 | Item::RupeePurple08 | Item::RupeePurple09
            | Item::RupeePurple10 | Item::RupeePurple11 | Item::RupeePurple12
            | Item::RupeePurple13 | Item::RupeePurple14 | Item::RupeePurple15
            | Item::RupeePurple16 | Item::RupeePurple17 | Item::RupeePurple18
            | Item::RupeePurple19 | Item::RupeePurple20 => GameItem::RupeePurple,
            Item::RupeeSilver01 | Item::RupeeSilver02 | Item::RupeeSilver03
            | Item::RupeeSilver04 | Item::RupeeSilver05 | Item::RupeeSilver06
            | Item::RupeeSilver07 | Item::RupeeSilver08 | Item::RupeeSilver09
            | Item::RupeeSilver10 | Item::RupeeSilver11 | Item::RupeeSilver12
            | Item::RupeeSilver13 | Item::RupeeSilver14 | Item::RupeeSilver15
            | Item::RupeeSilver16 | Item::RupeeSilver17 | Item::RupeeSilver18
            | Item::RupeeSilver19 | Item::RupeeSilver20 | Item::RupeeSilver21
            | Item::RupeeSilver22 | Item::RupeeSilver23 | Item::RupeeSilver24
            | Item::RupeeSilver25 | Item::RupeeSilver26 | Item::RupeeSilver27
            | Item::RupeeSilver28 | Item::RupeeSilver29 | Item::RupeeSilver30
            | Item::RupeeSilver31 | Item::RupeeSilver32 | Item::RupeeSilver33
            | Item::RupeeSilver34 | Item::RupeeSilver35 | Item::RupeeSilver36
            | Item::RupeeSilver37 | Item::RupeeSilver38 | Item::RupeeSilver39
            | Item::RupeeSilver40 | Item::RupeeSilver41 => GameItem::RupeeSilver,
            Item::RupeeGold01 | Item::RupeeGold02 | Item::RupeeGold03 | Item::RupeeGold04
            | Item::RupeeGold05 | Item::RupeeGold06 | Item::RupeeGold07 | Item::RupeeGold08
            | Item::RupeeGold09 | Item::RupeeGold10 => GameItem::RupeeGold,
            Item::Maiamai001 | Item::Maiamai002 | Item::Maiamai003 | Item::Maiamai004
            | Item::Maiamai005 | Item::Maiamai006 | Item::Maiamai007 | Item::Maiamai008
            | Item::Maiamai009 | Item::Maiamai010 | Item::Maiamai011 | Item::Maiamai012
            | Item::Maiamai013 | Item::Maiamai014 | Item::Maiamai015 | Item::Maiamai016
            | Item::Maiamai017 | Item::Maiamai018 | Item::Maiamai019 | Item::Maiamai020
            | Item::Maiamai021 | Item::Maiamai022 | Item::Maiamai023 | Item::Maiamai024
            | Item::Maiamai025 | Item::Maiamai026 | Item::Maiamai027 | Item::Maiamai028
            | Item::Maiamai029 | Item::Maiamai030 | Item::Maiamai031 | Item::Maiamai032
            | Item::Maiamai033 | Item::Maiamai034 | Item::Maiamai035 | Item::Maiamai036
            | Item::Maiamai037 | Item::Maiamai038 | Item::Maiamai039 | Item::Maiamai040
            | Item::Maiamai041 | Item::Maiamai042 | Item::Maiamai043 | Item::Maiamai044
            | Item::Maiamai045 | Item::Maiamai046 | Item::Maiamai047 | Item::Maiamai048
            | Item::Maiamai049 | Item::Maiamai050 | Item::Maiamai051 | Item::Maiamai052
            | Item::Maiamai053 | Item::Maiamai054 | Item::Maiamai055 | Item::Maiamai056
            | Item::Maiamai057 | Item::Maiamai058 | Item::Maiamai059 | Item::Maiamai060
            | Item::Maiamai061 | Item::Maiamai062 | Item::Maiamai063 | Item::Maiamai064
            | Item::Maiamai065 | Item::Maiamai066 | Item::Maiamai067 | Item::Maiamai068
            | Item::Maiamai069 | Item::Maiamai070 | Item::Maiamai071 | Item::Maiamai072
            | Item::Maiamai073 | Item::Maiamai074 | Item::Maiamai075 | Item::Maiamai076
            | Item::Maiamai077 | Item::Maiamai078 | Item::Maiamai079 | Item::Maiamai080
            | Item::Maiamai081 | Item::Maiamai082 | Item::Maiamai083 | Item::Maiamai084
            | Item::Maiamai085 | Item::Maiamai086 | Item::Maiamai087 | Item::Maiamai088
            | Item::Maiamai089 | Item::Maiamai090 | Item::Maiamai091 | Item::Maiamai092
            | Item::Maiamai093 | Item::Maiamai094 | Item::Maiamai095 | Item::Maiamai096
            | Item::Maiamai097 | Item::Maiamai098 | Item::Maiamai099 | Item::Maiamai100 => GameItem::Kinsta,
            Item::MonsterGuts => GameItem::LiverPurple,
            Item::MonsterHorn => GameItem::LiverYellow,
            Item::MonsterTail => GameItem::LiverBlue,
            Item::PendantOfPower => GameItem::PendantPower,
            Item::PendantOfWisdom => GameItem::PendantWisdom,
            Item::PendantOfCourage => GameItem::PendantCourage,
            Item::Charm => GameItem::ZeldaAmulet,
            Item::SageGulley => GameItem::SageGulley,
            Item::SageOren => GameItem::SageOren,
            Item::SageSeres => GameItem::SageSeres,
            Item::SageOsfala => GameItem::SageOsfala,
            Item::SageImpa => GameItem::SageImpa,
            Item::SageIrene => GameItem::SageIrene,
            Item::SageRosso => GameItem::SageRosso,
            Item::ScootFruit01 | Item::ScootFruit02 => GameItem::EscapeFruit,
            Item::FoulFruit01 | Item::FoulFruit02 => GameItem::StopFruit,
            Item::Shield01 | Item::Shield02 | Item::Shield03 | Item::Shield04 => GameItem::ItemShield,
            Item::Bee01 | Item::Bee02 => GameItem::Bee,
            Item::GoldBee01 | Item::GoldBee02 | Item::GoldBee03 => GameItem::GoldenBeeForSale,
            Item::Fairy01 | Item::Fairy02 => GameItem::Fairy,
            Item::Quake => GameItem::ItemRentalShield,
        }
    }

    /// Whether the item can change what is reachable.
    pub open spec fn in_sphere_search(self) -> bool {
        match self {
            Item::Bow01 | Item::Bow02 | Item::Bow03 | Item::Boomerang01 | Item::Boomerang02
            | Item::Hookshot01 | Item::Hookshot02 | Item::Bombs01 | Item::Bombs02
            | Item::FireRod01 | Item::FireRod02 | Item::IceRod01 | Item::IceRod02
            | Item::Hammer01 | Item::Hammer02 | Item::SandRod01 | Item::SandRod02
            | Item::TornadoRod01 | Item::TornadoRod02 | Item::Bell | Item::StaminaScroll
            | Item::BowOfLight | Item::PegasusBoots | Item::Flippers | Item::RaviosBracelet01
            | Item::RaviosBracelet02 | Item::HylianShield | Item::SmoothGem
            | Item::LetterInABottle | Item::PremiumMilk | Item::GreatSpin | Item::Bottle01
            | Item::Bottle02 | Item::Bottle03 | Item::Bottle04 | Item::Lamp01 | Item::Lamp02
            | Item::Sword01 | Item::Sword02 | Item::Sword03 | Item::Sword04 | Item::Glove01
            | Item::Glove02 | Item::Net01 | Item::Net02 | Item::Mail01 | Item::Mail02
            | Item::OreYellow | Item::OreGreen | Item::OreBlue | Item::OreRed
            | Item::HyruleSanctuaryKey | Item::LoruleSanctuaryKey | Item::EasternKeyBig
            | Item::EasternKeySmall01 | Item::EasternKeySmall02 | Item::GalesKeyBig
            | Item::GalesKeySmall01 | Item::GalesKeySmall02 | Item::GalesKeySmall03
            | Item::GalesKeySmall04 | Item::HeraKeyBig | Item::HeraKeySmall01
            | Item::HeraKeySmall02 | Item::DarkKeyBig | Item::DarkKeySmall01
            | Item::DarkKeySmall02 | Item::DarkKeySmall03 | Item::DarkKeySmall04
            | Item::SwampKeyBig | Item::SwampKeySmall01 | Item::SwampKeySmall02
            | Item::SwampKeySmall03 | Item::SwampKeySmall04 | Item::SkullKeyBig
            | Item::SkullKeySmall01 | Item::SkullKeySmall02 | Item::SkullKeySmall03
            | Item::ThievesKeyBig | Item::ThievesKeySmall | Item::IceKeyBig
            | Item::IceKeySmall01 | Item::IceKeySmall02 | Item::IceKeySmall03
            | Item::DesertKeyBig | Item::DesertKeySmall01 | Item::DesertKeySmall02
            | Item::DesertKeySmall03 | Item::DesertKeySmall04 | Item::DesertKeySmall05
            | Item::TurtleKeyBig | Item::TurtleKeySmall01 | Item::TurtleKeySmall02
            | Item::TurtleKeySmall03 | Item::LoruleCastleKeySmall01
            | Item::LoruleCastleKeySmall02 | Item::LoruleCastleKeySmall03
            | Item::LoruleCastleKeySmall04 | Item::LoruleCastleKeySmall05 | Item::Charm
            | Item::PendantOfPower | Item::PendantOfWisdom | Item::PendantOfCourage
            | Item::SageGulley | Item::SageOren | Item::SageSeres | Item::SageOsfala
            | Item::SageRosso | Item::SageIrene | Item::SageImpa | Item::ScootFruit01
            | Item::ScootFruit02 | Item::GoldBee01 => true,
            _ => false,
        }
    }

    /// The article that goes before the item's name in a sentence.
    pub open spec fn article(self) -> &'static str {
        match self {
            Item::Empty => "",
            Item::Bow01 | Item::Bow02 | Item::Bow03 | Item::Boomerang01 | Item::Boomerang02
            | Item::Hookshot01 | Item::Hookshot02 | Item::FireRod01 | Item::FireRod02
            | Item::IceRod01 | Item::IceRod02 | Item::Hammer01 | Item::Hammer02
            | Item::SandRod01 | Item::SandRod02 | Item::TornadoRod01 | Item::TornadoRod02 => "the",
            Item::Bombs01 | Item::Bombs02 => "",
            Item::Bell | Item::StaminaScroll | Item::BowOfLight | Item::PegasusBoots => "the",
            Item::Flippers => "",
            Item::RaviosBracelet01 | Item::RaviosBracelet02 => "a",
            Item::HylianShield | Item::SmoothGem | Item::LetterInABottle | Item::PremiumMilk
            | Item::Pouch | Item::BeeBadge | Item::HintGlasses | Item::GreatSpin => "the",
            Item::RupeeGreen | Item::RupeeBlue | Item::RupeeRed | Item::RupeePurple01
            | Item::RupeePurple02 | Item::RupeePurple03 | Item::RupeePurple04
            | Item::RupeePurple05 | Item::RupeePurple06 | Item::RupeePurple07
            | Item::RupeePurple08 | Item::RupeePurple09 | Item::RupeePurple10
            | Item::RupeePurple11 | Item::RupeePurple12 | Item::RupeePurple13
            | Item::RupeePurple14 | Item::RupeePurple15 | Item::RupeePurple16
            | Item::RupeePurple17 | Item::RupeePurple18 | Item::RupeePurple19
            | Item::RupeePurple20 | Item::RupeeSilver01 | Item::RupeeSilver02
            | Item::RupeeSilver03 | Item::RupeeSilver04 | Item::RupeeSilver05
            | Item::RupeeSilver06 | Item::RupeeSilver07 | Item::RupeeSilver08
            | Item::RupeeSilver09 | Item::RupeeSilver10 | Item::RupeeSilver11
            | Item::RupeeSilver12 | Item::RupeeSilver13 | Item::RupeeSilver14
            | Item::RupeeSilver15 | Item::RupeeSilver16 | Item::RupeeSilver17
            | Item::RupeeSilver18 | Item::RupeeSilver19 | Item::RupeeSilver20
            | Item::RupeeSilver21 | Item::RupeeSilver22 | Item::RupeeSilver23
            | Item::RupeeSilver24 | Item::RupeeSilver25 | Item::RupeeSilver26
            | Item::RupeeSilver27 | Item::RupeeSilver28 | Item::RupeeSilver29
            | Item::RupeeSilver30 | Item::RupeeSilver31 | Item::RupeeSilver32
            | Item::RupeeSilver33 | Item::RupeeSilver34 | Item::RupeeSilver35
            | Item::RupeeSilver36 | Item::RupeeSilver37 | Item::RupeeSilver38
            | Item::RupeeSilver39 | Item::RupeeSilver40 | Item::RupeeSilver41
            | Item::RupeeGold01 | Item::RupeeGold02 | Item::RupeeGold03 | Item::RupeeGold04
            | Item::RupeeGold05 | Item::RupeeGold06 | Item::RupeeGold07 | Item::RupeeGold08
            | Item::RupeeGold09 | Item::RupeeGold10 | Item::Maiamai001 | Item::Maiamai002
            | Item::Maiamai003 | Item::Maiamai004 | Item::Maiamai005 | Item::Maiamai006
            | Item::Maiamai007 | Item::Maiamai008 | Item::Maiamai009 | Item::Maiamai010
            | Item::Maiamai011 | Item::Maiamai012 | Item::Maiamai013 | Item::Maiamai014
            | Item::Maiamai015 | Item::Maiamai016 | Item::Maiamai017 | Item::Maiamai018
            | Item::Maiamai019 | Item::Maiamai020 | Item::Maiamai021 | Item::Maiamai022
            | Item::Maiamai023 | Item::Maiamai024 | Item::Maiamai025 | Item::Maiamai026
            | Item::Maiamai027 | Item::Maiamai028 | Item::Maiamai029 | Item::Maiamai030
            | Item::Maiamai031 | Item::Maiamai032 | Item::Maiamai033 | Item::Maiamai034
            | Item::Maiamai035 | Item::Maiamai036 | Item::Maiamai037 | Item::Maiamai038
            | Item::Maiamai039 | Item::Maiamai040 | Item::Maiamai041 | Item::Maiamai042
            | Item::Maiamai043 | Item::Maiamai044 | Item::Maiamai045 | Item::Maiamai046
            | Item::Maiamai047 | Item::Maiamai048 | Item::Maiamai049 | Item::Maiamai050
            | Item::Maiamai051 | Item::Maiamai052 | Item::Maiamai053 | Item::Maiamai054
            | Item::Maiamai055 | Item::Maiamai056 | Item::Maiamai057 | Item::Maiamai058
            | Item::Maiamai059 | Item::Maiamai060 | Item::Maiamai061 | Item::Maiamai062
            | Item::Maiamai063 | Item::Maiamai064 | Item::Maiamai065 | Item::Maiamai066
            | Item::Maiamai067 | Item::Maiamai068 | Item::Maiamai069 | Item::Maiamai070
            | Item::Maiamai071 | Item::Maiamai072 | Item::Maiamai073 | Item::Maiamai074
            | Item::Maiamai075 | Item::Maiamai076 | Item::Maiamai077 | Item::Maiamai078
            | Item::Maiamai079 | Item::Maiamai080 | Item::Maiamai081 | Item::Maiamai082
            | Item::Maiamai083 | Item::Maiamai084 | Item::Maiamai085 | Item::Maiamai086
            | Item::Maiamai087 | Item::Maiamai088 | Item::Maiamai089 | Item::Maiamai090
            | Item::Maiamai091 | Item::Maiamai092 | Item::Maiamai093 | Item::Maiamai094
            | Item::Maiamai095 | Item::Maiamai096 | Item::Maiamai097 | Item::Maiamai098
            | Item::Maiamai099 | Item::Maiamai100 => "a",
            Item::MonsterGuts => "some",
            Item::MonsterHorn | Item::MonsterTail => "a",
            Item::HeartPiece01 | Item::HeartPiece02 | Item::HeartPiece03 | Item::HeartPiece04
            | Item::HeartPiece05 | Item::HeartPiece06 | Item::HeartPiece07 | Item::HeartPiece08
            | Item::HeartPiece09 | Item::HeartPiece10 | Item::HeartPiece11 | Item::HeartPiece12
            | Item::HeartPiece13 | Item::HeartPiece14 | Item::HeartPiece15 | Item::HeartPiece16
            | Item::HeartPiece17 | Item::HeartPiece18 | Item::HeartPiece19 | Item::HeartPiece20
            | Item::HeartPiece21 | Item::HeartPiece22 | Item::HeartPiece23 | Item::HeartPiece24
            | Item::HeartPiece25 | Item::HeartPiece26 | Item::HeartPiece27 | Item::HeartPiece28
            | Item::HeartContainer01 | Item::HeartContainer02 | Item::HeartContainer03
            | Item::HeartContainer04 | Item::HeartContainer05 | Item::HeartContainer06
            | Item::HeartContainer07 | Item::HeartContainer08 | Item::HeartContainer09
            | Item::HeartContainer10 => "a",
            Item::Bottle01 | Item::Bottle02 | Item::Bottle03 | Item::Bottle04 | Item::Bottle05 => "an",
            Item::Lamp01 | Item::Lamp02 => "the",
            Item::Sword01 | Item::Sword02 | Item::Sword03 | Item::Sword04 => "a",
            Item::Glove01 | Item::Glove02 => "a",
            Item::Net01 | Item::Net02 => "the",
            Item::Mail01 | Item::Mail02 => "an",
            Item::OreYellow | Item::OreGreen | Item::OreBlue | Item::OreRed => "some",
            Item::HyruleSanctuaryKey | Item::LoruleSanctuaryKey => "the",
            Item::EasternCompass | Item::EasternKeyBig => "the",
            Item::EasternKeySmall01 | Item::EasternKeySmall02 => "an",
            Item::GalesCompass | Item::GalesKeyBig => "the",
            Item::GalesKeySmall01 | Item::GalesKeySmall02 | Item::GalesKeySmall03
            | Item::GalesKeySmall04 => "a",
            Item::HeraCompass | Item::HeraKeyBig => "the",
            Item::HeraKeySmall01 | Item::HeraKeySmall02 => "a",
            Item::DarkCompass | Item::DarkKeyBig => "the",
            Item::DarkKeySmall01 | Item::DarkKeySmall02 | Item::DarkKeySmall03
            | Item::DarkKeySmall04 => "a",
            Item::SwampCompass | Item::SwampKeyBig => "the",
            Item::SwampKeySmall01 | Item::SwampKeySmall02 | Item::SwampKeySmall03
            | Item::SwampKeySmall04 => "a",
            Item::SkullCompass | Item::SkullKeyBig => "the",
            Item::SkullKeySmall01 | Item::SkullKeySmall02 | Item::SkullKeySmall03 => "a",
            Item::ThievesCompass | Item::ThievesKeyBig | Item::ThievesKeySmall => "the",
            Item::IceCompass | Item::IceKeyBig => "the",
            Item::IceKeySmall01 | Item::IceKeySmall02 | Item::IceKeySmall03 => "an",
            Item::DesertCompass | Item::DesertKeyBig => "the",
            Item::DesertKeySmall01 | Item::DesertKeySmall02 | Item::DesertKeySmall03
            | Item::DesertKeySmall04 | Item::DesertKeySmall05 => "a",
            Item::TurtleCompass | Item::TurtleKeyBig => "the",
            Item::TurtleKeySmall01 | Item::TurtleKeySmall02 | Item::TurtleKeySmall03 => "a",
            Item::LoruleCastleCompass => "the",
            Item::LoruleCastleKeySmall01 | Item::LoruleCastleKeySmall02
            | Item::LoruleCastleKeySmall03 | Item::LoruleCastleKeySmall04
            | Item::LoruleCastleKeySmall05 => "a",
            Item::PendantOfPower | Item::PendantOfWisdom | Item::PendantOfCourage => "the",
            Item::Charm => "a",
            Item::SageGulley | Item::SageOren | Item::SageSeres | Item::SageOsfala
            | Item::SageRosso | Item::SageIrene | Item::SageImpa => "",
            Item::ScootFruit01 | Item::FoulFruit01 | Item::Shield01 | Item::ScootFruit02
            | Item::FoulFruit02 | Item::Shield02 | Item::GoldBee01 | Item::Bee01
            | Item::GoldBee02 | Item::Fairy01 | Item::Shield03 | Item::Bee02 | Item::GoldBee03
            | Item::Fairy02 | Item::Shield04 => "a",
            Item::Quake => "the",
        }
    }

    /// The display name of the item.
    pub open spec fn name(self) -> &'static str {
        match self {
            Item::Empty => "Empty",
            Item::Bow01 | Item::Bow02 | Item::Bow03 => "Bow+",
            Item::Boomerang01 | Item::Boomerang02 => "Boomerang+",
            Item::Hookshot01 | Item::Hookshot02 => "Hookshot+",
            Item::Bombs01 | Item::Bombs02 => "Bombs+",
            Item::FireRod01 | Item::FireRod02 => "Fire Rod+",
            Item::IceRod01 | Item::IceRod02 => "Ice Rod+",
            Item::Hammer01 | Item::Hammer02 => "Hammer+",
            Item::SandRod01 | Item::SandRod02 => "Sand Rod+",
            Item::TornadoRod01 | Item::TornadoRod02 => "Tornado Rod+",
            Item::Bell => "Bell",
            Item::StaminaScroll => "Stamina Scroll",
            Item::BowOfLight => "Bow of Light",
            Item::PegasusBoots => "Pegasus Boots",
            Item::Flippers => "Zora's Flippers",
            Item::RaviosBracelet01 | Item::RaviosBracelet02 => "Ravio's Bracelet+",
            Item::HylianShield => "Hylian Shield",
            Item::SmoothGem => "Smooth Gem",
            Item::LetterInABottle => "Letter in a Bottle",
            Item::PremiumMilk => "Premium Milk",
            Item::Pouch => "Pouch",
            Item::BeeBadge => "Bee Badge",
            Item::HintGlasses => "Hint Glasses",
            Item::GreatSpin => "Great Spin",
            Item::RupeeGreen => "Green Rupee",
            Item::RupeeBlue => "Blue Rupee",
            Item::RupeeRed => "Red Rupee",
            Item::RupeePurple01 | Item::RupeePurple02 | Item::RupeePurple03
            | Item::RupeePurple04 | Item::RupeePurple05 | Item::RupeePurple06
            | Item::RupeePurple07 | Item::RupeePurple08 | Item::RupeePurple09
            | Item::RupeePurple10 | Item::RupeePurple11 | Item::RupeePurple12
            | Item::RupeePurple13 | Item::RupeePurple14 | Item::RupeePurple15
            | Item::RupeePurple16 | Item::RupeePurple17 | Item::RupeePurple18
            | Item::RupeePurple19 | Item::RupeePurple20 => "Purple Rupee",
            Item::RupeeSilver01 | Item::RupeeSilver02 | Item::RupeeSilver03
            | Item::RupeeSilver04 | Item::RupeeSilver05 | Item::RupeeSilver06
            | Item::RupeeSilver07 | Item::RupeeSilver08 | Item::RupeeSilver09
            | Item::RupeeSilver10 | Item::RupeeSilver11 | Item::RupeeSilver12
            | Item::RupeeSilver13 | Item::RupeeSilver14 | Item::RupeeSilver15
            | Item::RupeeSilver16 | Item::RupeeSilver17 | Item::RupeeSilver18
            | Item::RupeeSilver19 | Item::RupeeSilver20 | Item::RupeeSilver21
            | Item::RupeeSilver22 | Item::RupeeSilver23 | Item::RupeeSilver24
            | Item::RupeeSilver25 | Item::RupeeSilver26 | Item::RupeeSilver27
            | Item::RupeeSilver28 | Item::RupeeSilver29 | Item::RupeeSilver30
            | Item::RupeeSilver31 | Item::RupeeSilver32 | Item::RupeeSilver33
            | Item::RupeeSilver34 | Item::RupeeSilver35 | Item::RupeeSilver36
            | Item::RupeeSilver37 | Item::RupeeSilver38 | Item::RupeeSilver39
            | Item::RupeeSilver40 | Item::RupeeSilver41 => "Silver Rupee",
            Item::RupeeGold01 | Item::RupeeGold02 | Item::RupeeGold03 | Item::RupeeGold04
            | Item::RupeeGold05 | Item::RupeeGold06 | Item::RupeeGold07 | Item::RupeeGold08
            | Item::RupeeGold09 | Item::RupeeGold10 => "Gold Rupee",
            Item::Maiamai001 | Item::Maiamai002 | Item::Maiamai003 | Item::Maiamai004
            | Item::Maiamai005 | Item::Maiamai006 | Item::Maiamai007 | Item::Maiamai008
            | Item::Maiamai009 | Item::Maiamai010 | Item::Maiamai011 | Item::Maiamai012
            | Item::Maiamai013 | Item::Maiamai014 | Item::Maiamai015 | Item::Maiamai016
            | Item::Maiamai017 | Item::Maiamai018 | Item::Maiamai019 | Item::Maiamai020
            | Item::Maiamai021 | Item::Maiamai022 | Item::Maiamai023 | Item::Maiamai024
            | Item::Maiamai025 | Item::Maiamai026 | Item::Maiamai027 | Item::Maiamai028
            | Item::Maiamai029 | Item::Maiamai030 | Item::Maiamai031 | Item::Maiamai032
            | Item::Maiamai033 | Item::Maiamai034 | Item::Maiamai035 | Item::Maiamai036
            | Item::Maiamai037 | Item::Maiamai038 | Item::Maiamai039 | Item::Maiamai040
            | Item::Maiamai041 | Item::Maiamai042 | Item::Maiamai043 | Item::Maiamai044
            | Item::Maiamai045 | Item::Maiamai046 | Item::Maiamai047 | Item::Maiamai048
            | Item::Maiamai049 | Item::Maiamai050 | Item::Maiamai051 | Item::Maiamai052
            | Item::Maiamai053 | Item::Maiamai054 | Item::Maiamai055 | Item::Maiamai056
            | Item::Maiamai057 | Item::Maiamai058 | Item::Maiamai059 | Item::Maiamai060
            | Item::Maiamai061 | Item::Maiamai062 | Item::Maiamai063 | Item::Maiamai064
            | Item::Maiamai065 | Item::Maiamai066 | Item::Maiamai067 | Item::Maiamai068
            | Item::Maiamai069 | Item::Maiamai070 | Item::Maiamai071 | Item::Maiamai072
            | Item::Maiamai073 | Item::Maiamai074 | Item::Maiamai075 | Item::Maiamai076
            | Item::Maiamai077 | Item::Maiamai078 | Item::Maiamai079 | Item::Maiamai080
            | Item::Maiamai081 | Item::Maiamai082 | Item::Maiamai083 | Item::Maiamai084
            | Item::Maiamai085 | Item::Maiamai086 | Item::Maiamai087 | Item::Maiamai088
            | Item::Maiamai089 | Item::Maiamai090 | Item::Maiamai091 | Item::Maiamai092
            | Item::Maiamai093 | Item::Maiamai094 | Item::Maiamai095 | Item::Maiamai096
            | Item::Maiamai097 | Item::Maiamai098 | Item::Maiamai099 | Item::Maiamai100 => "Lost Maiamai",
            Item::MonsterGuts => "Monster Guts",
            Item::MonsterHorn => "Monster Horn",
            Item::MonsterTail => "Monster Tail",
            Item::HeartPiece01 | Item::HeartPiece02 | Item::HeartPiece03 | Item::HeartPiece04
            | Item::HeartPiece05 | Item::HeartPiece06 | Item::HeartPiece07 | Item::HeartPiece08
            | Item::HeartPiece09 | Item::HeartPiece10 | Item::HeartPiece11 | Item::HeartPiece12
            | Item::HeartPiece13 | Item::HeartPiece14 | Item::HeartPiece15 | Item::HeartPiece16
            | Item::HeartPiece17 | Item::HeartPiece18 | Item::HeartPiece19 | Item::HeartPiece20
            | Item::HeartPiece21 | Item::HeartPiece22 | Item::HeartPiece23 | Item::HeartPiece24
            | Item::HeartPiece25 | Item::HeartPiece26 | Item::HeartPiece27 | Item::HeartPiece28 => "Heart Piece",
            Item::HeartContainer01 | Item::HeartContainer02 | Item::HeartContainer03
            | Item::HeartContainer04 | Item::HeartContainer05 | Item::HeartContainer06
            | Item::HeartContainer07 | Item::HeartContainer08 | Item::HeartContainer09
            | Item::HeartContainer10 => "Heart Container",
            Item::Bottle01 | Item::Bottle02 | Item::Bottle03 | Item::Bottle04 | Item::Bottle05 => "Empty Bottle",
            Item::Lamp01 | Item::Lamp02 => "Lamp+",
            Item::Sword01 | Item::Sword02 | Item::Sword03 | Item::Sword04 => "Sword+",
            Item::Glove01 | Item::Glove02 => "Strength+",
            Item::Net01 | Item::Net02 => "Net+",
            Item::Mail01 | Item::Mail02 => "Mail+",
            Item::OreYellow | Item::OreGreen | Item::OreBlue | Item::OreRed => "Master Ore",
            Item::HyruleSanctuaryKey => "Hyrule Sewers Key",
            Item::LoruleSanctuaryKey => "Lorule Sewers Key",
            Item::EasternCompass => "Eastern Palace Compass",
            Item::EasternKeyBig => "Eastern Palace Big Key",
            Item::EasternKeySmall01 | Item::EasternKeySmall02 => "Eastern Palace Small Key",
            Item::GalesCompass => "House of Gales Compass",
            Item::GalesKeyBig => "House of Gales Big Key",
            Item::GalesKeySmall01 | Item::GalesKeySmall02 | Item::GalesKeySmall03
            | Item::GalesKeySmall04 => "House of Gales Small Key",
            Item::HeraCompass => "Tower of Hera Compass",
            Item::HeraKeyBig => "Tower of Hera Big Key",
            Item::HeraKeySmall01 | Item::HeraKeySmall02 => "Tower of Hera Small Key",
            Item::DarkCompass => "Dark Palace Compass",
            Item::DarkKeyBig => "Dark Palace Big Key",
            Item::DarkKeySmall01 | Item::DarkKeySmall02 | Item::DarkKeySmall03
            | Item::DarkKeySmall04 => "Dark Palace Small Key",
            Item::SwampCompass => "Swamp Palace Compass",
            Item::SwampKeyBig => "Swamp Palace Big Key",
            Item::SwampKeySmall01 | Item::SwampKeySmall02 | Item::SwampKeySmall03
            | Item::SwampKeySmall04 => "Swamp Palace Small Key",
            Item::SkullCompass => "Skull Woods Compass",
            Item::SkullKeyBig => "Skull Woods Big Key",
            Item::SkullKeySmall01 | Item::SkullKeySmall02 | Item::SkullKeySmall03 => "Skull Woods Small Key",
            Item::ThievesCompass => "Thieves' Hideout Compass",
            Item::ThievesKeyBig => "Thieves' Hideout Big Key",
            Item::ThievesKeySmall => "Thieves' Hideout Small Key",
            Item::IceCompass => "Ice Ruins Compass",
            Item::IceKeyBig => "Ice Ruins Big Key",
            Item::IceKeySmall01 | Item::IceKeySmall02 | Item::IceKeySmall03 => "Ice Ruins Small Key",
            Item::DesertCompass => "Desert Palace Compass",
            Item::DesertKeyBig => "Desert Palace Big Key",
            Item::DesertKeySmall01 | Item::DesertKeySmall02 | Item::DesertKeySmall03
            | Item::DesertKeySmall04 | Item::DesertKeySmall05 => "Desert Palace Small Key",
            Item::TurtleCompass => "Turtle Rock Compass",
            Item::TurtleKeyBig => "Turtle Rock Big Key",
            Item::TurtleKeySmall01 | Item::TurtleKeySmall02 | Item::TurtleKeySmall03 => "Turtle Rock Small Key",
            Item::LoruleCastleCompass => "Lorule Castle Compass",
            Item::LoruleCastleKeySmall01 | Item::LoruleCastleKeySmall02
            | Item::LoruleCastleKeySmall03 | Item::LoruleCastleKeySmall04
            | Item::LoruleCastleKeySmall05 => "Lorule Castle Small Key",
            Item::PendantOfPower => "Pendant of Power",
            Item::PendantOfWisdom => "Pendant of Wisdom",
            Item::PendantOfCourage => "Pendant of Courage",
            Item::Charm => "Charm",
            Item::SageGulley => "Sage Gulley",
            Item::SageOren => "Sage Oren",
            Item::SageSeres => "Sage Seres",
            Item::SageOsfala => "Sage Osfala",
            Item::SageRosso => "Sage Rosso",
            Item::SageIrene => "Sage Irene",
            Item::SageImpa => "Sage Impa",
            Item::ScootFruit01 | Item::ScootFruit02 => "Scoot Fruit",
            Item::FoulFruit01 | Item::FoulFruit02 => "Foul Fruit",
            Item::Bee01 | Item::Bee02 => "Bee",
            Item::GoldBee01 | Item::GoldBee02 | Item::GoldBee03 => "Golden Bee",
            Item::Fairy01 | Item::Fairy02 => "Fairy",
            Item::Shield01 | Item::Shield02 | Item::Shield03 | Item::Shield04 => "Shield",
            Item::Quake => "Quake Medallion",
        }
    }

    pub fn to_game_item(&self) -> (r: GameItem)
        ensures
            r == self.game_item(),
    {
        match *self {
            Item::Empty => GameItem::Empty,
            Item::Bow01 | Item::Bow02 | Item::Bow03 => GameItem::ItemBow,
            Item::Boomerang01 | Item::Boomerang02 => GameItem::ItemBoomerang,
            Item::Hookshot01 | Item::Hookshot02 => GameItem::ItemHookShot,
            Item::Bombs01 | Item::Bombs02 => GameItem::ItemBomb,
            Item::FireRod01 | Item::FireRod02 => GameItem::ItemFireRod,
            Item::IceRod01 | Item::IceRod02 => GameItem::ItemIceRod,
            Item::Hammer01 | Item::Hammer02 => GameItem::ItemHammer,
            Item::Bell => GameItem::ItemBell,
            Item::StaminaScroll => GameItem::GanbariPowerUp,
            Item::SandRod01 | Item::SandRod02 => GameItem::ItemSandRod,
            Item::TornadoRod01 | Item::TornadoRod02 => GameItem::ItemTornadeRod,
            Item::BowOfLight => GameItem::ItemBowLight,
            Item::PegasusBoots => GameItem::DashBoots,
            Item::Flippers => GameItem::ItemMizukaki,
            Item::RaviosBracelet01 => GameItem::RingRental,
            Item::RaviosBracelet02 => GameItem::RingRental,
            Item::HylianShield => GameItem::HyruleShield,
            Item::SmoothGem => GameItem::ItemStoneBeauty,
            Item::LetterInABottle => GameItem::MessageBottle,
            Item::PremiumMilk => GameItem::MilkMatured,
            Item::Pouch => GameItem::Pouch,
            Item::BeeBadge => GameItem::BadgeBee,
            Item::HintGlasses => GameItem::HintGlasses,
            Item::HeartPiece01 | Item::HeartPiece02 | Item::HeartPiece03 | Item::HeartPiece04
            | Item::HeartPiece05 | Item::HeartPiece06 | Item::HeartPiece07 | Item::HeartPiece08
            | Item::HeartPiece09 | Item::HeartPiece10 | Item::HeartPiece11 | Item::HeartPiece12
            | Item::HeartPiece13 | Item::HeartPiece14 | Item::HeartPiece15 | Item::HeartPiece16
            | Item::HeartPiece17 | Item::HeartPiece18 | Item::HeartPiece19 | Item::HeartPiece20
            | Item::HeartPiece21 | Item::HeartPiece22 | Item::HeartPiece23 | Item::HeartPiece24
            | Item::HeartPiece25 | Item::HeartPiece26 | Item::HeartPiece27 | Item::HeartPiece28 => GameItem::HeartPiece,
            Item::HeartContainer01 | Item::HeartContainer02 | Item::HeartContainer03
            | Item::HeartContainer04 | Item::HeartContainer05 | Item::HeartContainer06
            | Item::HeartContainer07 | Item::HeartContainer08 | Item::HeartContainer09
            | Item::HeartContainer10 => GameItem::HeartContainer,
            Item::Bottle01 | Item::Bottle02 | Item::Bottle03 | Item::Bottle04 | Item::Bottle05 => GameItem::ItemBottle,
            Item::Lamp01 | Item::Lamp02 => GameItem::ItemKandelaar,
            Item::Sword01 | Item::Sword02 | Item::Sword03 | Item::Sword04 => GameItem::ItemSwordLv2,
            Item::Glove01 | Item::Glove02 => GameItem::PowerGlove,
            Item::Net01 | Item::Net02 => GameItem::ItemInsectNet,
            Item::Mail01 | Item::Mail02 => GameItem::ClothesBlue,
            Item::OreYellow => GameItem::OreYellow,
            Item::OreGreen => GameItem::OreGreen,
            Item::OreBlue => GameItem::OreBlue,
            Item::OreRed => GameItem::OreRed,
            Item::HyruleSanctuaryKey | Item::LoruleSanctuaryKey | Item::EasternKeySmall01
            | Item::EasternKeySmall02 | Item::GalesKeySmall01 | Item::GalesKeySmall02
            | Item::GalesKeySmall03 | Item::GalesKeySmall04 | Item::HeraKeySmall01
            | Item::HeraKeySmall02 | Item::DarkKeySmall01 | Item::DarkKeySmall02
            | Item::DarkKeySmall03 | Item::DarkKeySmall04 | Item::SwampKeySmall01
            | Item::SwampKeySmall02 | Item::SwampKeySmall03 | Item::SwampKeySmall04
            | Item::SkullKeySmall01 | Item::SkullKeySmall02 | Item::SkullKeySmall03
            | Item::ThievesKeySmall | Item::IceKeySmall01 | Item::IceKeySmall02
            | Item::IceKeySmall03 | Item::DesertKeySmall01 | Item::DesertKeySmall02
            | Item::DesertKeySmall03 | Item::DesertKeySmall04 | Item::DesertKeySmall05
            | Item::TurtleKeySmall01 | Item::TurtleKeySmall02 | Item::TurtleKeySmall03
            | Item::LoruleCastleKeySmall01 | Item::LoruleCastleKeySmall02
            | Item::LoruleCastleKeySmall03 | Item::LoruleCastleKeySmall04
            | Item::LoruleCastleKeySmall05 => GameItem::KeySmall,
            Item::EasternKeyBig | Item::GalesKeyBig | Item::HeraKeyBig | Item::DarkKeyBig
            | Item::SwampKeyBig | Item::SkullKeyBig | Item::ThievesKeyBig | Item::IceKeyBig
            | Item::DesertKeyBig | Item::TurtleKeyBig => GameItem::KeyBoss,
            Item::EasternCompass | Item::GalesCompass | Item::HeraCompass | Item::DarkCompass
            | Item::SwampCompass | Item::SkullCompass | Item::ThievesCompass | Item::IceCompass
            | Item::DesertCompass | Item::TurtleCompass | Item::LoruleCastleCompass => GameItem::Compass,
            Item::GreatSpin => GameItem::SpecialMove,
            Item::RupeeGreen => GameItem::RupeeG,
            Item::RupeeBlue => GameItem::RupeeB,
            Item::RupeeRed => GameItem::RupeeR,
            Item::RupeePurple01 | Item::RupeePurple02 | Item::RupeePurple03
            | Item::RupeePurple04 | Item::RupeePurple05 | Item::RupeePurple06
            | Item::RupeePurple07 | Item::RupeePurple08 | Item::RupeePurple09
            | Item::RupeePurple10 | Item::RupeePurple11 | Item::RupeePurple12
            | Item::RupeePurple13 | Item::RupeePurple14 | Item::RupeePurple15
            | Item::RupeePurple16 | Item::RupeePurple17 | Item::RupeePurple18
            | Item::RupeePurple19 | Item::RupeePurple20 => GameItem::RupeePurple,
            Item::RupeeSilver01 | Item::RupeeSilver02 | Item::RupeeSilver03
            | Item::RupeeSilver04 | Item::RupeeSilver05 | Item::RupeeSilver06
            | Item::RupeeSilver07 | Item::RupeeSilver08 | Item::RupeeSilver09
            | Item::RupeeSilver10 | Item::RupeeSilver11 | Item::RupeeSilver12
            | Item::RupeeSilver13 | Item::RupeeSilver14 | Item::RupeeSilver15
            | Item::RupeeSilver16 | Item::RupeeSilver17 | Item::RupeeSilver18
            | Item::RupeeSilver19 | Item::RupeeSilver20 | Item::RupeeSilver21
            | Item::RupeeSilver22 | Item::RupeeSilver23 | Item::RupeeSilver24
            | Item::RupeeSilver25 | Item::RupeeSilver26 | Item::RupeeSilver27
            | Item::RupeeSilver28 | Item::RupeeSilver29 | Item::RupeeSilver30
            | Item::RupeeSilver31 | Item::RupeeSilver32 | Item::RupeeSilver33
            | Item::RupeeSilver34 | Item::RupeeSilver35 | Item::RupeeSilver36
            | Item::RupeeSilver37 | Item::RupeeSilver38 | Item::RupeeSilver39
            | Item::RupeeSilver40 | Item::RupeeSilver41 => GameItem::RupeeSilver,
            Item::RupeeGold01 | Item::RupeeGold02 | Item::RupeeGold03 | Item::RupeeGold04
            | Item::RupeeGold05 | Item::RupeeGold06 | Item::RupeeGold07 | Item::RupeeGold08
            | Item::RupeeGold09 | Item::RupeeGold10 => GameItem::RupeeGold,
            Item::Maiamai001 | Item::Maiamai002 | Item::Maiamai003 | Item::Maiamai004
            | Item::Maiamai005 | Item::Maiamai006 | Item::Maiamai007 | Item::Maiamai008
            | Item::Maiamai009 | Item::Maiamai010 | Item::Maiamai011 | Item::Maiamai012
            | Item::Maiamai013 | Item::Maiamai014 | Item::Maiamai015 | Item::Maiamai016
            | Item::Maiamai017 | Item::Maiamai018 | Item::Maiamai019 | Item::Maiamai020
            | Item::Maiamai021 | Item::Maiamai022 | Item::Maiamai023 | Item::Maiamai024
            | Item::Maiamai025 | Item::Maiamai026 | Item::Maiamai027 | Item::Maiamai028
            | Item::Maiamai029 | Item::Maiamai030 | Item::Maiamai031 | Item::Maiamai032
            | Item::Maiamai033 | Item::Maiamai034 | Item::Maiamai035 | Item::Maiamai036
            | Item::Maiamai037 | Item::Maiamai038 | Item::Maiamai039 | Item::Maiamai040
            | Item::Maiamai041 | Item::Maiamai042 | Item::Maiamai043 | Item::Maiamai044
            | Item::Maiamai045 | Item::Maiamai046 | Item::Maiamai047 | Item::Maiamai048
            | Item::Maiamai049 | Item::Maiamai050 | Item::Maiamai051 | Item::Maiamai052
            | Item::Maiamai053 | Item::Maiamai054 | Item::Maiamai055 | Item::Maiamai056
            | Item::Maiamai057 | Item::Maiamai058 | Item::Maiamai059 | Item::Maiamai060
            | Item::Maiamai061 | Item::Maiamai062 | Item::Maiamai063 | Item::Maiamai064
            | Item::Maiamai065 | Item::Maiamai066 | Item::Maiamai067 | Item::Maiamai068
            | Item::Maiamai069 | Item::Maiamai070 | Item::Maiamai071 | Item::Maiamai072
            | Item::Maiamai073 | Item::Maiamai074 | Item::Maiamai075 | Item::Maiamai076
            | Item::Maiamai077 | Item::Maiamai078 | Item::Maiamai079 | Item::Maiamai080
            | Item::Maiamai081 | Item::Maiamai082 | Item::Maiamai083 | Item::Maiamai084
            | Item::Maiamai085 | Item::Maiamai086 | Item::Maiamai087 | Item::Maiamai088
            | Item::Maiamai089 | Item::Maiamai090 | Item::Maiamai091 | Item::Maiamai092
            | Item::Maiamai093 | Item::Maiamai094 | Item::Maiamai095 | Item::Maiamai096
            | Item::Maiamai097 | Item::Maiamai098 | Item::Maiamai099 | Item::Maiamai100 => GameItem::Kinsta,
            Item::MonsterGuts => GameItem::LiverPurple,
            Item::MonsterHorn => GameItem::LiverYellow,
            Item::MonsterTail => GameItem::LiverBlue,
            Item::PendantOfPower => GameItem::PendantPower,
            Item::PendantOfWisdom => GameItem::PendantWisdom,
            Item::PendantOfCourage => GameItem::PendantCourage,
            Item::Charm => GameItem::ZeldaAmulet,
            Item::SageGulley => GameItem::SageGulley,
            Item::SageOren => GameItem::SageOren,
            Item::SageSeres => GameItem::SageSeres,
            Item::SageOsfala => GameItem::SageOsfala,
            Item::SageImpa => GameItem::SageImpa,
            Item::SageIrene => GameItem::SageIrene,
            Item::SageRosso => GameItem::SageRosso,
            Item::ScootFruit01 | Item::ScootFruit02 => GameItem::EscapeFruit,
            Item::FoulFruit01 | Item::FoulFruit02 => GameItem::StopFruit,
            Item::Shield01 | Item::Shield02 | Item::Shield03 | Item::Shield04 => GameItem::ItemShield,
            Item::Bee01 | Item::Bee02 => GameItem::Bee,
            Item::GoldBee01 | Item::GoldBee02 | Item::GoldBee03 => GameItem::GoldenBeeForSale,
            Item::Fairy01 | Item::Fairy02 => GameItem::Fairy,
            Item::Quake => GameItem::ItemRentalShield,
        }
    }

    pub fn include_in_sphere_search(self) -> (r: bool)
        ensures
            r == self.in_sphere_search(),
    {
        match self {
            Item::Bow01 | Item::Bow02 | Item::Bow03 | Item::Boomerang01 | Item::Boomerang02
            | Item::Hookshot01 | Item::Hookshot02 | Item::Bombs01 | Item::Bombs02
            | Item::FireRod01 | Item::FireRod02 | Item::IceRod01 | Item::IceRod02
            | Item::Hammer01 | Item::Hammer02 | Item::SandRod01 | Item::SandRod02
            | Item::TornadoRod01 | Item::TornadoRod02 | Item::Bell | Item::StaminaScroll
            | Item::BowOfLight | Item::PegasusBoots | Item::Flippers | Item::RaviosBracelet01
            | Item::RaviosBracelet02 | Item::HylianShield | Item::SmoothGem
            | Item::LetterInABottle | Item::PremiumMilk | Item::GreatSpin | Item::Bottle01
            | Item::Bottle02 | Item::Bottle03 | Item::Bottle04 | Item::Lamp01 | Item::Lamp02
            | Item::Sword01 | Item::Sword02 | Item::Sword03 | Item::Sword04 | Item::Glove01
            | Item::Glove02 | Item::Net01 | Item::Net02 | Item::Mail01 | Item::Mail02
            | Item::OreYellow | Item::OreGreen | Item::OreBlue | Item::OreRed
            | Item::HyruleSanctuaryKey | Item::LoruleSanctuaryKey | Item::EasternKeyBig
            | Item::EasternKeySmall01 | Item::EasternKeySmall02 | Item::GalesKeyBig
            | Item::GalesKeySmall01 | Item::GalesKeySmall02 | Item::GalesKeySmall03
            | Item::GalesKeySmall04 | Item::HeraKeyBig | Item::HeraKeySmall01
            | Item::HeraKeySmall02 | Item::DarkKeyBig | Item::DarkKeySmall01
            | Item::DarkKeySmall02 | Item::DarkKeySmall03 | Item::DarkKeySmall04
            | Item::SwampKeyBig | Item::SwampKeySmall01 | Item::SwampKeySmall02
            | Item::SwampKeySmall03 | Item::SwampKeySmall04 | Item::SkullKeyBig
            | Item::SkullKeySmall01 | Item::SkullKeySmall02 | Item::SkullKeySmall03
            | Item::ThievesKeyBig | Item::ThievesKeySmall | Item::IceKeyBig
            | Item::IceKeySmall01 | Item::IceKeySmall02 | Item::IceKeySmall03
            | Item::DesertKeyBig | Item::DesertKeySmall01 | Item::DesertKeySmall02
            | Item::DesertKeySmall03 | Item::DesertKeySmall04 | Item::DesertKeySmall05
            | Item::TurtleKeyBig | Item::TurtleKeySmall01 | Item::TurtleKeySmall02
            | Item::TurtleKeySmall03 | Item::LoruleCastleKeySmall01
            | Item::LoruleCastleKeySmall02 | Item::LoruleCastleKeySmall03
            | Item::LoruleCastleKeySmall04 | Item::LoruleCastleKeySmall05 | Item::Charm
            | Item::PendantOfPower | Item::PendantOfWisdom | Item::PendantOfCourage
            | Item::SageGulley | Item::SageOren | Item::SageSeres | Item::SageOsfala
            | Item::SageRosso | Item::SageIrene | Item::SageImpa | Item::ScootFruit01
            | Item::ScootFruit02 | Item::GoldBee01 => true,
            _ => false,
        }
    }

    pub fn get_article(self) -> (r: &'static str)
        ensures
            r == self.article(),
    {
        match self {
            Item::Empty => "",
            Item::Bow01 | Item::Bow02 | Item::Bow03 | Item::Boomerang01 | Item::Boomerang02
            | Item::Hookshot01 | Item::Hookshot02 | Item::FireRod01 | Item::FireRod02
            | Item::IceRod01 | Item::IceRod02 | Item::Hammer01 | Item::Hammer02
            | Item::SandRod01 | Item::SandRod02 | Item::TornadoRod01 | Item::TornadoRod02 => "the",
            Item::Bombs01 | Item::Bombs02 => "",
            Item::Bell | Item::StaminaScroll | Item::BowOfLight | Item::PegasusBoots => "the",
            Item::Flippers => "",
            Item::RaviosBracelet01 | Item::RaviosBracelet02 => "a",
            Item::HylianShield | Item::SmoothGem | Item::LetterInABottle | Item::PremiumMilk
            | Item::Pouch | Item::BeeBadge | Item::HintGlasses | Item::GreatSpin => "the",
            Item::RupeeGreen | Item::RupeeBlue | Item::RupeeRed | Item::RupeePurple01
            | Item::RupeePurple02 | Item::RupeePurple03 | Item::RupeePurple04
            | Item::RupeePurple05 | Item::RupeePurple06 | Item::RupeePurple07
            | Item::RupeePurple08 | Item::RupeePurple09 | Item::RupeePurple10
            | Item::RupeePurple11 | Item::RupeePurple12 | Item::RupeePurple13
            | Item::RupeePurple14 | Item::RupeePurple15 | Item::RupeePurple16
            | Item::RupeePurple17 | Item::RupeePurple18 | Item::RupeePurple19
            | Item::RupeePurple20 | Item::RupeeSilver01 | Item::RupeeSilver02
            | Item::RupeeSilver03 | Item::RupeeSilver04 | Item::RupeeSilver05
            | Item::RupeeSilver06 | Item::RupeeSilver07 | Item::RupeeSilver08
            | Item::RupeeSilver09 | Item::RupeeSilver10 | Item::RupeeSilver11
            | Item::RupeeSilver12 | Item::RupeeSilver13 | Item::RupeeSilver14
            | Item::RupeeSilver15 | Item::RupeeSilver16 | Item::RupeeSilver17
            | Item::RupeeSilver18 | Item::RupeeSilver19 | Item::RupeeSilver20
            | Item::RupeeSilver21 | Item::RupeeSilver22 | Item::RupeeSilver23
            | Item::RupeeSilver24 | Item::RupeeSilver25 | Item::RupeeSilver26
            | Item::RupeeSilver27 | Item::RupeeSilver28 | Item::RupeeSilver29
            | Item::RupeeSilver30 | Item::RupeeSilver31 | Item::RupeeSilver32
            | Item::RupeeSilver33 | Item::RupeeSilver34 | Item::RupeeSilver35
            | Item::RupeeSilver36 | Item::RupeeSilver37 | Item::RupeeSilver38
            | Item::RupeeSilver39 | Item::RupeeSilver40 | Item::RupeeSilver41
            | Item::RupeeGold01 | Item::RupeeGold02 | Item::RupeeGold03 | Item::RupeeGold04
            | Item::RupeeGold05 | Item::RupeeGold06 | Item::RupeeGold07 | Item::RupeeGold08
            | Item::RupeeGold09 | Item::RupeeGold10 | Item::Maiamai001 | Item::Maiamai002
            | Item::Maiamai003 | Item::Maiamai004 | Item::Maiamai005 | Item::Maiamai006
            | Item::Maiamai007 | Item::Maiamai008 | Item::Maiamai009 | Item::Maiamai010
            | Item::Maiamai011 | Item::Maiamai012 | Item::Maiamai013 | Item::Maiamai014
            | Item::Maiamai015 | Item::Maiamai016 | Item::Maiamai017 | Item::Maiamai018
            | Item::Maiamai019 | Item::Maiamai020 | Item::Maiamai021 | Item::Maiamai022
            | Item::Maiamai023 | Item::Maiamai024 | Item::Maiamai025 | Item::Maiamai026
            | Item::Maiamai027 | Item::Maiamai028 | Item::Maiamai029 | Item::Maiamai030
            | Item::Maiamai031 | Item::Maiamai032 | Item::Maiamai033 | Item::Maiamai034
            | Item::Maiamai035 | Item::Maiamai036 | Item::Maiamai037 | Item::Maiamai038
            | Item::Maiamai039 | Item::Maiamai040 | Item::Maiamai041 | Item::Maiamai042
            | Item::Maiamai043 | Item::Maiamai044 | Item::Maiamai045 | Item::Maiamai046
            | Item::Maiamai047 | Item::Maiamai048 | Item::Maiamai049 | Item::Maiamai050
            | Item::Maiamai051 | Item::Maiamai052 | Item::Maiamai053 | Item::Maiamai054
            | Item::Maiamai055 | Item::Maiamai056 | Item::Maiamai057 | Item::Maiamai058
            | Item::Maiamai059 | Item::Maiamai060 | Item::Maiamai061 | Item::Maiamai062
            | Item::Maiamai063 | Item::Maiamai064 | Item::Maiamai065 | Item::Maiamai066
            | Item::Maiamai067 | Item::Maiamai068 | Item::Maiamai069 | Item::Maiamai070
            | Item::Maiamai071 | Item::Maiamai072 | Item::Maiamai073 | Item::Maiamai074
            | Item::Maiamai075 | Item::Maiamai076 | Item::Maiamai077 | Item::Maiamai078
            | Item::Maiamai079 | Item::Maiamai080 | Item::Maiamai081 | Item::Maiamai082
            | Item::Maiamai083 | Item::Maiamai084 | Item::Maiamai085 | Item::Maiamai086
            | Item::Maiamai087 | Item::Maiamai088 | Item::Maiamai089 | Item::Maiamai090
            | Item::Maiamai091 | Item::Maiamai092 | Item::Maiamai093 | Item::Maiamai094
            | Item::Maiamai095 | Item::Maiamai096 | Item::Maiamai097 | Item::Maiamai098
            | Item::Maiamai099 | Item::Maiamai100 => "a",
            Item::MonsterGuts => "some",
            Item::MonsterHorn | Item::MonsterTail => "a",
            Item::HeartPiece01 | Item::HeartPiece02 | Item::HeartPiece03 | Item::HeartPiece04
            | Item::HeartPiece05 | Item::HeartPiece06 | Item::HeartPiece07 | Item::HeartPiece08
            | Item::HeartPiece09 | Item::HeartPiece10 | Item::HeartPiece11 | Item::HeartPiece12
            | Item::HeartPiece13 | Item::HeartPiece14 | Item::HeartPiece15 | Item::HeartPiece16
            | Item::HeartPiece17 | Item::HeartPiece18 | Item::HeartPiece19 | Item::HeartPiece20
            | Item::HeartPiece21 | Item::HeartPiece22 | Item::HeartPiece23 | Item::HeartPiece24
            | Item::HeartPiece25 | Item::HeartPiece26 | Item::HeartPiece27 | Item::HeartPiece28
            | Item::HeartContainer01 | Item::HeartContainer02 | Item::HeartContainer03
            | Item::HeartContainer04 | Item::HeartContainer05 | Item::HeartContainer06
            | Item::HeartContainer07 | Item::HeartContainer08 | Item::HeartContainer09
            | Item::HeartContainer10 => "a",
            Item::Bottle01 | Item::Bottle02 | Item::Bottle03 | Item::Bottle04 | Item::Bottle05 => "an",
            Item::Lamp01 | Item::Lamp02 => "the",
            Item::Sword01 | Item::Sword02 | Item::Sword03 | Item::Sword04 => "a",
            Item::Glove01 | Item::Glove02 => "a",
            Item::Net01 | Item::Net02 => "the",
            Item::Mail01 | Item::Mail02 => "an",
            Item::OreYellow | Item::OreGreen | Item::OreBlue | Item::OreRed => "some",
            Item::HyruleSanctuaryKey | Item::LoruleSanctuaryKey => "the",
            Item::EasternCompass | Item::EasternKeyBig => "the",
            Item::EasternKeySmall01 | Item::EasternKeySmall02 => "an",
            Item::GalesCompass | Item::GalesKeyBig => "the",
            Item::GalesKeySmall01 | Item::GalesKeySmall02 | Item::GalesKeySmall03
            | Item::GalesKeySmall04 => "a",
            Item::HeraCompass | Item::HeraKeyBig => "the",
            Item::HeraKeySmall01 | Item::HeraKeySmall02 => "a",
            Item::DarkCompass | Item::DarkKeyBig => "the",
            Item::DarkKeySmall01 | Item::DarkKeySmall02 | Item::DarkKeySmall03
            | Item::DarkKeySmall04 => "a",
            Item::SwampCompass | Item::SwampKeyBig => "the",
            Item::SwampKeySmall01 | Item::SwampKeySmall02 | Item::SwampKeySmall03
            | Item::SwampKeySmall04 => "a",
            Item::SkullCompass | Item::SkullKeyBig => "the",
            Item::SkullKeySmall01 | Item::SkullKeySmall02 | Item::SkullKeySmall03 => "a",
            Item::ThievesCompass | Item::ThievesKeyBig | Item::ThievesKeySmall => "the",
            Item::IceCompass | Item::IceKeyBig => "the",
            Item::IceKeySmall01 | Item::IceKeySmall02 | Item::IceKeySmall03 => "an",
            Item::DesertCompass | Item::DesertKeyBig => "the",
            Item::DesertKeySmall01 | Item::DesertKeySmall02 | Item::DesertKeySmall03
            | Item::DesertKeySmall04 | Item::DesertKeySmall05 => "a",
            Item::TurtleCompass | Item::TurtleKeyBig => "the",
            Item::TurtleKeySmall01 | Item::TurtleKeySmall02 | Item::TurtleKeySmall03 => "a",
            Item::LoruleCastleCompass => "the",
            Item::LoruleCastleKeySmall01 | Item::LoruleCastleKeySmall02
            | Item::LoruleCastleKeySmall03 | Item::LoruleCastleKeySmall04
            | Item::LoruleCastleKeySmall05 => "a",
            Item::PendantOfPower | Item::PendantOfWisdom | Item::PendantOfCourage => "the",
            Item::Charm => "a",
            Item::SageGulley | Item::SageOren | Item::SageSeres | Item::SageOsfala
            | Item::SageRosso | Item::SageIrene | Item::SageImpa => "",
            Item::ScootFruit01 | Item::FoulFruit01 | Item::Shield01 | Item::ScootFruit02
            | Item::FoulFruit02 | Item::Shield02 | Item::GoldBee01 | Item::Bee01
            | Item::GoldBee02 | Item::Fairy01 | Item::Shield03 | Item::Bee02 | Item::GoldBee03
            | Item::Fairy02 | Item::Shield04 => "a",
            Item::Quake => "the",
        }
    }

    pub fn as_str(&self) -> (r: &'static str)
        ensures
            r == self.name(),
    {
        match *self {
            Item::Empty => "Empty",
            Item::Bow01 | Item::Bow02 | Item::Bow03 => "Bow+",
            Item::Boomerang01 | Item::Boomerang02 => "Boomerang+",
            Item::Hookshot01 | Item::Hookshot02 => "Hookshot+",
            Item::Bombs01 | Item::Bombs02 => "Bombs+",
            Item::FireRod01 | Item::FireRod02 => "Fire Rod+",
            Item::IceRod01 | Item::IceRod02 => "Ice Rod+",
            Item::Hammer01 | Item::Hammer02 => "Hammer+",
            Item::SandRod01 | Item::SandRod02 => "Sand Rod+",
            Item::TornadoRod01 | Item::TornadoRod02 => "Tornado Rod+",
            Item::Bell => "Bell",
            Item::StaminaScroll => "Stamina Scroll",
            Item::BowOfLight => "Bow of Light",
            Item::PegasusBoots => "Pegasus Boots",
            Item::Flippers => "Zora's Flippers",
            Item::RaviosBracelet01 | Item::RaviosBracelet02 => "Ravio's Bracelet+",
            Item::HylianShield => "Hylian Shield",
            Item::SmoothGem => "Smooth Gem",
            Item::LetterInABottle => "Letter in a Bottle",
            Item::PremiumMilk => "Premium Milk",
            Item::Pouch => "Pouch",
            Item::BeeBadge => "Bee Badge",
            Item::HintGlasses => "Hint Glasses",
            Item::GreatSpin => "Great Spin",
            Item::RupeeGreen => "Green Rupee",
            Item::RupeeBlue => "Blue Rupee",
            Item::RupeeRed => "Red Rupee",
            Item::RupeePurple01 | Item::RupeePurple02 | Item::RupeePurple03
            | Item::RupeePurple04 | Item::RupeePurple05 | Item::RupeePurple06
            | Item::RupeePurple07 | Item::RupeePurple08 | Item::RupeePurple09
            | Item::RupeePurple10 | Item::RupeePurple11 | Item::RupeePurple12
            | Item::RupeePurple13 | Item::RupeePurple14 | Item::RupeePurple15
            | Item::RupeePurple16 | Item::RupeePurple17 | Item::RupeePurple18
            | Item::RupeePurple19 | Item::RupeePurple20 => "Purple Rupee",
            Item::RupeeSilver01 | Item::RupeeSilver02 | Item::RupeeSilver03
            | Item::RupeeSilver04 | Item::RupeeSilver05 | Item::RupeeSilver06
            | Item::RupeeSilver07 | Item::RupeeSilver08 | Item::RupeeSilver09
            | Item::RupeeSilver10 | Item::RupeeSilver11 | Item::RupeeSilver12
            | Item::RupeeSilver13 | Item::RupeeSilver14 | Item::RupeeSilver15
            | Item::RupeeSilver16 | Item::RupeeSilver17 | Item::RupeeSilver18
            | Item::RupeeSilver19 | Item::RupeeSilver20 | Item::RupeeSilver21
            | Item::RupeeSilver22 | Item::RupeeSilver23 | Item::RupeeSilver24
            | Item::RupeeSilver25 | Item::RupeeSilver26 | Item::RupeeSilver27
            | Item::RupeeSilver28 | Item::RupeeSilver29 | Item::RupeeSilver30
            | Item::RupeeSilver31 | Item::RupeeSilver32 | Item::RupeeSilver33
            | Item::RupeeSilver34 | Item::RupeeSilver35 | Item::RupeeSilver36
            | Item::RupeeSilver37 | Item::RupeeSilver38 | Item::RupeeSilver39
            | Item::RupeeSilver40 | Item::RupeeSilver41 => "Silver Rupee",
            Item::RupeeGold01 | Item::RupeeGold02 | Item::RupeeGold03 | Item::RupeeGold04
            | Item::RupeeGold05 | Item::RupeeGold06 | Item::RupeeGold07 | Item::RupeeGold08
            | Item::RupeeGold09 | Item::RupeeGold10 => "Gold Rupee",
            Item::Maiamai001 | Item::Maiamai002 | Item::Maiamai003 | Item::Maiamai004
            | Item::Maiamai005 | Item::Maiamai006 | Item::Maiamai007 | Item::Maiamai008
            | Item::Maiamai009 | Item::Maiamai010 | Item::Maiamai011 | Item::Maiamai012
            | Item::Maiamai013 | Item::Maiamai014 | Item::Maiamai015 | Item::Maiamai016
            | Item::Maiamai017 | Item::Maiamai018 | Item::Maiamai019 | Item::Maiamai020
            | Item::Maiamai021 | Item::Maiamai022 | Item::Maiamai023 | Item::Maiamai024
            | Item::Maiamai025 | Item::Maiamai026 | Item::Maiamai027 | Item::Maiamai028
            | Item::Maiamai029 | Item::Maiamai030 | Item::Maiamai031 | Item::Maiamai032
            | Item::Maiamai033 | Item::Maiamai034 | Item::Maiamai035 | Item::Maiamai036
            | Item::Maiamai037 | Item::Maiamai038 | Item::Maiamai039 | Item::Maiamai040
            | Item::Maiamai041 | Item::Maiamai042 | Item::Maiamai043 | Item::Maiamai044
            | Item::Maiamai045 | Item::Maiamai046 | Item::Maiamai047 | Item::Maiamai048
            | Item::Maiamai049 | Item::Maiamai050 | Item::Maiamai051 | Item::Maiamai052
            | Item::Maiamai053 | Item::Maiamai054 | Item::Maiamai055 | Item::Maiamai056
            | Item::Maiamai057 | Item::Maiamai058 | Item::Maiamai059 | Item::Maiamai060
            | Item::Maiamai061 | Item::Maiamai062 | Item::Maiamai063 | Item::Maiamai064
            | Item::Maiamai065 | Item::Maiamai066 | Item::Maiamai067 | Item::Maiamai068
            | Item::Maiamai069 | Item::Maiamai070 | Item::Maiamai071 | Item::Maiamai072
            | Item::Maiamai073 | Item::Maiamai074 | Item::Maiamai075 | Item::Maiamai076
            | Item::Maiamai077 | Item::Maiamai078 | Item::Maiamai079 | Item::Maiamai080
            | Item::Maiamai081 | Item::Maiamai082 | Item::Maiamai083 | Item::Maiamai084
            | Item::Maiamai085 | Item::Maiamai086 | Item::Maiamai087 | Item::Maiamai088
            | Item::Maiamai089 | Item::Maiamai090 | Item::Maiamai091 | Item::Maiamai092
            | Item::Maiamai093 | Item::Maiamai094 | Item::Maiamai095 | Item::Maiamai096
            | Item::Maiamai097 | Item::Maiamai098 | Item::Maiamai099 | Item::Maiamai100 => "Lost Maiamai",
            Item::MonsterGuts => "Monster Guts",
            Item::MonsterHorn => "Monster Horn",
            Item::MonsterTail => "Monster Tail",
            Item::HeartPiece01 | Item::HeartPiece02 | Item::HeartPiece03 | Item::HeartPiece04
            | Item::HeartPiece05 | Item::HeartPiece06 | Item::HeartPiece07 | Item::HeartPiece08
            | Item::HeartPiece09 | Item::HeartPiece10 | Item::HeartPiece11 | Item::HeartPiece12
            | Item::HeartPiece13 | Item::HeartPiece14 | Item::HeartPiece15 | Item::HeartPiece16
            | Item::HeartPiece17 | Item::HeartPiece18 | Item::HeartPiece19 | Item::HeartPiece20
            | Item::HeartPiece21 | Item::HeartPiece22 | Item::HeartPiece23 | Item::HeartPiece24
            | Item::HeartPiece25 | Item::HeartPiece26 | Item::HeartPiece27 | Item::HeartPiece28 => "Heart Piece",
            Item::HeartContainer01 | Item::HeartContainer02 | Item::HeartContainer03
            | Item::HeartContainer04 | Item::HeartContainer05 | Item::HeartContainer06
            | Item::HeartContainer07 | Item::HeartContainer08 | Item::HeartContainer09
            | Item::HeartContainer10 => "Heart Container",
            Item::Bottle01 | Item::Bottle02 | Item::Bottle03 | Item::Bottle04 | Item::Bottle05 => "Empty Bottle",
            Item::Lamp01 | Item::Lamp02 => "Lamp+",
            Item::Sword01 | Item::Sword02 | Item::Sword03 | Item::Sword04 => "Sword+",
            Item::Glove01 | Item::Glove02 => "Strength+",
            Item::Net01 | Item::Net02 => "Net+",
            Item::Mail01 | Item::Mail02 => "Mail+",
            Item::OreYellow | Item::OreGreen | Item::OreBlue | Item::OreRed => "Master Ore",
            Item::HyruleSanctuaryKey => "Hyrule Sewers Key",
            Item::LoruleSanctuaryKey => "Lorule Sewers Key",
            Item::EasternCompass => "Eastern Palace Compass",
            Item::EasternKeyBig => "Eastern Palace Big Key",
            Item::EasternKeySmall01 | Item::EasternKeySmall02 => "Eastern Palace Small Key",
            Item::GalesCompass => "House of Gales Compass",
            Item::GalesKeyBig => "House of Gales Big Key",
            Item::GalesKeySmall01 | Item::GalesKeySmall02 | Item::GalesKeySmall03
            | Item::GalesKeySmall04 => "House of Gales Small Key",
            Item::HeraCompass => "Tower of Hera Compass",
            Item::HeraKeyBig => "Tower of Hera Big Key",
            Item::HeraKeySmall01 | Item::HeraKeySmall02 => "Tower of Hera Small Key",
            Item::DarkCompass => "Dark Palace Compass",
            Item::DarkKeyBig => "Dark Palace Big Key",
            Item::DarkKeySmall01 | Item::DarkKeySmall02 | Item::DarkKeySmall03
            | Item::DarkKeySmall04 => "Dark Palace Small Key",
            Item::SwampCompass => "Swamp Palace Compass",
            Item::SwampKeyBig => "Swamp Palace Big Key",
            Item::SwampKeySmall01 | Item::SwampKeySmall02 | Item::SwampKeySmall03
            | Item::SwampKeySmall04 => "Swamp Palace Small Key",
            Item::SkullCompass => "Skull Woods Compass",
            Item::SkullKeyBig => "Skull Woods Big Key",
            Item::SkullKeySmall01 | Item::SkullKeySmall02 | Item::SkullKeySmall03 => "Skull Woods Small Key",
            Item::ThievesCompass => "Thieves' Hideout Compass",
            Item::ThievesKeyBig => "Thieves' Hideout Big Key",
            Item::ThievesKeySmall => "Thieves' Hideout Small Key",
            Item::IceCompass => "Ice Ruins Compass",
            Item::IceKeyBig => "Ice Ruins Big Key",
            Item::IceKeySmall01 | Item::IceKeySmall02 | Item::IceKeySmall03 => "Ice Ruins Small Key",
            Item::DesertCompass => "Desert Palace Compass",
            Item::DesertKeyBig => "Desert Palace Big Key",
            Item::DesertKeySmall01 | Item::DesertKeySmall02 | Item::DesertKeySmall03
            | Item::DesertKeySmall04 | Item::DesertKeySmall05 => "Desert Palace Small Key",
            Item::TurtleCompass => "Turtle Rock Compass",
            Item::TurtleKeyBig => "Turtle Rock Big Key",
            Item::TurtleKeySmall01 | Item::TurtleKeySmall02 | Item::TurtleKeySmall03 => "Turtle Rock Small Key",
            Item::LoruleCastleCompass => "Lorule Castle Compass",
            Item::LoruleCastleKeySmall01 | Item::LoruleCastleKeySmall02
            | Item::LoruleCastleKeySmall03 | Item::LoruleCastleKeySmall04
            | Item::LoruleCastleKeySmall05 => "Lorule Castle Small Key",
            Item::PendantOfPower => "Pendant of Power",
            Item::PendantOfWisdom => "Pendant of Wisdom",
            Item::PendantOfCourage => "Pendant of Courage",
            Item::Charm => "Charm",
            Item::SageGulley => "Sage Gulley",
            Item::SageOren => "Sage Oren",
            Item::SageSeres => "Sage Seres",
            Item::SageOsfala => "Sage Osfala",
            Item::SageRosso => "Sage Rosso",
            Item::SageIrene => "Sage Irene",
            Item::SageImpa => "Sage Impa",
            Item::ScootFruit01 | Item::ScootFruit02 => "Scoot Fruit",
            Item::FoulFruit01 | Item::FoulFruit02 => "Foul Fruit",
            Item::Bee01 | Item::Bee02 => "Bee",
            Item::GoldBee01 | Item::GoldBee02 | Item::GoldBee03 => "Golden Bee",
            Item::Fairy01 | Item::Fairy02 => "Fairy",
            Item::Shield01 | Item::Shield02 | Item::Shield03 | Item::Shield04 => "Shield",
            Item::Quake => "Quake Medallion",
        }
    }

    pub fn as_str_colorized(&self) -> (r: String)
        ensures
            r@ == HintColor::Name.markup(self.name()@),
    {
        HintColor::Name.format(self.as_str())
    }
}

} // verus!
