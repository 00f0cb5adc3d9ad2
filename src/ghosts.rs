use vstd::prelude::*;

verus! {

/// A hint ghost: one that, once unlocked, gives out a clue about the placement.
#[derive(Clone, Copy, Debug, PartialEq, Eq, Hash, Structural)]
pub enum HintGhost {
    // Hyrule Overworld Hint Ghosts
    LostWoodsMaze1,
    LostWoodsMaze2,
    LostWoodsMaze3,
    LostWoods,
    SpectacleRock,
    TowerOfHeraOutside,
    FloatingIsland,
    FireCave,
    MoldormCave,
    ZorasDomain,
    FortuneTellerHyrule,
    Sanctuary,
    GraveyardHyrule,
    WaterfallCave,
    Well,
    ShadyGuy,
    StylishWoman,
    BlacksmithCave,
    EasternRuinsPegs,
    EasternRuinsCave,
    EasternRuinsEntrance,
    RupeeRushHyrule,
    Cuccos,
    SouthBridge,
    SouthernRuins,
    HouseOfGalesIsland,
    HyruleHotfoot,
    Letter,
    StreetPassTree,
    BlacksmithBehind,
    GraveyardLedge,
    DesertEast,
    DesertCenter,
    DesertSouthWest,
    HyruleCastleRocks,
    WitchsHouse,

    // Lorule Overworld Hint Ghosts
    SkullWoodsCuccos,
    TreacherousTower,
    IceRuinsOutside,
    LoruleGraveyard,
    DarkRuinsNorth,
    SkullWoodsSouth,
    FortunesChoice,
    VeteranThief,
    FortuneTellerLorule,
    DarkMaze,
    RupeeRushLorule,
    GreatRupeeFairy,
    OctoballDerby,
    VacantHouse,
    MiseryMireLedge,
    SwampPalaceOutsideLeft,
    TurtleBullied,
    TurtleWall,
    TurtleRockOutside,
    DarkPalaceOutside,
    SwampPalaceOutsideRight,
    MiseryMireBridge,
}

/// Every hint ghost, in declaration order.
pub open spec fn all_hint_ghosts() -> Seq<HintGhost> {
    seq![
        HintGhost::LostWoodsMaze1,
        HintGhost::LostWoodsMaze2,
        HintGhost::LostWoodsMaze3,
        HintGhost::LostWoods,
        HintGhost::SpectacleRock,
        HintGhost::TowerOfHeraOutside,
        HintGhost::FloatingIsland,
        HintGhost::FireCave,
        HintGhost::MoldormCave,
        HintGhost::ZorasDomain,
        HintGhost::FortuneTellerHyrule,
        HintGhost::Sanctuary,
        HintGhost::GraveyardHyrule,
        HintGhost::WaterfallCave,
        HintGhost::Well,
        HintGhost::ShadyGuy,
        HintGhost::StylishWoman,
        HintGhost::BlacksmithCave,
        HintGhost::EasternRuinsPegs,
        HintGhost::EasternRuinsCave,
        HintGhost::EasternRuinsEntrance,
        HintGhost::RupeeRushHyrule,
        HintGhost::Cuccos,
        HintGhost::SouthBridge,
        HintGhost::SouthernRuins,
        HintGhost::HouseOfGalesIsland,
        HintGhost::HyruleHotfoot,
        HintGhost::Letter,
        HintGhost::StreetPassTree,
        HintGhost::BlacksmithBehind,
        HintGhost::GraveyardLedge,
        HintGhost::DesertEast,
        HintGhost::DesertCenter,
        HintGhost::DesertSouthWest,
        HintGhost::HyruleCastleRocks,
        HintGhost::WitchsHouse,
        HintGhost::SkullWoodsCuccos,
        HintGhost::TreacherousTower,
        HintGhost::IceRuinsOutside,
        HintGhost::LoruleGraveyard,
        HintGhost::DarkRuinsNorth,
        HintGhost::SkullWoodsSouth,
        HintGhost::FortunesChoice,
        HintGhost::VeteranThief,
        HintGhost::FortuneTellerLorule,
        HintGhost::DarkMaze,
        HintGhost::RupeeRushLorule,
        HintGhost::GreatRupeeFairy,
        HintGhost::OctoballDerby,
        HintGhost::VacantHouse,
        HintGhost::MiseryMireLedge,
        HintGhost::SwampPalaceOutsideLeft,
        HintGhost::TurtleBullied,
        HintGhost::TurtleWall,
        HintGhost::TurtleRockOutside,
        HintGhost::DarkPalaceOutside,
        HintGhost::SwampPalaceOutsideRight,
        HintGhost::MiseryMireBridge,
    ]
}

impl HintGhost {
    /// The display name of the ghost.
    pub open spec fn name(self) -> &'static str {
        match self {
            HintGhost::LostWoodsMaze1 => "Lost Woods Maze 1 Ghost",
            HintGhost::LostWoodsMaze2 => "Lost Woods Maze 2 Ghost",
            HintGhost::LostWoodsMaze3 => "Lost Woods Maze 3 Ghost",
            HintGhost::LostWoods => "Lost Woods Ghost",
            HintGhost::SpectacleRock => "Spectacle Rock Ghost",
            HintGhost::TowerOfHeraOutside => "Tower Of Hera Outside Ghost",
            HintGhost::FloatingIsland => "Floating Island Ghost",
            HintGhost::FireCave => "Fire Cave Ghost",
            HintGhost::MoldormCave => "Moldorm Cave Ghost",
            HintGhost::ZorasDomain => "Zoras Domain Ghost",
            HintGhost::FortuneTellerHyrule => "Fortune Teller Hyrule Ghost",
            HintGhost::Sanctuary => "Sanctuary Ghost",
            HintGhost::GraveyardHyrule => "Graveyard Hyrule Ghost",
            HintGhost::WaterfallCave => "Waterfall Cave Ghost",
            HintGhost::Well => "Well Ghost",
            HintGhost::ShadyGuy => "Shady Guy Ghost",
            HintGhost::StylishWoman => "Stylish Woman Ghost",
            HintGhost::BlacksmithCave => "Blacksmith Cave Ghost",
            HintGhost::EasternRuinsPegs => "Eastern Ruins Pegs Ghost",
            HintGhost::EasternRuinsCave => "Eastern Ruins Cave Ghost",
            HintGhost::EasternRuinsEntrance => "Eastern Ruins Entrance Ghost",
            HintGhost::RupeeRushHyrule => "Rupee Rush Hyrule Ghost",
            HintGhost::Cuccos => "Cuccos Ghost",
            HintGhost::SouthBridge => "South Bridge Ghost",
            HintGhost::SouthernRuins => "Southern Ruins Ghost",
            HintGhost::HouseOfGalesIsland => "House Of Gales Island Ghost",
            HintGhost::HyruleHotfoot => "Hyrule Hotfoot Ghost",
            HintGhost::Letter => "Letter Ghost",
            HintGhost::StreetPassTree => "Street Pass Tree Ghost",
            HintGhost::BlacksmithBehind => "Blacksmith Behind Ghost",
            HintGhost::GraveyardLedge => "Graveyard Ledge Ghost",
            HintGhost::DesertEast => "Desert East Ghost",
            HintGhost::DesertCenter => "Desert Center Ghost",
            HintGhost::DesertSouthWest => "Desert South West Ghost",
            HintGhost::HyruleCastleRocks => "Hyrule Castle Rocks Ghost",
            HintGhost::WitchsHouse => "Witch's House Ghost",
            HintGhost::SkullWoodsCuccos => "Skull Woods Cuccos Ghost",
            HintGhost::TreacherousTower => "Treacherous Tower Ghost",
            HintGhost::IceRuinsOutside => "Ice Ruins Outside Ghost",
            HintGhost::LoruleGraveyard => "Lorule Graveyard Ghost",
            HintGhost::DarkRuinsNorth => "Dark Ruins North Ghost",
            HintGhost::SkullWoodsSouth => "Skull Woods South Ghost",
            HintGhost::FortunesChoice => "Fortunes Choice Ghost",
            HintGhost::VeteranThief => "Veteran Thief Ghost",
            HintGhost::FortuneTellerLorule => "Fortune Teller Lorule Ghost",
            HintGhost::DarkMaze => "Dark Maze Ghost",
            HintGhost::RupeeRushLorule => "Rupee Rush Lorule Ghost",
            HintGhost::GreatRupeeFairy => "Great Rupee Fairy Ghost",
            HintGhost::OctoballDerby => "Octoball Derby Ghost",
            HintGhost::VacantHouse => "Vacant House Ghost",
            HintGhost::MiseryMireLedge => "Misery Mire Ledge Ghost",
            HintGhost::SwampPalaceOutsideLeft => "Swamp Palace Outside Left Ghost",
            HintGhost::TurtleBullied => "Turtle Bullied Ghost",
            HintGhost::TurtleWall => "Turtle Wall Ghost",
            HintGhost::TurtleRockOutside => "Turtle Rock Outside Ghost",
            HintGhost::DarkPalaceOutside => "Dark Palace Outside Ghost",
            HintGhost::SwampPalaceOutsideRight => "Swamp Palace Outside Right Ghost",
            HintGhost::MiseryMireBridge => "Misery Mire Bridge Ghost",
        }
    }

    pub fn as_str(self) -> (r: &'static str)
        ensures
            r == self.name(),
    {
        match self {
            HintGhost::LostWoodsMaze1 => "Lost Woods Maze 1 Ghost",
            HintGhost::LostWoodsMaze2 => "Lost Woods Maze 2 Ghost",
            HintGhost::LostWoodsMaze3 => "Lost Woods Maze 3 Ghost",
            HintGhost::LostWoods => "Lost Woods Ghost",
            HintGhost::SpectacleRock => "Spectacle Rock Ghost",
            HintGhost::TowerOfHeraOutside => "Tower Of Hera Outside Ghost",
            HintGhost::FloatingIsland => "Floating Island Ghost",
            HintGhost::FireCave => "Fire Cave Ghost",
            HintGhost::MoldormCave => "Moldorm Cave Ghost",
            HintGhost::ZorasDomain => "Zoras Domain Ghost",
            HintGhost::FortuneTellerHyrule => "Fortune Teller Hyrule Ghost",
            HintGhost::Sanctuary => "Sanctuary Ghost",
            HintGhost::GraveyardHyrule => "Graveyard Hyrule Ghost",
            HintGhost::WaterfallCave => "Waterfall Cave Ghost",
            HintGhost::Well => "Well Ghost",
            HintGhost::ShadyGuy => "Shady Guy Ghost",
            HintGhost::StylishWoman => "Stylish Woman Ghost",
            HintGhost::BlacksmithCave => "Blacksmith Cave Ghost",
            HintGhost::EasternRuinsPegs => "Eastern Ruins Pegs Ghost",
            HintGhost::EasternRuinsCave => "Eastern Ruins Cave Ghost",
            HintGhost::EasternRuinsEntrance => "Eastern Ruins Entrance Ghost",
            HintGhost::RupeeRushHyrule => "Rupee Rush Hyrule Ghost",
            HintGhost::Cuccos => "Cuccos Ghost",
            HintGhost::SouthBridge => "South Bridge Ghost",
            HintGhost::SouthernRuins => "Southern Ruins Ghost",
            HintGhost::HouseOfGalesIsland => "House Of Gales Island Ghost",
            HintGhost::HyruleHotfoot => "Hyrule Hotfoot Ghost",
            HintGhost::Letter => "Letter Ghost",
            HintGhost::StreetPassTree => "Street Pass Tree Ghost",
            HintGhost::BlacksmithBehind => "Blacksmith Behind Ghost",
            HintGhost::GraveyardLedge => "Graveyard Ledge Ghost",
            HintGhost::DesertEast => "Desert East Ghost",
            HintGhost::DesertCenter => "Desert Center Ghost",
            HintGhost::DesertSouthWest => "Desert South West Ghost",
            HintGhost::HyruleCastleRocks => "Hyrule Castle Rocks Ghost",
            HintGhost::WitchsHouse => "Witch's House Ghost",
            HintGhost::SkullWoodsCuccos => "Skull Woods Cuccos Ghost",
            HintGhost::TreacherousTower => "Treacherous Tower Ghost",
            HintGhost::IceRuinsOutside => "Ice Ruins Outside Ghost",
            HintGhost::LoruleGraveyard => "Lorule Graveyard Ghost",
            HintGhost::DarkRuinsNorth => "Dark Ruins North Ghost",
            HintGhost::SkullWoodsSouth => "Skull Woods South Ghost",
            HintGhost::FortunesChoice => "Fortunes Choice Ghost",
            HintGhost::VeteranThief => "Veteran Thief Ghost",
            HintGhost::FortuneTellerLorule => "Fortune Teller Lorule Ghost",
            HintGhost::DarkMaze => "Dark Maze Ghost",
            HintGhost::RupeeRushLorule => "Rupee Rush Lorule Ghost",
            HintGhost::GreatRupeeFairy => "Great Rupee Fairy Ghost",
            HintGhost::OctoballDerby => "Octoball Derby Ghost",
            HintGhost::VacantHouse => "Vacant House Ghost",
            HintGhost::MiseryMireLedge => "Misery Mire Ledge Ghost",
            HintGhost::SwampPalaceOutsideLeft => "Swamp Palace Outside Left Ghost",
            HintGhost::TurtleBullied => "Turtle Bullied Ghost",
            HintGhost::TurtleWall => "Turtle Wall Ghost",
            HintGhost::TurtleRockOutside => "Turtle Rock Outside Ghost",
            HintGhost::DarkPalaceOutside => "Dark Palace Outside Ghost",
            HintGhost::SwampPalaceOutsideRight => "Swamp Palace Outside Right Ghost",
            HintGhost::MiseryMireBridge => "Misery Mire Bridge Ghost",
        }
    }

    /// Every hint ghost, in declaration order.
    pub fn all() -> (r: Vec<HintGhost>)
        ensures
            r@ == all_hint_ghosts(),
    {
        let r = vec![
            HintGhost::LostWoodsMaze1,
            HintGhost::LostWoodsMaze2,
            HintGhost::LostWoodsMaze3,
            HintGhost::LostWoods,
            HintGhost::SpectacleRock,
            HintGhost::TowerOfHeraOutside,
            HintGhost::FloatingIsland,
            HintGhost::FireCave,
            HintGhost::MoldormCave,
            HintGhost::ZorasDomain,
            HintGhost::FortuneTellerHyrule,
            HintGhost::Sanctuary,
            HintGhost::GraveyardHyrule,
            HintGhost::WaterfallCave,
            HintGhost::Well,
            HintGhost::ShadyGuy,
            HintGhost::StylishWoman,
            HintGhost::BlacksmithCave,
            HintGhost::EasternRuinsPegs,
            HintGhost::EasternRuinsCave,
            HintGhost::EasternRuinsEntrance,
            HintGhost::RupeeRushHyrule,
            HintGhost::Cuccos,
            HintGhost::SouthBridge,
            HintGhost::SouthernRuins,
            HintGhost::HouseOfGalesIsland,
            HintGhost::HyruleHotfoot,
            HintGhost::Letter,
            HintGhost::StreetPassTree,
            HintGhost::BlacksmithBehind,
            HintGhost::GraveyardLedge,
            HintGhost::DesertEast,
            HintGhost::DesertCenter,
            HintGhost::DesertSouthWest,
            HintGhost::HyruleCastleRocks,
            HintGhost::WitchsHouse,
            HintGhost::SkullWoodsCuccos,
            HintGhost::TreacherousTower,
            HintGhost::IceRuinsOutside,
            HintGhost::LoruleGraveyard,
            HintGhost::DarkRuinsNorth,
            HintGhost::SkullWoodsSouth,
            HintGhost::FortunesChoice,
            HintGhost::VeteranThief,
            HintGhost::FortuneTellerLorule,
            HintGhost::DarkMaze,
            HintGhost::RupeeRushLorule,
            HintGhost::GreatRupeeFairy,
            HintGhost::OctoballDerby,
            HintGhost::VacantHouse,
            HintGhost::MiseryMireLedge,
            HintGhost::SwampPalaceOutsideLeft,
            HintGhost::TurtleBullied,
            HintGhost::TurtleWall,
            HintGhost::TurtleRockOutside,
            HintGhost::DarkPalaceOutside,
            HintGhost::SwampPalaceOutsideRight,
            HintGhost::MiseryMireBridge,
        ];
        assert(r@ =~= all_hint_ghosts());
        r
    }
}

} // verus!
