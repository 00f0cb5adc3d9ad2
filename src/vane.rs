use vstd::prelude::*;

use crate::game::World;
use crate::text::same_text;

verus! {

/// The unlock of a weather vane, a fast-travel point.
#[derive(Clone, Copy, Debug, PartialEq, Eq, Hash, Structural)]
pub enum Vane {
    BlacksmithWV,
    DarkPalaceWV,
    DeathMountainHyruleWV,
    DeathMountainLoruleWV,
    DesertPalaceWV,
    EasternPalaceWV,
    GraveyardWV,
    HouseOfGalesWV,
    IceRuinsWV,
    KakarikoVillageWV,
    LoruleCastleWV,
    MiseryMireWV,
    SanctuaryWV,
    SkullWoodsWV,
    SwampPalaceWV,
    ThievesTownWV,
    TowerOfHeraWV,
    TreacherousTowerWV,
    TurtleRockWV,
    VacantHouseWV,
    WitchsHouseWV,
    YourHouseWV,
}

/// Every weather vane, in declaration order.
pub open spec fn all_vanes() -> Seq<Vane> {
    seq![
        Vane::BlacksmithWV,
        Vane::DarkPalaceWV,
        Vane::DeathMountainHyruleWV,
        Vane::DeathMountainLoruleWV,
        Vane::DesertPalaceWV,
        Vane::EasternPalaceWV,
        Vane::GraveyardWV,
        Vane::HouseOfGalesWV,
        Vane::IceRuinsWV,
        Vane::KakarikoVillageWV,
        Vane::LoruleCastleWV,
        Vane::MiseryMireWV,
        Vane::SanctuaryWV,
        Vane::SkullWoodsWV,
        Vane::SwampPalaceWV,
        Vane::ThievesTownWV,
        Vane::TowerOfHeraWV,
        Vane::TreacherousTowerWV,
        Vane::TurtleRockWV,
        Vane::VacantHouseWV,
        Vane::WitchsHouseWV,
        Vane::YourHouseWV,
    ]
}

impl Vane {
    /// The display name of the vane.
    pub open spec fn name(self) -> &'static str {
        match self {
            Vane::YourHouseWV => "Your House Weather Vane",
            Vane::KakarikoVillageWV => "Kakariko Village Weather Vane",
            Vane::EasternPalaceWV => "Eastern Palace Weather Vane",
            Vane::HouseOfGalesWV => "House of Gales Weather Vane",
            Vane::TowerOfHeraWV => "Tower of Hera Weather Vane",
            Vane::WitchsHouseWV => "Witch's House Weather Vane",
            Vane::DeathMountainHyruleWV => "Death Mountain (Hyrule) Weather Vane",
            Vane::DesertPalaceWV => "Desert Palace Weather Vane",
            Vane::SanctuaryWV => "Sanctuary Weather Vane",
            Vane::SkullWoodsWV => "Skull Woods Weather Vane",
            Vane::TreacherousTowerWV => "Treacherous Tower Weather Vane",
            Vane::IceRuinsWV => "Ice Ruins Weather Vane",
            Vane::LoruleCastleWV => "Lorule Castle Weather Vane",
            Vane::GraveyardWV => "Graveyard Weather Vane",
            Vane::ThievesTownWV => "Thieves' Town Weather Vane",
            Vane::DarkPalaceWV => "Dark Palace Weather Vane",
            Vane::BlacksmithWV => "Blacksmith Weather Vane",
            Vane::VacantHouseWV => "Vacant House Weather Vane",
            Vane::MiseryMireWV => "Misery Mire Weather Vane",
            Vane::SwampPalaceWV => "Swamp Palace Weather Vane",
            Vane::TurtleRockWV => "Turtle Rock Weather Vane",
            Vane::DeathMountainLoruleWV => "Death Mountain (Lorule) Weather Vane",
        }
    }

    /// The world in which the vane stands.
    pub open spec fn world(self) -> World {
        match self {
            Vane::YourHouseWV | Vane::KakarikoVillageWV | Vane::EasternPalaceWV
            | Vane::HouseOfGalesWV | Vane::TowerOfHeraWV | Vane::WitchsHouseWV
            | Vane::DeathMountainHyruleWV | Vane::DesertPalaceWV | Vane::SanctuaryWV => World::Hyrule,
            Vane::SkullWoodsWV | Vane::TreacherousTowerWV | Vane::IceRuinsWV
            | Vane::LoruleCastleWV | Vane::GraveyardWV | Vane::ThievesTownWV
            | Vane::DarkPalaceWV | Vane::BlacksmithWV | Vane::VacantHouseWV | Vane::MiseryMireWV
            | Vane::SwampPalaceWV | Vane::TurtleRockWV | Vane::DeathMountainLoruleWV => World::Lorule,
        }
    }

    pub fn as_str(self) -> (r: &'static str)
        ensures
            r == self.name(),
    {
        match self {
            Vane::YourHouseWV => "Your House Weather Vane",
            Vane::KakarikoVillageWV => "Kakariko Village Weather Vane",
            Vane::EasternPalaceWV => "Eastern Palace Weather Vane",
            Vane::HouseOfGalesWV => "House of Gales Weather Vane",
            Vane::TowerOfHeraWV => "Tower of Hera Weather Vane",
            Vane::WitchsHouseWV => "Witch's House Weather Vane",
            Vane::DeathMountainHyruleWV => "Death Mountain (Hyrule) Weather Vane",
            Vane::DesertPalaceWV => "Desert Palace Weather Vane",
            Vane::SanctuaryWV => "Sanctuary Weather Vane",
            Vane::SkullWoodsWV => "Skull Woods Weather Vane",
            Vane::TreacherousTowerWV => "Treacherous Tower Weather Vane",
            Vane::IceRuinsWV => "Ice Ruins Weather Vane",
            Vane::LoruleCastleWV => "Lorule Castle Weather Vane",
            Vane::GraveyardWV => "Graveyard Weather Vane",
            Vane::ThievesTownWV => "Thieves' Town Weather Vane",
            Vane::DarkPalaceWV => "Dark Palace Weather Vane",
            Vane::BlacksmithWV => "Blacksmith Weather Vane",
            Vane::VacantHouseWV => "Vacant House Weather Vane",
            Vane::MiseryMireWV => "Misery Mire Weather Vane",
            Vane::SwampPalaceWV => "Swamp Palace Weather Vane",
            Vane::TurtleRockWV => "Turtle Rock Weather Vane",
            Vane::DeathMountainLoruleWV => "Death Mountain (Lorule) Weather Vane",
        }
    }

    pub fn get_world(self) -> (r: World)
        ensures
            r == self.world(),
    {
        match self {
            Vane::YourHouseWV | Vane::KakarikoVillageWV | Vane::EasternPalaceWV
            | Vane::HouseOfGalesWV | Vane::TowerOfHeraWV | Vane::WitchsHouseWV
            | Vane::DeathMountainHyruleWV | Vane::DesertPalaceWV | Vane::SanctuaryWV => World::Hyrule,
            Vane::SkullWoodsWV | Vane::TreacherousTowerWV | Vane::IceRuinsWV
            | Vane::LoruleCastleWV | Vane::GraveyardWV | Vane::ThievesTownWV
            | Vane::DarkPalaceWV | Vane::BlacksmithWV | Vane::VacantHouseWV | Vane::MiseryMireWV
            | Vane::SwampPalaceWV | Vane::TurtleRockWV | Vane::DeathMountainLoruleWV => World::Lorule,
        }
    }

    /// Every weather vane, in declaration order.
    pub fn all() -> (r: Vec<Vane>)
        ensures
            r@ == all_vanes(),
    {
        let r = vec![
            Vane::BlacksmithWV,
            Vane::DarkPalaceWV,
            Vane::DeathMountainHyruleWV,
            Vane::DeathMountainLoruleWV,
            Vane::DesertPalaceWV,
            Vane::EasternPalaceWV,
            Vane::GraveyardWV,
            Vane::HouseOfGalesWV,
            Vane::IceRuinsWV,
            Vane::KakarikoVillageWV,
            Vane::LoruleCastleWV,
            Vane::MiseryMireWV,
            Vane::SanctuaryWV,
            Vane::SkullWoodsWV,
            Vane::SwampPalaceWV,
            Vane::ThievesTownWV,
            Vane::TowerOfHeraWV,
            Vane::TreacherousTowerWV,
            Vane::TurtleRockWV,
            Vane::VacantHouseWV,
            Vane::WitchsHouseWV,
            Vane::YourHouseWV,
        ];
        assert(r@ =~= all_vanes());
        r
    }
    /// The vane whose display name is `name`, if there is one.
    pub fn from_name(name: &str) -> (r: Option<Vane>)
        ensures
            r matches Some(v) ==> v.name()@ == name@,
            r is None ==> forall|v: Vane| v.name()@ != name@,
    {
        let all = Vane::all();
        let mut i: usize = 0;
        while i < all.len()
            invariant
                all@ == all_vanes(),
                i <= all.len(),
                forall|j: int| 0 <= j < i ==> all@[j].name()@ != name@,
            decreases all.len() - i,
        {
            let v = all[i];
            if same_text(v.as_str(), name) {
                return Some(v);
            }
            i += 1;
        }
        proof {
            assert forall|v: Vane| v.name()@ != name@ by {
                assert(all_vanes().contains(v)) by {
                    vanes_listed(v);
                }
            }
        }
        None
    }
}

/// Every vane is in the list of all vanes.
proof fn vanes_listed(v: Vane)
    ensures
        all_vanes().contains(v),
{
    let s = all_vanes();
    let k: int = match v {
        Vane::BlacksmithWV => 0,
        Vane::DarkPalaceWV => 1,
        Vane::DeathMountainHyruleWV => 2,
        Vane::DeathMountainLoruleWV => 3,
        Vane::DesertPalaceWV => 4,
        Vane::EasternPalaceWV => 5,
        Vane::GraveyardWV => 6,
        Vane::HouseOfGalesWV => 7,
        Vane::IceRuinsWV => 8,
        Vane::KakarikoVillageWV => 9,
        Vane::LoruleCastleWV => 10,
        Vane::MiseryMireWV => 11,
        Vane::SanctuaryWV => 12,
        Vane::SkullWoodsWV => 13,
        Vane::SwampPalaceWV => 14,
        Vane::ThievesTownWV => 15,
        Vane::TowerOfHeraWV => 16,
        Vane::TreacherousTowerWV => 17,
        Vane::TurtleRockWV => 18,
        Vane::VacantHouseWV => 19,
        Vane::WitchsHouseWV => 20,
        Vane::YourHouseWV => 21,
    };
    assert(s[k] == v);
}

} // verus!
