use randomizer::filler_item::{FillerItem, LogicToken, MsbfKey};
use randomizer::game::{GameItem, World};
use randomizer::ghosts::HintGhost;
use randomizer::goal::Goal;
use randomizer::hint_color::HintColor;
use randomizer::item::Item;
use randomizer::portal::Portal;
use randomizer::settings::{Keysy, PortalShuffle, Settings, WeatherVanes};
use randomizer::vane::Vane;

fn settings(vanes: WeatherVanes, portals: PortalShuffle) -> Settings {
    Settings {
        weather_vanes: vanes,
        portal_shuffle: portals,
        keysy: Keysy::Off,
        progressive_bow_of_light: false,
        dev_mode: false,
    }
}

#[test]
fn item_names_and_articles() {
    assert_eq!(Item::Bow02.as_str(), "Bow+");
    assert_eq!(Item::Flippers.as_str(), "Zora's Flippers");
    assert_eq!(Item::Maiamai042.as_str(), "Lost Maiamai");
    assert_eq!(Item::Quake.as_str(), "Quake Medallion");
    assert_eq!(Item::Bow01.get_article(), "the");
    assert_eq!(Item::Bottle03.get_article(), "an");
    assert_eq!(Item::MonsterGuts.get_article(), "some");
    assert_eq!(Item::SageImpa.get_article(), "");
}

#[test]
fn item_to_game_item() {
    assert_eq!(Item::Sword03.to_game_item(), GameItem::ItemSwordLv2);
    assert_eq!(Item::HeartPiece17.to_game_item(), GameItem::HeartPiece);
    assert_eq!(Item::DarkKeySmall02.to_game_item(), GameItem::KeySmall);
    assert_eq!(Item::SkullKeyBig.to_game_item(), GameItem::KeyBoss);
    assert_eq!(Item::Quake.to_game_item(), GameItem::ItemRentalShield);
}

#[test]
fn game_item_canonical_form() {
    assert_eq!(GameItem::ItemSwordLv4.to_canonical(), GameItem::ItemSwordLv2);
    assert_eq!(GameItem::ItemRentalHookShot.to_canonical(), GameItem::ItemHookShot);
    assert_eq!(GameItem::PowerfulGlove.to_canonical(), GameItem::PowerGlove);
    assert_eq!(GameItem::ItemBow.to_canonical(), GameItem::ItemBow);
    assert_eq!(GameItem::Empty.to_index(), 0);
    assert_eq!(GameItem::ItemBow.to_index(), 1);
}

#[test]
fn filler_item_normalize() {
    assert_eq!(FillerItem::Item(Item::Sword01).normalize(), GameItem::ItemSwordLv2);
    assert_eq!(FillerItem::Item(Item::Lamp02).normalize(), GameItem::ItemKandelaar);
    assert_eq!(FillerItem::Item(Item::Bow01).as_item_index(), GameItem::ItemBow.to_index());
    assert_eq!(FillerItem::Item(Item::Hookshot02).as_item_index(), 3);
    assert_eq!(FillerItem::Item(Item::Net01).as_item(), Some(Item::Net01));
    assert_eq!(FillerItem::Goal(Goal::Yuga).as_item(), None);
}

#[test]
fn filler_item_logic_tokens_collapse_tiers() {
    let a = FillerItem::Item(Item::Sword01).to_logic();
    let b = FillerItem::Item(Item::Sword04).to_logic();
    assert_eq!(a, b);
    assert_eq!(a, LogicToken::Item(GameItem::ItemSwordLv2));
    assert_ne!(FillerItem::Item(Item::Bow01).to_logic(), FillerItem::Item(Item::BowOfLight).to_logic());
    assert_eq!(FillerItem::Goal(Goal::Triforce).to_logic(), LogicToken::Goal(Goal::Triforce));
}

#[test]
fn filler_item_hint_ghost_and_from() {
    assert!(FillerItem::HintGhost(HintGhost::Well).is_hint_ghost());
    assert!(!FillerItem::Item(Item::Bell).is_hint_ghost());
    assert_eq!(FillerItem::from(Item::Bell), FillerItem::Item(Item::Bell));
    assert_eq!(FillerItem::from(Goal::Arrghus), FillerItem::Goal(Goal::Arrghus));
    assert_eq!(FillerItem::from(HintGhost::Cuccos), FillerItem::HintGhost(HintGhost::Cuccos));
    assert_eq!(FillerItem::from(Vane::SanctuaryWV), FillerItem::Vane(Vane::SanctuaryWV));
    assert_eq!(FillerItem::from(Portal { id: 3 }), FillerItem::Portal(Portal { id: 3 }));
}

#[test]
fn sphere_search_membership() {
    let off = settings(WeatherVanes::Standard, PortalShuffle::Off);
    let on = settings(WeatherVanes::Shuffled, PortalShuffle::On);
    assert!(Item::Hookshot01.include_in_sphere_search());
    assert!(Item::GoldBee01.include_in_sphere_search());
    assert!(!Item::GoldBee02.include_in_sphere_search());
    assert!(!Item::RupeeGold03.include_in_sphere_search());
    assert!(FillerItem::Item(Item::Bell).include_in_sphere_search(&off));
    assert!(!FillerItem::Vane(Vane::YourHouseWV).include_in_sphere_search(&off));
    assert!(FillerItem::Vane(Vane::YourHouseWV).include_in_sphere_search(&on));
    assert!(!FillerItem::Portal(Portal { id: 0 }).include_in_sphere_search(&off));
    assert!(FillerItem::Portal(Portal { id: 0 }).include_in_sphere_search(&on));
    assert!(FillerItem::Goal(Goal::Triforce).include_in_sphere_search(&off));
    assert!(!FillerItem::Goal(Goal::Yuga).include_in_sphere_search(&on));
    assert!(!FillerItem::HintGhost(HintGhost::Well).include_in_sphere_search(&on));
}

#[test]
fn large_chest_items() {
    let s = settings(WeatherVanes::Standard, PortalShuffle::Off);
    assert!(FillerItem::Item(Item::Shield04).goes_in_csmc_large_chest(&s));
    assert!(FillerItem::Item(Item::Charm).goes_in_csmc_large_chest(&s));
    assert!(!FillerItem::Item(Item::RupeeGreen).goes_in_csmc_large_chest(&s));
    assert!(!FillerItem::Item(Item::EasternCompass).goes_in_csmc_large_chest(&s));
    assert!(!FillerItem::Goal(Goal::Triforce).goes_in_csmc_large_chest(&s));
}

#[test]
fn msbf_keys_of_prizes() {
    assert_eq!(FillerItem::Item(Item::SageGulley).msbf_key(), Some(MsbfKey::Dark));
    assert_eq!(FillerItem::Item(Item::SageRosso).msbf_key(), Some(MsbfKey::Ice));
    assert_eq!(FillerItem::Item(Item::SageImpa).msbf_key(), None);
    assert_eq!(FillerItem::Item(Item::PendantOfCourage).msbf_key(), None);
}

#[test]
fn names_and_colours() {
    assert_eq!(FillerItem::Item(Item::PegasusBoots).as_str(), "Pegasus Boots");
    assert_eq!(FillerItem::Goal(Goal::TurtleAttacked).as_str(), "Turtle Bullied");
    assert_eq!(FillerItem::Vane(Vane::DeathMountainLoruleWV).as_str(), "Death Mountain (Lorule) Weather Vane");
    assert_eq!(FillerItem::HintGhost(HintGhost::WitchsHouse).as_str(), "Witch's House Ghost");
    assert_eq!(FillerItem::Portal(Portal { id: 1 }).as_str(), "Portal");
    assert_eq!(HintColor::Blue.format("x"), "<blue>x</>");
    assert_eq!(Item::Bell.as_str_colorized(), "<name>Bell</>");
    assert_eq!(Goal::Yuga.as_str_colorized(), "<green>Yuga</>");
    assert_eq!(Goal::Triforce.as_str_colorized(), "<name>Triforce</>");
    assert_eq!(FillerItem::Goal(Goal::Grinexx).as_str_colorized(), "<purple>Grinexx</>");
    assert_eq!(FillerItem::Item(Item::Pouch).as_str_colorized(), "<name>Pouch</>");
}

#[test]
fn vanes() {
    assert_eq!(Vane::YourHouseWV.as_str(), "Your House Weather Vane");
    assert_eq!(Vane::SanctuaryWV.get_world(), World::Hyrule);
    assert_eq!(Vane::BlacksmithWV.get_world(), World::Lorule);
    assert_eq!(Vane::all().len(), 22);
    assert_eq!(Vane::from_name("Misery Mire Weather Vane"), Some(Vane::MiseryMireWV));
    assert_eq!(Vane::from_name("Nowhere Weather Vane"), None);
    assert_eq!(Vane::from_name(""), None);
}

#[test]
fn hint_ghosts() {
    let all = HintGhost::all();
    assert_eq!(all.len(), 58);
    assert_eq!(all[0], HintGhost::LostWoodsMaze1);
    assert_eq!(all[57], HintGhost::MiseryMireBridge);
    assert_eq!(HintGhost::LostWoodsMaze2.as_str(), "Lost Woods Maze 2 Ghost");
}
