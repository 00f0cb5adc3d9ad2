use randomizer::filler_item::{FillerItem, LogicToken};
use randomizer::fill::fill;
use randomizer::game::GameItem;
use randomizer::goal::Goal;
use randomizer::item::Item;
use randomizer::logic::{owns, Pred};
use randomizer::settings::{Keysy, PortalShuffle, Settings, WeatherVanes};
use randomizer::text::same_text;
use randomizer::world::WorldGraph;

fn settings(keysy: Keysy) -> Settings {
    Settings {
        weather_vanes: WeatherVanes::Standard,
        portal_shuffle: PortalShuffle::Off,
        keysy,
        progressive_bow_of_light: true,
        dev_mode: false,
    }
}

fn small_key() -> Pred {
    Pred::Has(LogicToken::Item(GameItem::KeySmall))
}

fn big_key() -> Pred {
    Pred::Has(LogicToken::Item(GameItem::KeyBoss))
}

#[test]
fn evaluate_requirements() {
    let bow = LogicToken::Item(GameItem::ItemBow);
    let owned = vec![bow];
    let reached = vec![true, false];
    assert!(Pred::Always.evaluate(&owned, &reached));
    assert!(Pred::Has(bow).evaluate(&owned, &reached));
    assert!(!small_key().evaluate(&owned, &reached));
    assert!(Pred::Can(0).evaluate(&owned, &reached));
    assert!(!Pred::Can(1).evaluate(&owned, &reached));
    assert!(!Pred::Can(9).evaluate(&owned, &reached));
    let both = Pred::And(Box::new(Pred::Has(bow)), Box::new(Pred::Can(1)));
    let either = Pred::Or(Box::new(Pred::Has(bow)), Box::new(Pred::Can(1)));
    assert!(!both.evaluate(&owned, &reached));
    assert!(either.evaluate(&owned, &reached));
}

#[test]
fn owns_and_same_text() {
    let owned = vec![LogicToken::Goal(Goal::Yuga), LogicToken::Item(GameItem::ItemBell)];
    assert!(owns(&owned, LogicToken::Item(GameItem::ItemBell)));
    assert!(!owns(&owned, LogicToken::Goal(Goal::Triforce)));
    assert!(!owns(&vec![], LogicToken::Goal(Goal::Triforce)));
    assert!(same_text("Bell", "Bell"));
    assert!(!same_text("Bell", "Belt"));
    assert!(!same_text("Bell", "Bells"));
    assert!(same_text("", ""));
}

#[test]
fn strip_keys_modes() {
    let p = Pred::And(Box::new(small_key()), Box::new(big_key()));
    let q = p.strip_keys(Keysy::BigKeysy);
    match q {
        Pred::And(a, b) => {
            assert!(matches!(*a, Pred::Has(LogicToken::Item(GameItem::KeySmall))));
            assert!(matches!(*b, Pred::Always));
        },
        _ => panic!("shape changed"),
    }
    let q = p.strip_keys(Keysy::Off);
    match q {
        Pred::And(a, b) => {
            assert!(matches!(*a, Pred::Has(LogicToken::Item(GameItem::KeySmall))));
            assert!(matches!(*b, Pred::Has(LogicToken::Item(GameItem::KeyBoss))));
        },
        _ => panic!("shape changed"),
    }
    assert!(matches!(Pred::Can(3).strip_keys(Keysy::AllKeysy), Pred::Can(3)));
}

#[test]
fn well_formedness_check() {
    let g = WorldGraph { locations: vec![Pred::Always, Pred::Can(0)], goal: Pred::Can(1) };
    assert!(g.check_well_formed());
    let g = WorldGraph { locations: vec![Pred::Always, Pred::Can(2)], goal: Pred::Always };
    assert!(!g.check_well_formed());
}

#[test]
fn keyless_dungeon_fills_after_key_removal() {
    // The boss room needs both keys; with every key removed the keys leave the pool and
    // the rest fills in an open world.
    let raw = vec![
        Pred::Always,
        small_key(),
        Pred::And(Box::new(small_key()), Box::new(big_key())),
    ];
    let goal = Pred::Has(LogicToken::Goal(Goal::Triforce));
    let g = WorldGraph::build(&raw, &goal, &settings(Keysy::AllKeysy)).unwrap();
    let pool = vec![
        FillerItem::Item(Item::RupeeGreen),
        FillerItem::Goal(Goal::Triforce),
        FillerItem::Item(Item::HeartPiece02),
    ];
    for seed in 0..10u64 {
        let f = fill(&g, &settings(Keysy::AllKeysy), &vec![None, None, None], &pool, seed, 1).unwrap();
        assert!(f.placement.iter().all(|p| p.is_some()));
    }
    // Without key removal the same pool cannot open the boss room.
    let g = WorldGraph::build(&raw, &goal, &settings(Keysy::Off)).unwrap();
    assert!(fill(&g, &settings(Keysy::Off), &vec![None, None, None], &pool, 3, 4).is_err());
}
