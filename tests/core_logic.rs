use randomizer::actors::{patch, Actor, ActorCopy, Course, Scene};
use randomizer::filler_item::{FillerItem, LogicToken};
use randomizer::fill::{assumed_fill_step, fill};
use randomizer::game::GameItem;
use randomizer::goal::Goal;
use randomizer::item::Item;
use randomizer::logic::Pred;
use randomizer::oracle::reach;
use randomizer::rng::Rng;
use randomizer::settings::{Keysy, PortalShuffle, Settings, WeatherVanes};
use randomizer::spheres::classify_spheres;
use randomizer::vane::Vane;
use randomizer::world::{FillError, WorldGraph};

fn settings(keysy: Keysy) -> Settings {
    Settings {
        weather_vanes: WeatherVanes::Standard,
        portal_shuffle: PortalShuffle::Off,
        keysy,
        progressive_bow_of_light: false,
        dev_mode: false,
    }
}

fn has(item: Item) -> Pred {
    Pred::Has(FillerItem::Item(item).to_logic())
}

fn and(a: Pred, b: Pred) -> Pred {
    Pred::And(Box::new(a), Box::new(b))
}

fn or(a: Pred, b: Pred) -> Pred {
    Pred::Or(Box::new(a), Box::new(b))
}

fn triforce() -> Pred {
    Pred::Has(LogicToken::Goal(Goal::Triforce))
}

fn mentions(p: &Pred, t: LogicToken) -> bool {
    match p {
        Pred::Always => false,
        Pred::Has(u) => *u == t,
        Pred::Can(_) => false,
        Pred::And(a, b) | Pred::Or(a, b) => mentions(a, t) || mentions(b, t),
    }
}

/// Three locations: A open, B needing X, C needing X and Y.
fn three_locations() -> Vec<Pred> {
    vec![Pred::Always, has(Item::Bow01), and(has(Item::Hookshot01), has(Item::Bow01))]
}

#[test]
fn oracle_reaches_fixed_point() {
    let locs = three_locations();
    let placement = vec![
        Some(FillerItem::Item(Item::Bow01)),
        Some(FillerItem::Item(Item::Hookshot01)),
        None,
    ];
    let r = reach(&locs, &placement, &vec![]);
    assert_eq!(r.reached, vec![true, true, true]);
    assert!(r.owned.contains(&LogicToken::Item(GameItem::ItemBow)));
    assert!(r.owned.contains(&LogicToken::Item(GameItem::ItemHookShot)));
}

#[test]
fn oracle_stops_at_a_missing_token() {
    let locs = three_locations();
    let placement = vec![Some(FillerItem::Item(Item::Hookshot01)), Some(FillerItem::Item(Item::Bow01)), None];
    let r = reach(&locs, &placement, &vec![]);
    assert_eq!(r.reached, vec![true, false, false]);
    assert_eq!(r.owned, vec![LogicToken::Item(GameItem::ItemHookShot)]);
}

#[test]
fn oracle_follows_location_references() {
    let locs = vec![Pred::Can(1), has(Item::Bell), Pred::Always];
    let placement = vec![None, None, Some(FillerItem::Item(Item::Bell))];
    let r = reach(&locs, &placement, &vec![]);
    assert_eq!(r.reached, vec![true, true, true]);
}

#[test]
fn oracle_twice_gives_the_same_result() {
    let locs = three_locations();
    let placement = vec![Some(FillerItem::Item(Item::Bow01)), None, None];
    let assumed = vec![LogicToken::Item(GameItem::ItemHookShot)];
    let first = reach(&locs, &placement, &assumed);
    let second = reach(&locs, &placement, &assumed);
    assert_eq!(first.reached, second.reached);
    assert_eq!(first.owned, second.owned);
    let again = reach(&locs, &placement, &first.owned);
    assert_eq!(again.reached, first.reached);
}

#[test]
fn oracle_is_monotone_in_assumed_tokens() {
    let locs = three_locations();
    let placement = vec![None, None, None];
    let small = reach(&locs, &placement, &vec![LogicToken::Item(GameItem::ItemBow)]);
    let big = reach(
        &locs,
        &placement,
        &vec![LogicToken::Item(GameItem::ItemBow), LogicToken::Item(GameItem::ItemHookShot)],
    );
    assert_eq!(small.reached, vec![true, true, false]);
    assert_eq!(big.reached, vec![true, true, true]);
    for l in 0..3 {
        assert!(!small.reached[l] || big.reached[l]);
    }
}

#[test]
fn build_with_all_keys_removed() {
    let small = FillerItem::Item(Item::EasternKeySmall01).to_logic();
    let big = FillerItem::Item(Item::EasternKeyBig).to_logic();
    let locs = vec![
        has(Item::EasternKeySmall01),
        and(has(Item::EasternKeyBig), has(Item::Bow01)),
        or(has(Item::EasternKeySmall02), Pred::Can(0)),
    ];
    let g = WorldGraph::build(&locs, &triforce(), &settings(Keysy::AllKeysy)).unwrap();
    assert_eq!(g.locations.len(), 3);
    for p in g.locations.iter() {
        assert!(!mentions(p, small));
        assert!(!mentions(p, big));
    }
    assert!(mentions(&g.locations[1], LogicToken::Item(GameItem::ItemBow)));
    assert!(matches!(g.locations[0], Pred::Always));
}

#[test]
fn build_with_small_keys_removed_keeps_big_keys() {
    let big = FillerItem::Item(Item::EasternKeyBig).to_logic();
    let small = FillerItem::Item(Item::EasternKeySmall01).to_logic();
    let locs = vec![and(has(Item::EasternKeyBig), has(Item::EasternKeySmall01))];
    let g = WorldGraph::build(&locs, &Pred::Always, &settings(Keysy::SmallKeysy)).unwrap();
    assert!(mentions(&g.locations[0], big));
    assert!(!mentions(&g.locations[0], small));
    let g = WorldGraph::build(&locs, &Pred::Always, &settings(Keysy::Off)).unwrap();
    assert!(mentions(&g.locations[0], big));
    assert!(mentions(&g.locations[0], small));
}

#[test]
fn build_rejects_dangling_reference() {
    let locs = vec![Pred::Always, Pred::Can(2)];
    assert!(matches!(
        WorldGraph::build(&locs, &Pred::Always, &settings(Keysy::Off)),
        Err(FillError::Construction)
    ));
    let locs = vec![Pred::Always];
    assert!(matches!(
        WorldGraph::build(&locs, &Pred::Can(1), &settings(Keysy::Off)),
        Err(FillError::Construction)
    ));
}

#[test]
fn fill_three_location_scenario() {
    let g = WorldGraph { locations: three_locations(), goal: triforce() };
    let x = FillerItem::Item(Item::Bow01);
    let y = FillerItem::Item(Item::Hookshot01);
    let goal = FillerItem::Goal(Goal::Triforce);
    let pool = vec![x, y, goal];
    let f = fill(&g, &settings(Keysy::Off), &vec![None, None, None], &pool, 7, 200).unwrap();
    assert_eq!(f.placement, vec![Some(x), Some(y), Some(goal)]);
    assert_eq!(f.slots, vec![0, 1, 2]);
    let r = reach(&g.locations, &f.placement, &vec![]);
    assert_eq!(r.reached, vec![true, true, true]);
    assert!(r.owned.contains(&LogicToken::Goal(Goal::Triforce)));
}

#[test]
fn fill_places_every_entry_exactly_once() {
    let locs = vec![
        Pred::Always,
        Pred::Always,
        has(Item::Bow01),
        has(Item::Bow01),
        and(has(Item::Hookshot01), has(Item::Bow01)),
        has(Item::Hookshot01),
    ];
    let g = WorldGraph { locations: locs, goal: triforce() };
    let pool = vec![
        FillerItem::Item(Item::Bow01),
        FillerItem::Item(Item::Hookshot01),
        FillerItem::Goal(Goal::Triforce),
        FillerItem::Item(Item::RupeeGreen),
        FillerItem::Item(Item::RupeeGreen),
    ];
    let fixed = vec![None, Some(FillerItem::Item(Item::HeartPiece01)), None, None, None, None];
    for seed in 0..20u64 {
        let f = fill(&g, &settings(Keysy::Off), &fixed, &pool, seed, 100).unwrap();
        assert_eq!(f.placement[1], Some(FillerItem::Item(Item::HeartPiece01)));
        assert_eq!(f.slots.len(), pool.len());
        for i in 0..pool.len() {
            assert_ne!(f.slots[i], 1);
            assert_eq!(f.placement[f.slots[i]], Some(pool[i]));
            for j in 0..pool.len() {
                assert!(i == j || f.slots[i] != f.slots[j]);
            }
        }
        assert!(f.placement.iter().all(|p| p.is_some()));
        let r = reach(&g.locations, &f.placement, &vec![]);
        assert!(r.reached.iter().all(|b| *b));
    }
}

#[test]
fn fill_is_reproducible_from_the_seed() {
    let locs = vec![Pred::Always, Pred::Always, Pred::Always, Pred::Always];
    let g = WorldGraph { locations: locs, goal: Pred::Always };
    let pool = vec![
        FillerItem::Item(Item::Bow01),
        FillerItem::Item(Item::Bell),
        FillerItem::Item(Item::RupeeRed),
        FillerItem::Item(Item::RupeeBlue),
    ];
    let a = fill(&g, &settings(Keysy::Off), &vec![None; 4], &pool, 99, 3).unwrap();
    let b = fill(&g, &settings(Keysy::Off), &vec![None; 4], &pool, 99, 3).unwrap();
    assert_eq!(a.placement, b.placement);
    assert_eq!(a.slots, b.slots);
}

#[test]
fn fill_reports_infeasible_configuration() {
    // C needs a weather vane, which is not shuffled and not in the pool.
    let locs = vec![Pred::Always, Pred::Always, Pred::Has(LogicToken::Vane(Vane::YourHouseWV))];
    let g = WorldGraph { locations: locs, goal: triforce() };
    let pool = vec![
        FillerItem::Item(Item::Bow01),
        FillerItem::Goal(Goal::Triforce),
        FillerItem::Item(Item::RupeeGreen),
    ];
    let r = fill(&g, &settings(Keysy::Off), &vec![None, None, None], &pool, 1, 5);
    assert!(matches!(r, Err(FillError::Infeasible { attempts: 5 })));
}

#[test]
fn fill_reports_too_few_locations() {
    let g = WorldGraph { locations: vec![Pred::Always], goal: Pred::Always };
    let pool = vec![FillerItem::Item(Item::RupeeGreen), FillerItem::Item(Item::RupeeBlue)];
    let r = fill(&g, &settings(Keysy::Off), &vec![None], &pool, 1, 4);
    assert!(matches!(r, Err(FillError::Infeasible { attempts: 4 })));
}

#[test]
fn fill_with_no_attempts_allowed() {
    let g = WorldGraph { locations: vec![Pred::Always], goal: Pred::Always };
    let pool = vec![FillerItem::Item(Item::RupeeGreen)];
    let r = fill(&g, &settings(Keysy::Off), &vec![None], &pool, 1, 0);
    assert!(matches!(r, Err(FillError::Infeasible { attempts: 0 })));
}

#[test]
fn fill_reports_construction_errors() {
    let g = WorldGraph { locations: vec![Pred::Can(5)], goal: Pred::Always };
    let pool = vec![FillerItem::Item(Item::RupeeGreen)];
    let r = fill(&g, &settings(Keysy::Off), &vec![None], &pool, 1, 4);
    assert!(matches!(r, Err(FillError::Construction)));
    let g = WorldGraph { locations: vec![Pred::Always], goal: Pred::Always };
    let r = fill(&g, &settings(Keysy::Off), &vec![None, None], &pool, 1, 4);
    assert!(matches!(r, Err(FillError::Construction)));
}

#[test]
fn assumed_fill_step_places_into_a_reachable_location() {
    let g = WorldGraph { locations: three_locations(), goal: triforce() };
    let pool = vec![FillerItem::Item(Item::Bow01), FillerItem::Item(Item::Hookshot01)];
    let mut placement = vec![None, None, None];
    let mut unplaced = vec![0usize];
    let mut slots = vec![None, Some(1)];
    placement[1] = Some(pool[1]);
    let mut rng = Rng::new(3);
    // With nothing assumed only A is reachable, so the bow goes there.
    let r = assumed_fill_step(&g, &pool, &mut placement, &mut unplaced, &mut slots, &mut rng);
    assert_eq!(r, Some((0, 0)));
    assert_eq!(placement[0], Some(pool[0]));
    assert_eq!(slots, vec![Some(0), Some(1)]);
    assert!(unplaced.is_empty());
}

#[test]
fn assumed_fill_step_dead_end() {
    let g = WorldGraph { locations: vec![Pred::Always, has(Item::Bow01)], goal: Pred::Always };
    let pool = vec![FillerItem::Item(Item::Bow01), FillerItem::Item(Item::Bell)];
    let mut placement = vec![Some(pool[1]), None];
    let mut unplaced = vec![0usize];
    let mut slots = vec![None, Some(0)];
    let mut rng = Rng::new(11);
    let r = assumed_fill_step(&g, &pool, &mut placement, &mut unplaced, &mut slots, &mut rng);
    assert_eq!(r, None);
    assert_eq!(placement, vec![Some(pool[1]), None]);
    assert!(unplaced.is_empty());
}

#[test]
fn spheres_follow_the_chain() {
    let locs = vec![Pred::Always, has(Item::Bow01), has(Item::Hookshot01), has(Item::Bell)];
    let placement = vec![
        Some(FillerItem::Item(Item::Bow01)),
        Some(FillerItem::Item(Item::Hookshot01)),
        Some(FillerItem::Item(Item::RupeeGreen)),
        None,
    ];
    assert_eq!(classify_spheres(&locs, &placement), vec![Some(0), Some(1), Some(2), None]);
}

#[test]
fn spheres_of_location_dependencies() {
    let locs = vec![Pred::Can(1), Pred::Always, and(Pred::Can(0), Pred::Can(1))];
    let placement = vec![None, None, None];
    assert_eq!(classify_spheres(&locs, &placement), vec![Some(1), Some(0), Some(2)]);
}

#[test]
fn rng_draws() {
    let mut a = Rng::new(42);
    let mut b = Rng::new(42);
    for _ in 0..50 {
        assert_eq!(a.next_u64(), b.next_u64());
    }
    let mut c = Rng::new(0);
    assert_eq!(c.next_u64(), 0xE220A8397B1DCDAF);
    for n in 1..20usize {
        assert!(c.below(n) < n);
    }
}

#[test]
fn actor_patch_plan() {
    let heart = ActorCopy {
        actor: Actor::HeartPiece,
        from: Scene { course: Course::FieldLight, stage: 29 },
        to: Scene { course: Course::FieldLight, stage: 35 },
    };
    let ghost = ActorCopy {
        actor: Actor::HintGhost,
        from: Scene { course: Course::IndoorDark, stage: 15 },
        to: Scene { course: Course::IndoorDark, stage: 4 },
    };
    let mut s = settings(Keysy::Off);
    assert_eq!(patch(&s), vec![heart, ghost]);
    s.progressive_bow_of_light = true;
    assert_eq!(patch(&s), vec![heart]);
}
