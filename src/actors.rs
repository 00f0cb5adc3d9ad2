use vstd::prelude::*;

use crate::settings::Settings;

verus! {

/// The kinds of scene that an actor can be copied between.
#[derive(Clone, Copy, Debug, PartialEq, Eq, Hash, Structural)]
pub enum Course {
    FieldLight,
    IndoorDark,
}

/// A scene: a course and the stage within it, counted from zero.
#[derive(Clone, Copy, Debug, PartialEq, Eq, Hash, Structural)]
pub struct Scene {
    pub course: Course,
    pub stage: u16,
}

/// The actors that are copied into scenes that do not have them.
#[derive(Clone, Copy, Debug, PartialEq, Eq, Hash, Structural)]
pub enum Actor {
    HeartPiece,
    HintGhost,
}

/// Copy the actor `actor` out of scene `from` into scene `to`.
#[derive(Clone, Copy, Debug, PartialEq, Eq, Hash, Structural)]
pub struct ActorCopy {
    pub actor: Actor,
    pub from: Scene,
    pub to: Scene,
}

/// The heart piece for the vanilla Letter in a Bottle area.
pub open spec fn letter_in_a_bottle_copy() -> ActorCopy {
    ActorCopy {
        actor: Actor::HeartPiece,
        from: Scene { course: Course::FieldLight, stage: 29 },
        to: Scene { course: Course::FieldLight, stage: 35 },
    }
}

/// The hint ghost in Hilda's study that gives out the Bow of Light hint.
pub open spec fn bow_of_light_hint_copy() -> ActorCopy {
    ActorCopy {
        actor: Actor::HintGhost,
        from: Scene { course: Course::IndoorDark, stage: 15 },
        to: Scene { course: Course::IndoorDark, stage: 4 },
    }
}

/// The actor copies for the settings, in the order they are applied.
pub open spec fn actor_copies(settings: Settings) -> Seq<ActorCopy> {
    if settings.progressive_bow_of_light {
        seq![letter_in_a_bottle_copy()]
    } else {
        seq![letter_in_a_bottle_copy(), bow_of_light_hint_copy()]
    }
}

/// The actors to add to scenes that do not originally have them: the Letter in a Bottle
/// heart piece always, and the Bow of Light hint ghost unless the Bow of Light is
/// progressive.
pub fn patch(settings: &Settings) -> (r: Vec<ActorCopy>)
    ensures
        r@ == actor_copies(*settings),
{
    let mut r: Vec<ActorCopy> = Vec::new();
    r.push(patch_letter_in_a_bottle());
    if !settings.progressive_bow_of_light {
        r.push(patch_bow_of_light_hint());
    }
    assert(r@ =~= actor_copies(*settings));
    r
}

fn patch_bow_of_light_hint() -> (r: ActorCopy)
    ensures
        r == bow_of_light_hint_copy(),
{
    ActorCopy {
        actor: Actor::HintGhost,
        from: Scene { course: Course::IndoorDark, stage: 15 },
        to: Scene { course: Course::IndoorDark, stage: 4 },
    }
}

fn patch_letter_in_a_bottle() -> (r: ActorCopy)
    ensures
        r == letter_in_a_bottle_copy(),
{
    ActorCopy {
        actor: Actor::HeartPiece,
        from: Scene { course: Course::FieldLight, stage: 29 },
        to: Scene { course: Course::FieldLight, stage: 35 },
    }
}

} // verus!
