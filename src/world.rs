use vstd::prelude::*;

use crate::logic::{big_key, mentions, refers_below, small_key, stripped, Pred};
use crate::settings::{Keysy, Settings};

verus! {

/// Why no placement came out.
#[derive(Clone, Copy, Debug, PartialEq, Eq, Hash, Structural)]
pub enum FillError {
    /// A requirement refers to a location that does not exist, or the fixed placement does
    /// not cover the locations.
    Construction,
    /// Every attempt allowed failed.
    Infeasible { attempts: u32 },
}

/// The locations of the world, each with its reachability requirement, and the goal that
/// a finished placement must satisfy.
pub struct WorldGraph {
    pub locations: Vec<Pred>,
    pub goal: Pred,
}

impl WorldGraph {
    /// Every requirement, the goal's included, refers only to existing locations.
    pub open spec fn well_formed(&self) -> bool {
        &&& forall|l: int|
            0 <= l < self.locations@.len() ==> refers_below(
                #[trigger] self.locations@[l],
                self.locations@.len() as int,
            )
        &&& refers_below(self.goal, self.locations@.len() as int)
    }

    pub fn check_well_formed(&self) -> (r: bool)
        ensures
            r == self.well_formed(),
    {
        let n = self.locations.len();
        let mut i: usize = 0;
        while i < n
            invariant
                n == self.locations@.len(),
                i <= n,
                forall|l: int| 0 <= l < i ==> refers_below(#[trigger] self.locations@[l], n as int),
            decreases n - i,
        {
            if !self.locations[i].refers_within(n) {
                return false;
            }
            i += 1;
        }
        self.goal.refers_within(n)
    }

    /// Builds the live graph for the settings: every requirement and the goal with the
    /// keys that the settings remove taken out. Fails when a requirement refers to a
    /// location that does not exist.
    pub fn build(
        locations: &Vec<Pred>,
        goal: &Pred,
        settings: &Settings,
    ) -> (r: Result<WorldGraph, FillError>)
        ensures
            r is Err <==> !(WorldGraph { locations: *locations, goal: *goal }).well_formed(),
            r is Err ==> r == Err::<WorldGraph, FillError>(FillError::Construction),
            r matches Ok(g) ==> {
                &&& g.well_formed()
                &&& g.locations@.len() == locations@.len()
                &&& forall|l: int|
                    0 <= l < locations@.len() ==> #[trigger] g.locations@[l] == stripped(
                        locations@[l],
                        settings.keysy,
                    )
                &&& g.goal == stripped(*goal, settings.keysy)
                &&& settings.keysy.removes_small() ==> forall|l: int|
                    0 <= l < g.locations@.len() ==> !mentions(#[trigger] g.locations@[l], small_key())
                &&& settings.keysy.removes_big() ==> forall|l: int|
                    0 <= l < g.locations@.len() ==> !mentions(#[trigger] g.locations@[l], big_key())
            },
    {
        let n = locations.len();
        let mut live: Vec<Pred> = Vec::new();
        let mut i: usize = 0;
        while i < n
            invariant
                n == locations@.len(),
                i <= n,
                live@.len() == i,
                forall|l: int| 0 <= l < i ==> refers_below(#[trigger] locations@[l], n as int),
                forall|l: int|
                    0 <= l < i ==> #[trigger] live@[l] == stripped(locations@[l], settings.keysy),
                settings.keysy.removes_small() ==> forall|l: int|
                    0 <= l < i ==> !mentions(#[trigger] live@[l], small_key()),
                settings.keysy.removes_big() ==> forall|l: int|
                    0 <= l < i ==> !mentions(#[trigger] live@[l], big_key()),
            decreases n - i,
        {
            if !locations[i].refers_within(n) {
                return Err(FillError::Construction);
            }
            let p = locations[i].strip_keys(settings.keysy);
            proof {
                lemma_stripped_refers(locations@[i as int], settings.keysy, n as int);
            }
            live.push(p);
            i += 1;
        }
        if !goal.refers_within(n) {
            return Err(FillError::Construction);
        }
        proof {
            lemma_stripped_refers(*goal, settings.keysy, n as int);
        }
        let g = WorldGraph { locations: live, goal: goal.strip_keys(settings.keysy) };
        proof {
            assert forall|l: int| 0 <= l < g.locations@.len() implies refers_below(
                #[trigger] g.locations@[l],
                n as int,
            ) by {
                lemma_stripped_refers(locations@[l], settings.keysy, n as int);
            }
        }
        Ok(g)
    }
}

/// Key removal keeps every location reference.
pub proof fn lemma_stripped_refers(p: Pred, mode: Keysy, n: int)
    ensures
        refers_below(stripped(p, mode), n) == refers_below(p, n),
    decreases p,
{
    match p {
        Pred::And(a, b) => {
            lemma_stripped_refers(*a, mode, n);
            lemma_stripped_refers(*b, mode, n);
        },
        Pred::Or(a, b) => {
            lemma_stripped_refers(*a, mode, n);
            lemma_stripped_refers(*b, mode, n);
        },
        _ => {},
    }
}

} // verus!
