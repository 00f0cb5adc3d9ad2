use vstd::prelude::*;

use crate::filler_item::LogicToken;
use crate::game::GameItem;
use crate::settings::Keysy;

verus! {

/// A reachability requirement: a boolean expression over owned logic tokens and over
/// other locations being reachable. There is no negation, so owning more never makes a
/// requirement fail.
#[derive(Debug)]
pub enum Pred {
    Always,
    Has(LogicToken),
    Can(usize),
    And(Box<Pred>, Box<Pred>),
    Or(Box<Pred>, Box<Pred>),
}

/// The locations marked in a vector of flags.
pub open spec fn marked(flags: Seq<bool>) -> Set<int> {
    Set::new(|l: int| 0 <= l < flags.len() && flags[l])
}

/// Whether `p` holds when the tokens in `owned` are owned and the locations in `reached`
/// are reachable.
pub open spec fn eval(p: Pred, owned: Set<LogicToken>, reached: Set<int>) -> bool
    decreases p,
{
    match p {
        Pred::Always => true,
        Pred::Has(t) => owned.contains(t),
        Pred::Can(l) => reached.contains(l as int),
        Pred::And(a, b) => eval(*a, owned, reached) && eval(*b, owned, reached),
        Pred::Or(a, b) => eval(*a, owned, reached) || eval(*b, owned, reached),
    }
}

/// Whether `p` names the token `t`.
pub open spec fn mentions(p: Pred, t: LogicToken) -> bool
    decreases p,
{
    match p {
        Pred::Always => false,
        Pred::Has(u) => u == t,
        Pred::Can(_) => false,
        Pred::And(a, b) => mentions(*a, t) || mentions(*b, t),
        Pred::Or(a, b) => mentions(*a, t) || mentions(*b, t),
    }
}

/// Whether every location that `p` refers to is below `n`.
pub open spec fn refers_below(p: Pred, n: int) -> bool
    decreases p,
{
    match p {
        Pred::Always => true,
        Pred::Has(_) => true,
        Pred::Can(l) => l < n,
        Pred::And(a, b) => refers_below(*a, n) && refers_below(*b, n),
        Pred::Or(a, b) => refers_below(*a, n) && refers_below(*b, n),
    }
}

/// The logic token of every small key.
pub open spec fn small_key() -> LogicToken {
    LogicToken::Item(GameItem::KeySmall)
}

/// The logic token of every big key.
pub open spec fn big_key() -> LogicToken {
    LogicToken::Item(GameItem::KeyBoss)
}

/// Whether the key removal mode takes the token out of every requirement.
pub open spec fn removed_by(mode: Keysy, t: LogicToken) -> bool {
    (mode.removes_small() && t == small_key()) || (mode.removes_big() && t == big_key())
}

/// `p` with every requirement of a removed key replaced by `Always`.
pub open spec fn stripped(p: Pred, mode: Keysy) -> Pred
    decreases p,
{
    match p {
        Pred::Has(t) => if removed_by(mode, t) {
            Pred::Always
        } else {
            Pred::Has(t)
        },
        Pred::And(a, b) => Pred::And(Box::new(stripped(*a, mode)), Box::new(stripped(*b, mode))),
        Pred::Or(a, b) => Pred::Or(Box::new(stripped(*a, mode)), Box::new(stripped(*b, mode))),
        Pred::Always => Pred::Always,
        Pred::Can(l) => Pred::Can(l),
    }
}

/// Owning more tokens and reaching more locations never makes a requirement fail.
pub proof fn lemma_eval_monotone(
    p: Pred,
    owned1: Set<LogicToken>,
    reached1: Set<int>,
    owned2: Set<LogicToken>,
    reached2: Set<int>,
)
    requires
        owned1.subset_of(owned2),
        reached1.subset_of(reached2),
        eval(p, owned1, reached1),
    ensures
        eval(p, owned2, reached2),
    decreases p,
{
    match p {
        Pred::And(a, b) => {
            lemma_eval_monotone(*a, owned1, reached1, owned2, reached2);
            lemma_eval_monotone(*b, owned1, reached1, owned2, reached2);
        },
        Pred::Or(a, b) => {
            if eval(*a, owned1, reached1) {
                lemma_eval_monotone(*a, owned1, reached1, owned2, reached2);
            } else {
                lemma_eval_monotone(*b, owned1, reached1, owned2, reached2);
            }
        },
        _ => {},
    }
}

/// After key removal, a requirement names no removed key.
pub proof fn lemma_stripped_names_no_removed_key(p: Pred, mode: Keysy, t: LogicToken)
    requires
        removed_by(mode, t),
    ensures
        !mentions(stripped(p, mode), t),
    decreases p,
{
    match p {
        Pred::And(a, b) => {
            lemma_stripped_names_no_removed_key(*a, mode, t);
            lemma_stripped_names_no_removed_key(*b, mode, t);
        },
        Pred::Or(a, b) => {
            lemma_stripped_names_no_removed_key(*a, mode, t);
            lemma_stripped_names_no_removed_key(*b, mode, t);
        },
        _ => {},
    }
}

/// Whether `t` is among `owned`.
pub fn owns(owned: &Vec<LogicToken>, t: LogicToken) -> (r: bool)
    ensures
        r == owned@.contains(t),
{
    let mut i: usize = 0;
    while i < owned.len()
        invariant
            i <= owned.len(),
            forall|j: int| 0 <= j < i ==> owned@[j] != t,
        decreases owned.len() - i,
    {
        if owned[i] == t {
            assert(owned@[i as int] == t);
            return true;
        }
        i += 1;
    }
    false
}

impl Pred {
    /// Evaluates the requirement against the owned tokens and the reached locations.
    pub fn evaluate(&self, owned: &Vec<LogicToken>, reached: &Vec<bool>) -> (r: bool)
        ensures
            r == eval(*self, owned@.to_set(), marked(reached@)),
        decreases self,
    {
        match self {
            Pred::Always => true,
            Pred::Has(t) => owns(owned, *t),
            Pred::Can(l) => *l < reached.len() && reached[*l],
            Pred::And(a, b) => a.evaluate(owned, reached) && b.evaluate(owned, reached),
            Pred::Or(a, b) => a.evaluate(owned, reached) || b.evaluate(owned, reached),
        }
    }

    /// Whether every location that the requirement refers to is below `n`.
    pub fn refers_within(&self, n: usize) -> (r: bool)
        ensures
            r == refers_below(*self, n as int),
        decreases self,
    {
        match self {
            Pred::Always => true,
            Pred::Has(_) => true,
            Pred::Can(l) => *l < n,
            Pred::And(a, b) => a.refers_within(n) && b.refers_within(n),
            Pred::Or(a, b) => a.refers_within(n) && b.refers_within(n),
        }
    }

    /// The requirement with every removed key replaced by `Always`.
    pub fn strip_keys(&self, mode: Keysy) -> (r: Pred)
        ensures
            r == stripped(*self, mode),
            mode.removes_small() ==> !mentions(r, small_key()),
            mode.removes_big() ==> !mentions(r, big_key()),
        decreases self,
    {
        proof {
            if mode.removes_small() {
                lemma_stripped_names_no_removed_key(*self, mode, small_key());
            }
            if mode.removes_big() {
                lemma_stripped_names_no_removed_key(*self, mode, big_key());
            }
        }
        match self {
            Pred::Always => Pred::Always,
            Pred::Has(t) => {
                let small = (mode == Keysy::SmallKeysy || mode == Keysy::AllKeysy) && *t
                    == LogicToken::Item(GameItem::KeySmall);
                let big = (mode == Keysy::BigKeysy || mode == Keysy::AllKeysy) && *t
                    == LogicToken::Item(GameItem::KeyBoss);
                if small || big {
                    Pred::Always
                } else {
                    Pred::Has(*t)
                }
            },
            Pred::Can(l) => Pred::Can(*l),
            Pred::And(a, b) => Pred::And(Box::new(a.strip_keys(mode)), Box::new(b.strip_keys(mode))),
            Pred::Or(a, b) => Pred::Or(Box::new(a.strip_keys(mode)), Box::new(b.strip_keys(mode))),
        }
    }
}

} // verus!
