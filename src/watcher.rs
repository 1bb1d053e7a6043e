use vstd::prelude::*;
use vstd::laws_eq::obeys_concrete_eq;
use vstd::std_specs::cmp::{PartialOrdIs, PartialOrdSpec};

verus! {

/// The value of a polled quantity on the previous tick and on this one.
#[derive(Debug)]
pub struct Pair<T> {
    pub old: T,
    pub current: T,
}

/// A change-detection cell: remembers the last two values seen of one quantity.
#[derive(Debug)]
pub struct Watcher<T> {
    pub pair: Option<Pair<T>>,
}

/// The pair that a watcher holds after it is offered `value`: an absent value
/// changes nothing; the first present value fills both slots; any later one
/// pushes the current value into `old`.
pub open spec fn after_update<T>(pair: Option<Pair<T>>, value: Option<T>) -> Option<Pair<T>> {
    match value {
        None => pair,
        Some(v) => match pair {
            None => Some(Pair { old: v, current: v }),
            Some(p) => Some(Pair { old: p.current, current: v }),
        },
    }
}

/// The pair that a watcher holds after it was offered each value of `values`
/// in turn, starting from `start`.
pub open spec fn replay<T>(start: Option<Pair<T>>, values: Seq<Option<T>>) -> Option<Pair<T>>
    decreases values.len(),
{
    if values.len() == 0 {
        start
    } else {
        after_update(replay(start, values.drop_last()), values.last())
    }
}

/// The values of `values` that are present, in order.
pub open spec fn present<T>(values: Seq<Option<T>>) -> Seq<T>
    decreases values.len(),
{
    if values.len() == 0 {
        Seq::empty()
    } else {
        let rest = present(values.drop_last());
        match values.last() {
            Some(v) => rest.push(v),
            None => rest,
        }
    }
}

/// After any sequence of updates of a fresh watcher, `current` is the last value
/// that was present and `old` the one before it; with a single present value,
/// both are that value, and with none the watcher is still empty.
pub proof fn lemma_replay_keeps_last_two<T>(values: Seq<Option<T>>)
    ensures
        ({
            let seen = present(values);
            let pair = replay(None, values);
            &&& seen.len() == 0 ==> pair is None
            &&& seen.len() == 1 ==> pair == Some(Pair { old: seen[0], current: seen[0] })
            &&& seen.len() >= 2 ==> pair == Some(
                Pair { old: seen[seen.len() - 2], current: seen[seen.len() - 1] },
            )
        }),
    decreases values.len(),
{
    if values.len() > 0 {
        lemma_replay_keeps_last_two(values.drop_last());
        let before = present(values.drop_last());
        match values.last() {
            Some(v) => {
                let seen = before.push(v);
                assert(seen[seen.len() - 1] == v);
                if before.len() >= 1 {
                    assert(seen[seen.len() - 2] == before[before.len() - 1]);
                }
            },
            None => {},
        }
    }
}

impl<T: Copy> Pair<T> {
    /// Whether the value differs from the previous tick's.
    pub fn changed(&self) -> (r: bool)
        where T: PartialEq
        requires
            obeys_concrete_eq::<T>(),
        ensures
            r == (self.old != self.current),
    {
        proof {
            reveal(obeys_concrete_eq);
        }
        self.old != self.current
    }

    /// Whether the value changed, and the previous tick's value was `from`.
    pub fn changed_from(&self, from: &T) -> (r: bool)
        where T: PartialEq
        requires
            obeys_concrete_eq::<T>(),
        ensures
            r == (self.old != self.current && self.old == *from),
    {
        proof {
            reveal(obeys_concrete_eq);
        }
        self.old != self.current && self.old == *from
    }

    /// Whether the value changed, and this tick's value is `to`.
    pub fn changed_to(&self, to: &T) -> (r: bool)
        where T: PartialEq
        requires
            obeys_concrete_eq::<T>(),
        ensures
            r == (self.old != self.current && self.current == *to),
    {
        proof {
            reveal(obeys_concrete_eq);
        }
        self.old != self.current && self.current == *to
    }

    /// Whether the value went from exactly `from` to exactly `to`.
    pub fn changed_from_to(&self, from: &T, to: &T) -> (r: bool)
        where T: PartialEq
        requires
            obeys_concrete_eq::<T>(),
        ensures
            r == (self.old == *from && self.current == *to),
    {
        proof {
            reveal(obeys_concrete_eq);
        }
        self.old == *from && self.current == *to
    }

    /// Whether the value is greater than the previous tick's.
    pub fn increased(&self) -> (r: bool)
        where T: PartialOrd
        requires
            T::obeys_partial_cmp_spec(),
        ensures
            r == self.current.is_gt(&self.old),
    {
        self.current > self.old
    }

    /// Whether the value is less than the previous tick's.
    pub fn decreased(&self) -> (r: bool)
        where T: PartialOrd
        requires
            T::obeys_partial_cmp_spec(),
        ensures
            r == self.current.is_lt(&self.old),
    {
        self.current < self.old
    }
}

impl<T: Copy> Watcher<T> {
    /// A watcher that has seen no value yet.
    pub fn new() -> (r: Self)
        ensures
            r.pair is None,
    {
        Watcher { pair: None }
    }

    /// Offers a value that may be missing. A missing value leaves the watcher
    /// as it was; the pair held afterwards is returned.
    pub fn update(&mut self, value: Option<T>) -> (r: Option<Pair<T>>)
        ensures
            final(self).pair == after_update(old(self).pair, value),
            r == final(self).pair,
    {
        if let Some(v) = value {
            let next = match &self.pair {
                None => Pair { old: v, current: v },
                Some(p) => Pair { old: p.current, current: v },
            };
            self.pair = Some(Pair { old: next.old, current: next.current });
            Some(next)
        } else {
            match &self.pair {
                None => None,
                Some(p) => Some(Pair { old: p.old, current: p.current }),
            }
        }
    }

    /// Offers a value that is always there; the pair held afterwards is returned.
    pub fn update_infallible(&mut self, value: T) -> (r: Pair<T>)
        ensures
            final(self).pair == after_update(old(self).pair, Some(value)),
            final(self).pair == Some(r),
            r.current == value,
    {
        let next = match &self.pair {
            None => Pair { old: value, current: value },
            Some(p) => Pair { old: p.current, current: value },
        };
        self.pair = Some(Pair { old: next.old, current: next.current });
        next
    }
}

} // verus!
