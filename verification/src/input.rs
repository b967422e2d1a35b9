//! Named input axes: for each axis, the keys that push it one way or the
//! other.

use vstd::prelude::*;

verus! {

/// A key of the keyboard, by its place on it.
#[derive(Clone, Copy, Debug, PartialEq, Eq, Structural)]
pub enum Key {
    ArrowDown,
    ArrowLeft,
    ArrowRight,
    ArrowUp,
    KeyA,
    KeyD,
    KeyS,
    KeyW,
}

/// An input axis: the keys that push it to its negative side and those
/// that push it to its positive side.
#[derive(Debug)]
pub struct InputAxis {
    pub neg: Vec<Key>,
    pub pos: Vec<Key>,
}

/// An input axis as its contracts see it.
pub struct InputAxisView {
    pub neg: Seq<Key>,
    pub pos: Seq<Key>,
}

impl View for InputAxis {
    type V = InputAxisView;

    open spec fn view(&self) -> InputAxisView {
        InputAxisView { neg: self.neg@, pos: self.pos@ }
    }
}

/// The map that a list of bindings makes, where a later binding of a name
/// replaces an earlier one.
pub open spec fn bound(entries: Seq<(String, InputAxis)>) -> Map<Seq<char>, InputAxisView>
    decreases entries.len(),
{
    if entries.len() == 0 {
        Map::empty()
    } else {
        bound(entries.drop_last()).insert(entries.last().0@, entries.last().1@)
    }
}

/// The axes that a new set holds: "Vertical", pushed down by the down
/// arrow and S and up by the up arrow and W, and "Horizontal", pushed to
/// its negative side by the right arrow and D and to its positive side by
/// the left arrow and A.
pub open spec fn default_axes() -> Map<Seq<char>, InputAxisView> {
    Map::empty().insert(
        "Vertical"@,
        InputAxisView { neg: seq![Key::ArrowDown, Key::KeyS], pos: seq![Key::ArrowUp, Key::KeyW] },
    ).insert(
        "Horizontal"@,
        InputAxisView { neg: seq![Key::ArrowRight, Key::KeyD], pos: seq![Key::ArrowLeft, Key::KeyA] },
    )
}

/// The input axes by name.
#[derive(Debug)]
pub struct InputAxes {
    entries: Vec<(String, InputAxis)>,
}

impl View for InputAxes {
    type V = Map<Seq<char>, InputAxisView>;

    closed spec fn view(&self) -> Map<Seq<char>, InputAxisView> {
        bound(self.entries@)
    }
}

/// A name that none of the bindings from position `from` on binds is bound
/// as the earlier bindings bind it.
proof fn lemma_unbound_tail(entries: Seq<(String, InputAxis)>, from: int, name: Seq<char>)
    requires
        0 <= from <= entries.len(),
        forall|i: int| from <= i < entries.len() ==> (#[trigger] entries[i]).0@ != name,
    ensures
        bound(entries).dom().contains(name) == bound(entries.take(from)).dom().contains(name),
        bound(entries).dom().contains(name) ==> bound(entries)[name] == bound(entries.take(from))[name],
    decreases entries.len(),
{
    if from == entries.len() {
        assert(entries.take(from) =~= entries);
    } else {
        let earlier = entries.drop_last();
        assert(earlier.take(from) =~= entries.take(from));
        lemma_unbound_tail(earlier, from, name);
    }
}

/// The names that a list of bindings binds are the names in the list.
proof fn lemma_bound_names(entries: Seq<(String, InputAxis)>, name: Seq<char>)
    ensures
        bound(entries).dom().contains(name) <==> exists|i: int|
            0 <= i < entries.len() && (#[trigger] entries[i]).0@ == name,
    decreases entries.len(),
{
    if entries.len() > 0 {
        let earlier = entries.drop_last();
        lemma_bound_names(earlier, name);
        if exists|i: int| 0 <= i < entries.len() && (#[trigger] entries[i]).0@ == name {
            let i = choose|i: int| 0 <= i < entries.len() && (#[trigger] entries[i]).0@ == name;
            if i < earlier.len() {
                assert(earlier[i] == entries[i]);
            }
        }
    }
}

impl InputAxes {
    /// The names of the axes: every bound name, and no other.
    pub fn names(&self) -> (names: Vec<String>)
        ensures
            forall|i: int| 0 <= i < names@.len() ==> self@.dom().contains(#[trigger] names@[i]@),
            forall|name: Seq<char>|
                self@.dom().contains(name) ==> exists|i: int|
                    0 <= i < names@.len() && (#[trigger] names@[i])@ == name,
    {
        let mut names: Vec<String> = Vec::new();
        let mut k: usize = 0;
        while k < self.entries.len()
            invariant
                k <= self.entries@.len(),
                names@.len() == k,
                forall|i: int| 0 <= i < k ==> (#[trigger] names@[i])@ == self.entries@[i].0@,
            decreases self.entries@.len() - k,
        {
            names.push(self.entries[k].0.clone());
            k += 1;
        }
        proof {
            assert forall|i: int| 0 <= i < names@.len() implies self@.dom().contains(
                #[trigger] names@[i]@,
            ) by {
                lemma_bound_names(self.entries@, names@[i]@);
            }
            assert forall|name: Seq<char>| self@.dom().contains(name) implies exists|i: int|
                0 <= i < names@.len() && (#[trigger] names@[i])@ == name by {
                lemma_bound_names(self.entries@, name);
                let i = choose|i: int|
                    0 <= i < self.entries@.len() && (#[trigger] self.entries@[i]).0@ == name;
                assert(names@[i]@ == name);
            }
        }
        names
    }

    /// The axis bound to `name`, if there is one.
    pub fn find(&self, name: &str) -> (found: Option<&InputAxis>)
        ensures
            match found {
                Some(axis) => self@.dom().contains(name@) && axis@ == self@[name@],
                None => !self@.dom().contains(name@),
            },
    {
        let wanted = name.to_owned();
        let mut k = self.entries.len();
        while k > 0
            invariant
                k <= self.entries@.len(),
                wanted@ == name@,
                forall|i: int| k <= i < self.entries@.len() ==> (#[trigger] self.entries@[i]).0@ != name@,
            decreases k,
        {
            k -= 1;
            if self.entries[k].0 == wanted {
                proof {
                    lemma_unbound_tail(self.entries@, k as int + 1, name@);
                }
                return Some(&self.entries[k].1);
            }
        }
        proof {
            lemma_unbound_tail(self.entries@, 0, name@);
        }
        None
    }

    /// The axis bound to `name`.
    pub fn get(&self, name: &str) -> (axis: &InputAxis)
        requires
            self@.dom().contains(name@),
        ensures
            axis@ == self@[name@],
    {
        self.find(name).unwrap()
    }
}

impl Default for InputAxes {
    /// The set of the two default axes.
    fn default() -> (axes: Self)
        ensures
            axes@ == default_axes(),
    {
        let mut entries: Vec<(String, InputAxis)> = Vec::new();
        let mut neg: Vec<Key> = Vec::new();
        neg.push(Key::ArrowDown);
        neg.push(Key::KeyS);
        let mut pos: Vec<Key> = Vec::new();
        pos.push(Key::ArrowUp);
        pos.push(Key::KeyW);
        entries.push(("Vertical".to_owned(), InputAxis { neg, pos }));
        let mut neg: Vec<Key> = Vec::new();
        neg.push(Key::ArrowRight);
        neg.push(Key::KeyD);
        let mut pos: Vec<Key> = Vec::new();
        pos.push(Key::ArrowLeft);
        pos.push(Key::KeyA);
        entries.push(("Horizontal".to_owned(), InputAxis { neg, pos }));
        let axes = InputAxes { entries };
        proof {
            let all = axes.entries@;
            assert(all[0].1@.neg =~= seq![Key::ArrowDown, Key::KeyS]);
            assert(all[0].1@.pos =~= seq![Key::ArrowUp, Key::KeyW]);
            assert(all[1].1@.neg =~= seq![Key::ArrowRight, Key::KeyD]);
            assert(all[1].1@.pos =~= seq![Key::ArrowLeft, Key::KeyA]);
            reveal_with_fuel(bound, 3);
        }
        axes
    }
}

} // verus!
