//! Anchor locations of floating, anchored UI elements.
use vstd::prelude::*;

verus! {

/// Specifies where anchor is located
///
/// | Anchor |  x     | y      |
/// | ------ | ------ | ------ |
/// | Start  | left   | top    |
/// | Middle | middle | middle |
/// | End    | right  | bottom |
#[derive(Clone, Copy, Debug, PartialEq, Eq, Structural, Hash)]
pub enum Anchor {
    /// left or top
    Start,
    /// middle
    Middle,
    /// right or bottom
    End,
}

/// Relative position of an anchor: -1 at the start, 0 in the middle, 1 at the end.
pub open spec fn anchor_sign(a: Anchor) -> int {
    match a {
        Anchor::Start => -1,
        Anchor::Middle => 0,
        Anchor::End => 1,
    }
}

impl Anchor {
    /// Returns anchor relative position. See [`Anchor`]
    pub fn sign(&self) -> (r: i32)
        ensures
            r == anchor_sign(*self),
    {
        match self {
            Anchor::Start => -1,
            Anchor::Middle => 0,
            Anchor::End => 1,
        }
    }
}

/// Wrapper element to store information for two dimensions
#[derive(Clone, Copy, Debug, PartialEq, Eq, Hash)]
pub struct Direction<T> {
    /// horizontal, x - axis
    pub x: T,
    /// vertical, y - axis
    pub y: T,
}

impl<T> Direction<T> {
    /// Map stored value from one type to another
    pub fn map<O, F: Fn(&T) -> O>(&self, f: F) -> (r: Direction<O>)
        requires
            f.requires((&self.x,)),
            f.requires((&self.y,)),
        ensures
            f.ensures((&self.x,), r.x),
            f.ensures((&self.y,), r.y),
    {
        Direction { x: f(&self.x), y: f(&self.y) }
    }
}

/// The direction whose components are `f` applied to those of `d`.
pub open spec fn spec_map<T, O>(d: Direction<T>, f: spec_fn(T) -> O) -> Direction<O> {
    Direction { x: f(d.x), y: f(d.y) }
}

/// Mapping with a function whose every result is given by `sf` gives `sf` applied to each
/// component: what [`Direction::map`] returns is fixed by the function it is handed.
pub proof fn law_map_applies_function<T, O, F: Fn(&T) -> O>(
    d: Direction<T>,
    f: F,
    sf: spec_fn(T) -> O,
    r: Direction<O>,
)
    requires
        forall|x: &T, o: O| #[trigger] f.ensures((x,), o) ==> o == sf(*x),
        f.ensures((&d.x,), r.x),
        f.ensures((&d.y,), r.y),
    ensures
        r == spec_map(d, sf),
{
}

/// Mapping with the identity gives the direction back.
pub proof fn law_map_identity<T>(d: Direction<T>)
    ensures
        spec_map(d, |v: T| v) == d,
{
}

/// Mapping with `f` and then with `g` is mapping once with `g` after `f`.
pub proof fn law_map_composition<T, U, O>(d: Direction<T>, f: spec_fn(T) -> U, g: spec_fn(U) -> O)
    ensures
        spec_map(spec_map(d, f), g) == spec_map(d, |v: T| g(f(v))),
{
}

/// Mapping with a function that returns its argument gives the direction back.
pub proof fn law_map_with_identity<T, F: Fn(&T) -> T>(d: Direction<T>, f: F, r: Direction<T>)
    requires
        forall|x: &T, o: T| #[trigger] f.ensures((x,), o) ==> o == *x,
        f.ensures((&d.x,), r.x),
        f.ensures((&d.y,), r.y),
    ensures
        r == d,
{
    law_map_applies_function(d, f, |v: T| v, r);
    law_map_identity(d);
}

/// Mapping with `f` and then mapping the result with `g` gives what one mapping with `g` after
/// `f` gives, when the results of `f` and `g` are given by `sf` and `sg`.
pub proof fn law_map_then_map<T, U, O, F: Fn(&T) -> U, G: Fn(&U) -> O>(
    d: Direction<T>,
    f: F,
    sf: spec_fn(T) -> U,
    g: G,
    sg: spec_fn(U) -> O,
    first: Direction<U>,
    second: Direction<O>,
)
    requires
        forall|x: &T, o: U| #[trigger] f.ensures((x,), o) ==> o == sf(*x),
        forall|x: &U, o: O| #[trigger] g.ensures((x,), o) ==> o == sg(*x),
        f.ensures((&d.x,), first.x),
        f.ensures((&d.y,), first.y),
        g.ensures((&first.x,), second.x),
        g.ensures((&first.y,), second.y),
    ensures
        second == spec_map(d, |v: T| sg(sf(v))),
{
    law_map_applies_function(d, f, sf, first);
    law_map_applies_function(first, g, sg, second);
    law_map_composition(d, sf, sg);
}

impl Direction<Anchor> {
    /// Relative positions of the anchors on both axes; scaled by half a size they give the
    /// offset of the anchor from the middle.
    pub fn signs(&self) -> (r: Direction<i32>)
        ensures
            r.x == anchor_sign(self.x),
            r.y == anchor_sign(self.y),
    {
        self.map(|a: &Anchor| -> (s: i32) ensures s == anchor_sign(*a) { a.sign() })
    }
}

} // verus!
