use vstd::prelude::*;

verus! {

/// Squared Euclidean distance between two integer points.
pub open spec fn dist_sq(a: (usize, usize), b: (usize, usize)) -> int {
    let dx = a.0 as int - b.0 as int;
    let dy = a.1 as int - b.1 as int;
    dx * dx + dy * dy
}

/// An entity of the screen that is located by two pixel coordinates.
pub trait Plottable: Sized {
    /// The coordinates held by the entity.
    spec fn coords(&self) -> (usize, usize);

    /// Builds the entity at the given coordinates.
    fn new(coordinates: (usize, usize)) -> (r: Self)
        ensures
            r.coords() == coordinates,
    ;

    /// The coordinates of the entity.
    fn coordinates(&self) -> (r: (usize, usize))
        ensures
            r == self.coords(),
    ;

    /// A mutable reference to the coordinates of the entity.
    fn coordinates_mut(&mut self) -> (r: &mut (usize, usize))
        ensures
            *r == old(self).coords(),
            final(self).coords() == *final(r),
    ;

    /// Moves the entity to the given coordinates.
    fn update(&mut self, coordinates: (usize, usize))
        ensures
            final(self).coords() == coordinates,
    ;
}

/// The absolute difference of two coordinates.
fn abs_diff(a: usize, b: usize) -> (r: u128)
    ensures
        r as int == if a >= b { a - b } else { b - a },
{
    if a >= b {
        (a - b) as u128
    } else {
        (b - a) as u128
    }
}

/// Decides `dist_sq(a, b) < distance * distance` without overflow.
fn distance_less_than(a: (usize, usize), b: (usize, usize), distance: u64) -> (r: bool)
    ensures
        r == (dist_sq(a, b) < distance as int * distance as int),
{
    let dx = abs_diff(a.0, b.0);
    let dy = abs_diff(a.1, b.1);
    let d = distance as u128;
    proof {
        assert(dx * dx <= 0xffff_ffff_ffff_ffffu128 * 0xffff_ffff_ffff_ffffu128) by (nonlinear_arith)
            requires
                dx <= 0xffff_ffff_ffff_ffffu128,
        ;
        assert(dy * dy <= 0xffff_ffff_ffff_ffffu128 * 0xffff_ffff_ffff_ffffu128) by (nonlinear_arith)
            requires
                dy <= 0xffff_ffff_ffff_ffffu128,
        ;
        assert(d * d <= 0xffff_ffff_ffff_ffffu128 * 0xffff_ffff_ffff_ffffu128) by (nonlinear_arith)
            requires
                d <= 0xffff_ffff_ffff_ffffu128,
        ;
    }
    let dx2 = dx * dx;
    let dy2 = dy * dy;
    let d2 = d * d;
    proof {
        let ex = a.0 as int - b.0 as int;
        let ey = a.1 as int - b.1 as int;
        assert(dx * dx == ex * ex) by (nonlinear_arith)
            requires
                dx == ex || dx == -ex,
        ;
        assert(dy * dy == ey * ey) by (nonlinear_arith)
            requires
                dy == ey || dy == -ey,
        ;
    }
    if dx2 >= d2 {
        false
    } else {
        dy2 < d2 - dx2
    }
}

/// The position of the pointer on the screen.
#[derive(Debug, Clone, Copy, PartialEq, Eq, PartialOrd, Ord, Hash)]
pub struct Cursor {
    coordinates: (usize, usize),
}

/// A generic point of the screen.
#[derive(Debug, Clone, Copy, PartialEq, Eq, PartialOrd, Ord, Hash)]
pub struct Point {
    coordinates: (usize, usize),
}

impl Plottable for Cursor {
    closed spec fn coords(&self) -> (usize, usize) {
        self.coordinates
    }

    fn new(coordinates: (usize, usize)) -> (r: Self) {
        Cursor { coordinates }
    }

    fn coordinates(&self) -> (r: (usize, usize)) {
        self.coordinates
    }

    fn coordinates_mut(&mut self) -> (r: &mut (usize, usize)) {
        &mut self.coordinates
    }

    fn update(&mut self, coordinates: (usize, usize)) {
        self.coordinates = coordinates;
    }

}

impl Cursor {
    /// Whether the distance between `self` and `other` is strictly less
    /// than `distance`.
    pub fn is_distance_less_than<P: Plottable>(&self, other: &P, distance: u64) -> (r: bool)
        ensures
            r == (dist_sq(self.coords(), other.coords()) < distance as int * distance as int),
    {
        distance_less_than(self.coordinates, other.coordinates(), distance)
    }
}

impl Plottable for Point {
    closed spec fn coords(&self) -> (usize, usize) {
        self.coordinates
    }

    fn new(coordinates: (usize, usize)) -> (r: Self) {
        Point { coordinates }
    }

    fn coordinates(&self) -> (r: (usize, usize)) {
        self.coordinates
    }

    fn coordinates_mut(&mut self) -> (r: &mut (usize, usize)) {
        &mut self.coordinates
    }

    fn update(&mut self, coordinates: (usize, usize)) {
        self.coordinates = coordinates;
    }

}

impl Point {
    /// Whether the distance between `self` and `other` is strictly less
    /// than `distance`.
    pub fn is_distance_less_than<P: Plottable>(&self, other: &P, distance: u64) -> (r: bool)
        ensures
            r == (dist_sq(self.coords(), other.coords()) < distance as int * distance as int),
    {
        distance_less_than(self.coordinates, other.coordinates(), distance)
    }
}

impl Default for Cursor {
    /// The cursor at the origin of the screen, `(0, 0)`.
    fn default() -> (r: Self)
        ensures
            r.coords() == (0usize, 0usize),
    {
        Cursor { coordinates: (0, 0) }
    }
}

impl Default for Point {
    /// The point at the origin of the screen, `(0, 0)`.
    fn default() -> (r: Self)
        ensures
            r.coords() == (0usize, 0usize),
    {
        Point { coordinates: (0, 0) }
    }
}

} // verus!
