//! Integer vectors and axis-aligned rectangles.
//!
//! Every operation is checked: an operation whose Rust counterpart would
//! overflow or divide by zero carries that case in its `requires`, and every
//! result is stated component by component over mathematical integers.
use vstd::prelude::*;
use std::ops::{Add, AddAssign, Div, Mul, Neg, Sub, SubAssign};

verus! {

/// Quotient of `a / b` rounded toward zero, as Rust's signed `/` computes it.
pub open spec fn trunc_div(a: int, b: int) -> int {
    if a >= 0 {
        a / b
    } else {
        -((-a) / b)
    }
}

/// Absolute value.
pub open spec fn abs(v: int) -> int {
    if v >= 0 {
        v
    } else {
        -v
    }
}

/// Rounding toward zero: `q = trunc_div(a, b)` leaves a remainder `a - q * b`
/// that is smaller than `|b|` in size and has the sign of `a`; `q` is no
/// larger than `a` in size, and at most half of it when `|b| >= 2`.
pub proof fn lemma_trunc_div(a: int, b: int)
    requires
        b != 0,
    ensures
        a >= 0 ==> 0 <= a - trunc_div(a, b) * b < abs(b),
        a < 0 ==> -abs(b) < a - trunc_div(a, b) * b <= 0,
        abs(trunc_div(a, b)) <= abs(a),
        abs(b) >= 2 ==> 2 * abs(trunc_div(a, b)) <= abs(a),
        b == 1 ==> trunc_div(a, b) == a,
        b == -1 ==> trunc_div(a, b) == -a,
{
    let na = abs(a);
    let q = na / b;
    let r = na % b;
    vstd::arithmetic::div_mod::lemma_fundamental_div_mod(na, b);
    assert(na == b * q + r);
    assert(0 <= r < abs(b));
    assert(abs(q) <= na && (abs(b) >= 2 ==> 2 * abs(q) <= na) && na - q * b == r
        && (b == 1 ==> q == na) && (b == -1 ==> q == -na)) by (nonlinear_arith)
        requires
            na >= 0,
            b != 0,
            na == b * q + r,
            0 <= r < abs(b),
            abs(q) == if q >= 0 { q } else { -q },
            abs(b) == if b >= 0 { b } else { -b },
    ;
    if a >= 0 {
        assert(trunc_div(a, b) == q);
    } else {
        assert(trunc_div(a, b) == -q);
        assert(a - (-q) * b == -(na - q * b)) by (nonlinear_arith)
            requires
                a == -na,
        ;
    }
}

/// Whether `v` fits in an `i32`.
pub open spec fn in_i32(v: int) -> bool {
    i32::MIN <= v <= i32::MAX
}

/// Whether `v` fits in a `u32`.
pub open spec fn in_u32(v: int) -> bool {
    0 <= v <= u32::MAX
}

#[derive(Clone, Copy, Debug, PartialEq, Eq, Structural, Default)]
pub struct Vec2u32 {
    pub x: u32,
    pub y: u32,
}

#[derive(Clone, Copy, Debug, PartialEq, Eq, Structural, Default)]
pub struct Vec2i32 {
    pub x: i32,
    pub y: i32,
}

#[derive(Clone, Copy, Debug, PartialEq, Eq, Structural, Default)]
pub struct Vec3u32 {
    pub x: u32,
    pub y: u32,
    pub z: u32,
}

#[derive(Clone, Copy, Debug, PartialEq, Eq, Structural, Default)]
pub struct Vec3i32 {
    pub x: i32,
    pub y: i32,
    pub z: i32,
}

#[derive(Clone, Copy, Debug, PartialEq, Eq, Structural, Default)]
pub struct Vec4u32 {
    pub x: u32,
    pub y: u32,
    pub z: u32,
    pub w: u32,
}

#[derive(Clone, Copy, Debug, PartialEq, Eq, Structural)]
pub struct RectU32 {
    pub pos: Vec2u32,
    pub size: Vec2u32,
}

#[derive(Clone, Copy, Debug, PartialEq, Eq, Structural)]
pub struct RectI32 {
    pub pos: Vec2i32,
    pub size: Vec2i32,
}

// ---------------------------------------------------------------------------
// Vec2u32
// ---------------------------------------------------------------------------

impl Vec2u32 {
    /// Component-wise sum; defined when no component overflows.
    pub open spec fn plus(self, rhs: Vec2u32) -> Vec2u32 {
        Vec2u32 { x: (self.x + rhs.x) as u32, y: (self.y + rhs.y) as u32 }
    }

    /// Component-wise difference; defined when no component goes below zero.
    pub open spec fn minus(self, rhs: Vec2u32) -> Vec2u32 {
        Vec2u32 { x: (self.x - rhs.x) as u32, y: (self.y - rhs.y) as u32 }
    }

    /// Component-wise product; defined when no component overflows.
    pub open spec fn times(self, rhs: Vec2u32) -> Vec2u32 {
        Vec2u32 { x: (self.x * rhs.x) as u32, y: (self.y * rhs.y) as u32 }
    }

    /// Component-wise quotient (rounded down).
    pub open spec fn quot(self, rhs: Vec2u32) -> Vec2u32 {
        Vec2u32 { x: (self.x / rhs.x) as u32, y: (self.y / rhs.y) as u32 }
    }

    /// Both components divided (rounded down) by one scalar.
    pub open spec fn quot_scalar(self, s: u32) -> Vec2u32 {
        Vec2u32 { x: (self.x / s) as u32, y: (self.y / s) as u32 }
    }

    pub open spec fn can_add(self, rhs: Vec2u32) -> bool {
        in_u32(self.x + rhs.x) && in_u32(self.y + rhs.y)
    }

    pub open spec fn can_sub(self, rhs: Vec2u32) -> bool {
        rhs.x <= self.x && rhs.y <= self.y
    }

    pub open spec fn can_mul(self, rhs: Vec2u32) -> bool {
        in_u32(self.x * rhs.x) && in_u32(self.y * rhs.y)
    }

    /// The same bits read as signed components (Rust's `as i32`).
    pub open spec fn to_i32(self) -> Vec2i32 {
        Vec2i32 { x: self.x as i32, y: self.y as i32 }
    }

    pub fn new(x: u32, y: u32) -> (r: Self)
        ensures
            r.x == x,
            r.y == y,
    {
        Self { x, y }
    }

    pub fn all(v: u32) -> (r: Self)
        ensures
            r.x == v,
            r.y == v,
    {
        Self { x: v, y: v }
    }

    /// `x * x + y * y`; the original panics when this overflows a `u32`.
    pub fn length_squared(self) -> (r: u32)
        requires
            self.x * self.x + self.y * self.y <= u32::MAX,
        ensures
            r == self.x * self.x + self.y * self.y,
    {
        assert(0 <= self.x * self.x && 0 <= self.y * self.y) by (nonlinear_arith);
        self.x * self.x + self.y * self.y
    }
}

impl Add for Vec2u32 {
    type Output = Self;

    fn add(self, rhs: Self) -> (r: Self)
        ensures
            r == self.plus(rhs),
            r.x == self.x + rhs.x,
            r.y == self.y + rhs.y,
    {
        Self { x: self.x + rhs.x, y: self.y + rhs.y }
    }
}

impl vstd::std_specs::ops::AddSpecImpl for Vec2u32 {
    open spec fn obeys_add_spec() -> bool {
        true
    }

    open spec fn add_req(self, rhs: Self) -> bool {
        self.can_add(rhs)
    }

    open spec fn add_spec(self, rhs: Self) -> Self {
        self.plus(rhs)
    }
}

impl Sub for Vec2u32 {
    type Output = Self;

    fn sub(self, rhs: Self) -> (r: Self)
        ensures
            r == self.minus(rhs),
            r.x == self.x - rhs.x,
            r.y == self.y - rhs.y,
    {
        Self { x: self.x - rhs.x, y: self.y - rhs.y }
    }
}

impl vstd::std_specs::ops::SubSpecImpl for Vec2u32 {
    open spec fn obeys_sub_spec() -> bool {
        true
    }

    open spec fn sub_req(self, rhs: Self) -> bool {
        self.can_sub(rhs)
    }

    open spec fn sub_spec(self, rhs: Self) -> Self {
        self.minus(rhs)
    }
}

impl Mul for Vec2u32 {
    type Output = Self;

    fn mul(self, rhs: Self) -> (r: Self)
        ensures
            r == self.times(rhs),
            r.x == self.x * rhs.x,
            r.y == self.y * rhs.y,
    {
        Self { x: self.x * rhs.x, y: self.y * rhs.y }
    }
}

impl vstd::std_specs::ops::MulSpecImpl for Vec2u32 {
    open spec fn obeys_mul_spec() -> bool {
        true
    }

    open spec fn mul_req(self, rhs: Self) -> bool {
        self.can_mul(rhs)
    }

    open spec fn mul_spec(self, rhs: Self) -> Self {
        self.times(rhs)
    }
}

impl Div for Vec2u32 {
    type Output = Self;

    fn div(self, rhs: Self) -> (r: Self)
        ensures
            r == self.quot(rhs),
            r.x == self.x / rhs.x,
            r.y == self.y / rhs.y,
    {
        Self { x: self.x / rhs.x, y: self.y / rhs.y }
    }
}

impl vstd::std_specs::ops::DivSpecImpl for Vec2u32 {
    open spec fn obeys_div_spec() -> bool {
        true
    }

    open spec fn div_req(self, rhs: Self) -> bool {
        rhs.x != 0 && rhs.y != 0
    }

    open spec fn div_spec(self, rhs: Self) -> Self {
        self.quot(rhs)
    }
}

impl Div<u32> for Vec2u32 {
    type Output = Self;

    fn div(self, scalar: u32) -> (r: Self)
        ensures
            r == self.quot_scalar(scalar),
            r.x == self.x / scalar,
            r.y == self.y / scalar,
    {
        Vec2u32 { x: self.x / scalar, y: self.y / scalar }
    }
}

impl vstd::std_specs::ops::DivSpecImpl<u32> for Vec2u32 {
    open spec fn obeys_div_spec() -> bool {
        true
    }

    open spec fn div_req(self, scalar: u32) -> bool {
        scalar != 0
    }

    open spec fn div_spec(self, scalar: u32) -> Self {
        self.quot_scalar(scalar)
    }
}

impl AddAssign for Vec2u32 {
    fn add_assign(&mut self, rhs: Self)
        requires
            old(self).can_add(rhs),
        ensures
            *final(self) == old(self).plus(rhs),
            final(self).x == old(self).x + rhs.x,
            final(self).y == old(self).y + rhs.y,
    {
        self.x = self.x + rhs.x;
        self.y = self.y + rhs.y;
    }
}

impl SubAssign for Vec2u32 {
    fn sub_assign(&mut self, rhs: Self)
        requires
            old(self).can_sub(rhs),
        ensures
            *final(self) == old(self).minus(rhs),
            final(self).x == old(self).x - rhs.x,
            final(self).y == old(self).y - rhs.y,
    {
        self.x = self.x - rhs.x;
        self.y = self.y - rhs.y;
    }
}

impl From<Vec2i32> for Vec2u32 {
    fn from(value: Vec2i32) -> (r: Self)
        ensures
            r == value.to_u32(),
            r.x == value.x as u32,
            r.y == value.y as u32,
    {
        Self { x: value.x as u32, y: value.y as u32 }
    }
}

impl vstd::std_specs::convert::FromSpecImpl<Vec2i32> for Vec2u32 {
    open spec fn obeys_from_spec() -> bool {
        true
    }

    open spec fn from_spec(v: Vec2i32) -> Self {
        v.to_u32()
    }
}

// ---------------------------------------------------------------------------
// Vec2i32
// ---------------------------------------------------------------------------

impl Vec2i32 {
    pub open spec fn plus(self, rhs: Vec2i32) -> Vec2i32 {
        Vec2i32 { x: (self.x + rhs.x) as i32, y: (self.y + rhs.y) as i32 }
    }

    pub open spec fn minus(self, rhs: Vec2i32) -> Vec2i32 {
        Vec2i32 { x: (self.x - rhs.x) as i32, y: (self.y - rhs.y) as i32 }
    }

    pub open spec fn negated(self) -> Vec2i32 {
        Vec2i32 { x: (-self.x) as i32, y: (-self.y) as i32 }
    }

    /// Both components divided by one scalar, rounded toward zero.
    pub open spec fn quot_scalar(self, s: i32) -> Vec2i32 {
        Vec2i32 { x: trunc_div(self.x as int, s as int) as i32, y: trunc_div(self.y as int, s as int) as i32 }
    }

    pub open spec fn can_add(self, rhs: Vec2i32) -> bool {
        in_i32(self.x + rhs.x) && in_i32(self.y + rhs.y)
    }

    pub open spec fn can_sub(self, rhs: Vec2i32) -> bool {
        in_i32(self.x - rhs.x) && in_i32(self.y - rhs.y)
    }

    pub open spec fn can_neg(self) -> bool {
        self.x != i32::MIN && self.y != i32::MIN
    }

    pub open spec fn can_div_scalar(self, s: i32) -> bool {
        s != 0 && !(s == -1 && (self.x == i32::MIN || self.y == i32::MIN))
    }

    /// The same bits read as unsigned components (Rust's `as u32`).
    pub open spec fn to_u32(self) -> Vec2u32 {
        Vec2u32 { x: self.x as u32, y: self.y as u32 }
    }

    pub fn new(x: i32, y: i32) -> (r: Self)
        ensures
            r.x == x,
            r.y == y,
    {
        Self { x, y }
    }

    pub fn all(v: i32) -> (r: Self)
        ensures
            r.x == v,
            r.y == v,
    {
        Self { x: v, y: v }
    }

    /// `x * x + y * y`; the original panics when this overflows an `i32`.
    pub fn length_squared(self) -> (r: i32)
        requires
            self.x * self.x + self.y * self.y <= i32::MAX,
        ensures
            r == self.x * self.x + self.y * self.y,
    {
        assert(0 <= self.x * self.x && 0 <= self.y * self.y) by (nonlinear_arith);
        self.x * self.x + self.y * self.y
    }
}

impl Neg for Vec2i32 {
    type Output = Self;

    fn neg(self) -> (r: Self)
        ensures
            r == self.negated(),
            r.x == -self.x,
            r.y == -self.y,
    {
        Self { x: -self.x, y: -self.y }
    }
}

impl vstd::std_specs::ops::NegSpecImpl for Vec2i32 {
    open spec fn obeys_neg_spec() -> bool {
        true
    }

    open spec fn neg_req(self) -> bool {
        self.can_neg()
    }

    open spec fn neg_spec(self) -> Self {
        self.negated()
    }
}

impl Add for Vec2i32 {
    type Output = Self;

    fn add(self, rhs: Self) -> (r: Self)
        ensures
            r == self.plus(rhs),
            r.x == self.x + rhs.x,
            r.y == self.y + rhs.y,
    {
        Self { x: self.x + rhs.x, y: self.y + rhs.y }
    }
}

impl vstd::std_specs::ops::AddSpecImpl for Vec2i32 {
    open spec fn obeys_add_spec() -> bool {
        true
    }

    open spec fn add_req(self, rhs: Self) -> bool {
        self.can_add(rhs)
    }

    open spec fn add_spec(self, rhs: Self) -> Self {
        self.plus(rhs)
    }
}

impl Sub for Vec2i32 {
    type Output = Self;

    fn sub(self, rhs: Self) -> (r: Self)
        ensures
            r == self.minus(rhs),
            r.x == self.x - rhs.x,
            r.y == self.y - rhs.y,
    {
        Self { x: self.x - rhs.x, y: self.y - rhs.y }
    }
}

impl vstd::std_specs::ops::SubSpecImpl for Vec2i32 {
    open spec fn obeys_sub_spec() -> bool {
        true
    }

    open spec fn sub_req(self, rhs: Self) -> bool {
        self.can_sub(rhs)
    }

    open spec fn sub_spec(self, rhs: Self) -> Self {
        self.minus(rhs)
    }
}

impl Div<i32> for Vec2i32 {
    type Output = Self;

    fn div(self, scalar: i32) -> (r: Self)
        ensures
            r == self.quot_scalar(scalar),
            r.x == trunc_div(self.x as int, scalar as int),
            r.y == trunc_div(self.y as int, scalar as int),
    {
        proof {
            lemma_trunc_div(self.x as int, scalar as int);
            lemma_trunc_div(self.y as int, scalar as int);
        }
        Vec2i32 { x: self.x / scalar, y: self.y / scalar }
    }
}

impl vstd::std_specs::ops::DivSpecImpl<i32> for Vec2i32 {
    open spec fn obeys_div_spec() -> bool {
        true
    }

    open spec fn div_req(self, scalar: i32) -> bool {
        self.can_div_scalar(scalar)
    }

    open spec fn div_spec(self, scalar: i32) -> Self {
        self.quot_scalar(scalar)
    }
}

impl AddAssign for Vec2i32 {
    fn add_assign(&mut self, rhs: Self)
        requires
            old(self).can_add(rhs),
        ensures
            *final(self) == old(self).plus(rhs),
            final(self).x == old(self).x + rhs.x,
            final(self).y == old(self).y + rhs.y,
    {
        self.x = self.x + rhs.x;
        self.y = self.y + rhs.y;
    }
}

impl SubAssign for Vec2i32 {
    fn sub_assign(&mut self, rhs: Self)
        requires
            old(self).can_sub(rhs),
        ensures
            *final(self) == old(self).minus(rhs),
            final(self).x == old(self).x - rhs.x,
            final(self).y == old(self).y - rhs.y,
    {
        self.x = self.x - rhs.x;
        self.y = self.y - rhs.y;
    }
}

impl From<Vec2u32> for Vec2i32 {
    fn from(value: Vec2u32) -> (r: Self)
        ensures
            r == value.to_i32(),
            r.x == value.x as i32,
            r.y == value.y as i32,
    {
        Self { x: value.x as i32, y: value.y as i32 }
    }
}

impl vstd::std_specs::convert::FromSpecImpl<Vec2u32> for Vec2i32 {
    open spec fn obeys_from_spec() -> bool {
        true
    }

    open spec fn from_spec(v: Vec2u32) -> Self {
        v.to_i32()
    }
}

// ---------------------------------------------------------------------------
// Vec4u32
// ---------------------------------------------------------------------------

impl Vec4u32 {
    pub fn new(x: u32, y: u32, z: u32, w: u32) -> (r: Self)
        ensures
            r.x == x,
            r.y == y,
            r.z == z,
            r.w == w,
    {
        Self { x, y, z, w }
    }

    pub fn all(v: u32) -> (r: Self)
        ensures
            r.x == v,
            r.y == v,
            r.z == v,
            r.w == v,
    {
        Self { x: v, y: v, z: v, w: v }
    }
}

// ---------------------------------------------------------------------------
// Rectangles
// ---------------------------------------------------------------------------

/// Whether the half-open boxes `[pos, pos + size)` of two rectangles given by
/// their integer coordinates overlap on both axes.
pub open spec fn boxes_overlap(
    ax: int, ay: int, aw: int, ah: int,
    bx: int, by: int, bw: int, bh: int,
) -> bool {
    &&& ax < bx + bw
    &&& ax + aw > bx
    &&& ay < by + bh
    &&& ay + ah > by
}

/// Rust evaluates the four comparisons of an overlap test left to right and
/// stops at the first false one; this holds when every sum it does evaluate
/// fits in the type (`fits` tells whether a value fits).
pub open spec fn overlap_sums_fit(
    ax: int, ay: int, aw: int, ah: int,
    bx: int, by: int, bw: int, bh: int,
    fits: spec_fn(int) -> bool,
) -> bool {
    &&& fits(bx + bw)
    &&& ax < bx + bw ==> {
        &&& fits(ax + aw)
        &&& ax + aw > bx ==> {
            &&& fits(by + bh)
            &&& ay < by + bh ==> fits(ay + ah)
        }
    }
}

impl RectU32 {
    pub open spec fn overlaps(self, other: RectU32) -> bool {
        boxes_overlap(
            self.pos.x as int, self.pos.y as int, self.size.x as int, self.size.y as int,
            other.pos.x as int, other.pos.y as int, other.size.x as int, other.size.y as int,
        )
    }

    pub open spec fn can_test_overlap(self, other: RectU32) -> bool {
        overlap_sums_fit(
            self.pos.x as int, self.pos.y as int, self.size.x as int, self.size.y as int,
            other.pos.x as int, other.pos.y as int, other.size.x as int, other.size.y as int,
            |v: int| in_u32(v),
        )
    }

    /// `pos + size / 2`, component-wise, with the halves rounded down.
    pub open spec fn center_point(self) -> Vec2u32 {
        Vec2u32 {
            x: (self.pos.x + self.size.x / 2) as u32,
            y: (self.pos.y + self.size.y / 2) as u32,
        }
    }

    pub open spec fn can_center(self) -> bool {
        in_u32(self.pos.x + self.size.x / 2) && in_u32(self.pos.y + self.size.y / 2)
    }

    pub fn new(pos: Vec2u32, size: Vec2u32) -> (r: Self)
        ensures
            r.pos == pos,
            r.size == size,
    {
        Self { pos, size }
    }

    /// Whether the two rectangles overlap; touching edges do not count.
    pub fn intersects(&self, other: &Self) -> (r: bool)
        requires
            self.can_test_overlap(*other),
        ensures
            r == self.overlaps(*other),
            r == (self.pos.x < other.pos.x + other.size.x && self.pos.x + self.size.x > other.pos.x
                && self.pos.y < other.pos.y + other.size.y && self.pos.y + self.size.y > other.pos.y),
    {
        self.pos.x < other.pos.x + other.size.x
            && self.pos.x + self.size.x > other.pos.x
            && self.pos.y < other.pos.y + other.size.y
            && self.pos.y + self.size.y > other.pos.y
    }

    pub fn center(&self) -> (r: Vec2u32)
        requires
            self.can_center(),
        ensures
            r == self.center_point(),
            r.x == self.pos.x + self.size.x / 2,
            r.y == self.pos.y + self.size.y / 2,
    {
        self.pos + self.size / 2
    }
}

impl RectI32 {
    pub open spec fn overlaps(self, other: RectI32) -> bool {
        boxes_overlap(
            self.pos.x as int, self.pos.y as int, self.size.x as int, self.size.y as int,
            other.pos.x as int, other.pos.y as int, other.size.x as int, other.size.y as int,
        )
    }

    pub open spec fn can_test_overlap(self, other: RectI32) -> bool {
        overlap_sums_fit(
            self.pos.x as int, self.pos.y as int, self.size.x as int, self.size.y as int,
            other.pos.x as int, other.pos.y as int, other.size.x as int, other.size.y as int,
            |v: int| in_i32(v),
        )
    }

    /// `pos + size / 2`, component-wise, with the halves rounded toward zero.
    pub open spec fn center_point(self) -> Vec2i32 {
        Vec2i32 {
            x: (self.pos.x + trunc_div(self.size.x as int, 2)) as i32,
            y: (self.pos.y + trunc_div(self.size.y as int, 2)) as i32,
        }
    }

    pub open spec fn can_center(self) -> bool {
        in_i32(self.pos.x + trunc_div(self.size.x as int, 2))
            && in_i32(self.pos.y + trunc_div(self.size.y as int, 2))
    }

    pub fn new(pos: Vec2i32, size: Vec2i32) -> (r: Self)
        ensures
            r.pos == pos,
            r.size == size,
    {
        Self { pos, size }
    }

    /// Whether the two rectangles overlap; touching edges do not count.
    pub fn intersects(&self, other: &Self) -> (r: bool)
        requires
            self.can_test_overlap(*other),
        ensures
            r == self.overlaps(*other),
            r == (self.pos.x < other.pos.x + other.size.x && self.pos.x + self.size.x > other.pos.x
                && self.pos.y < other.pos.y + other.size.y && self.pos.y + self.size.y > other.pos.y),
    {
        self.pos.x < other.pos.x + other.size.x
            && self.pos.x + self.size.x > other.pos.x
            && self.pos.y < other.pos.y + other.size.y
            && self.pos.y + self.size.y > other.pos.y
    }

    pub fn center(&self) -> (r: Vec2i32)
        requires
            self.can_center(),
        ensures
            r == self.center_point(),
            r.x == self.pos.x + trunc_div(self.size.x as int, 2),
            r.y == self.pos.y + trunc_div(self.size.y as int, 2),
    {
        self.pos + self.size / 2
    }
}

impl RectU32 {
    /// The same bits read as signed coordinates (Rust's `as i32` on each field).
    pub open spec fn to_i32(self) -> RectI32 {
        RectI32 { pos: self.pos.to_i32(), size: self.size.to_i32() }
    }
}

impl From<RectU32> for RectI32 {
    fn from(value: RectU32) -> (r: Self)
        ensures
            r == value.to_i32(),
            r.pos == value.pos.to_i32(),
            r.size == value.size.to_i32(),
            r.pos.x == value.pos.x as i32 && r.pos.y == value.pos.y as i32,
            r.size.x == value.size.x as i32 && r.size.y == value.size.y as i32,
    {
        Self { pos: value.pos.into(), size: value.size.into() }
    }
}

impl vstd::std_specs::convert::FromSpecImpl<RectU32> for RectI32 {
    open spec fn obeys_from_spec() -> bool {
        true
    }

    open spec fn from_spec(v: RectU32) -> Self {
        v.to_i32()
    }
}

// ---------------------------------------------------------------------------
// Laws
// ---------------------------------------------------------------------------

/// Subtracting what was added gives back the original vector.
pub proof fn lemma_vec2u32_add_then_sub(a: Vec2u32, b: Vec2u32)
    requires
        a.can_add(b),
    ensures
        a.plus(b).can_sub(b),
        a.plus(b).minus(b) == a,
{
}

/// Adding what was subtracted gives back the original vector.
pub proof fn lemma_vec2u32_sub_then_add(a: Vec2u32, b: Vec2u32)
    requires
        a.can_sub(b),
    ensures
        a.minus(b).can_add(b),
        a.minus(b).plus(b) == a,
{
}

/// Addition is commutative, and defined on the same pairs in either order.
pub proof fn lemma_vec2u32_add_commutes(a: Vec2u32, b: Vec2u32)
    ensures
        a.can_add(b) == b.can_add(a),
        a.can_add(b) ==> a.plus(b) == b.plus(a),
{
}

/// Subtracting what was added gives back the original vector.
pub proof fn lemma_vec2i32_add_then_sub(a: Vec2i32, b: Vec2i32)
    requires
        a.can_add(b),
    ensures
        a.plus(b).can_sub(b),
        a.plus(b).minus(b) == a,
{
}

/// Addition is commutative, and defined on the same pairs in either order.
pub proof fn lemma_vec2i32_add_commutes(a: Vec2i32, b: Vec2i32)
    ensures
        a.can_add(b) == b.can_add(a),
        a.can_add(b) ==> a.plus(b) == b.plus(a),
{
}

/// Negating twice gives back the original vector.
pub proof fn lemma_vec2i32_neg_involution(a: Vec2i32)
    requires
        a.can_neg(),
    ensures
        a.negated().can_neg(),
        a.negated().negated() == a,
{
}

/// Subtracting a vector is adding its negation.
pub proof fn lemma_vec2i32_sub_is_add_neg(a: Vec2i32, b: Vec2i32)
    requires
        b.can_neg(),
    ensures
        a.can_sub(b) == a.can_add(b.negated()),
        a.can_sub(b) ==> a.minus(b) == a.plus(b.negated()),
{
}

/// Converting unsigned to signed and back restores every vector.
pub proof fn lemma_vec2u32_i32_roundtrip(v: Vec2u32)
    ensures
        v.to_i32().to_u32() == v,
{
    let x = v.x;
    let y = v.y;
    assert(((x as i32) as u32) == x) by (bit_vector);
    assert(((y as i32) as u32) == y) by (bit_vector);
}

/// Converting signed to unsigned and back restores every vector.
pub proof fn lemma_vec2i32_u32_roundtrip(v: Vec2i32)
    ensures
        v.to_u32().to_i32() == v,
{
    let x = v.x;
    let y = v.y;
    assert(((x as u32) as i32) == x) by (bit_vector);
    assert(((y as u32) as i32) == y) by (bit_vector);
}

/// Overlap of two unsigned rectangles does not depend on the order in which they are given.
pub proof fn lemma_rect_u32_overlap_symmetric(a: RectU32, b: RectU32)
    ensures
        a.overlaps(b) == b.overlaps(a),
{
}

/// Overlap of two signed rectangles does not depend on the order in which they are given.
pub proof fn lemma_rect_i32_overlap_symmetric(a: RectI32, b: RectI32)
    ensures
        a.overlaps(b) == b.overlaps(a),
{
}

/// A rectangle of positive size overlaps itself.
pub proof fn lemma_rect_u32_overlaps_itself(a: RectU32)
    requires
        a.size.x > 0,
        a.size.y > 0,
    ensures
        a.overlaps(a),
{
}

/// The center of an unsigned rectangle lies inside it: `pos <= center <= pos + size`.
pub proof fn lemma_rect_u32_center_inside(r: RectU32)
    requires
        r.can_center(),
    ensures
        r.pos.x <= r.center_point().x <= r.pos.x + r.size.x,
        r.pos.y <= r.center_point().y <= r.pos.y + r.size.y,
{
}

/// The center of a signed rectangle lies between its two corners on each axis,
/// whatever the signs of its width and height.
pub proof fn lemma_rect_i32_center_inside(r: RectI32)
    requires
        r.can_center(),
    ensures
        r.size.x >= 0 ==> r.pos.x <= r.center_point().x <= r.pos.x + r.size.x,
        r.size.x < 0 ==> r.pos.x + r.size.x <= r.center_point().x <= r.pos.x,
        r.size.y >= 0 ==> r.pos.y <= r.center_point().y <= r.pos.y + r.size.y,
        r.size.y < 0 ==> r.pos.y + r.size.y <= r.center_point().y <= r.pos.y,
{
}

/// Converting two rectangles whose coordinates all fit in `i32` keeps whether they overlap.
pub proof fn lemma_rect_conversion_keeps_overlap(a: RectU32, b: RectU32)
    requires
        a.pos.x <= i32::MAX && a.pos.y <= i32::MAX && a.size.x <= i32::MAX && a.size.y <= i32::MAX,
        b.pos.x <= i32::MAX && b.pos.y <= i32::MAX && b.size.x <= i32::MAX && b.size.y <= i32::MAX,
    ensures
        a.to_i32().overlaps(b.to_i32()) == a.overlaps(b),
{
}

/// `q` is the quotient of `a` by `b > 0` rounded down: `q * b <= a < (q + 1) * b`.
pub open spec fn is_floor_quotient(q: int, a: int, b: int) -> bool {
    q * b <= a < (q + 1) * b
}

proof fn lemma_floor_quotient(a: int, b: int)
    requires
        a >= 0,
        b > 0,
    ensures
        is_floor_quotient(a / b, a, b),
{
    vstd::arithmetic::div_mod::lemma_fundamental_div_mod(a, b);
    let q = a / b;
    let r = a % b;
    assert(q * b <= a < (q + 1) * b) by (nonlinear_arith)
        requires
            a == b * q + r,
            0 <= r < b,
    ;
}

/// Unsigned vector arithmetic works on each axis separately, with the usual
/// integer meaning: sums, differences and products of the matching
/// components, and quotients rounded down.
pub proof fn lemma_vec2u32_componentwise(a: Vec2u32, b: Vec2u32, s: u32)
    ensures
        a.can_add(b) ==> a.plus(b).x == a.x + b.x && a.plus(b).y == a.y + b.y,
        a.can_sub(b) ==> a.minus(b).x == a.x - b.x && a.minus(b).y == a.y - b.y,
        a.can_mul(b) ==> a.times(b).x == a.x * b.x && a.times(b).y == a.y * b.y,
        b.x != 0 && b.y != 0 ==> is_floor_quotient(a.quot(b).x as int, a.x as int, b.x as int)
            && is_floor_quotient(a.quot(b).y as int, a.y as int, b.y as int),
        s != 0 ==> is_floor_quotient(a.quot_scalar(s).x as int, a.x as int, s as int)
            && is_floor_quotient(a.quot_scalar(s).y as int, a.y as int, s as int),
{
    if b.x != 0 && b.y != 0 {
        lemma_floor_quotient(a.x as int, b.x as int);
        lemma_floor_quotient(a.y as int, b.y as int);
    }
    if s != 0 {
        lemma_floor_quotient(a.x as int, s as int);
        lemma_floor_quotient(a.y as int, s as int);
    }
}

/// `q` is the quotient of `a` by `b` rounded toward zero: the remainder
/// `a - q * b` is smaller than `b` in size and has the sign of `a`.
pub open spec fn is_trunc_quotient(q: int, a: int, b: int) -> bool {
    &&& a >= 0 ==> 0 <= a - q * b < abs(b)
    &&& a < 0 ==> -abs(b) < a - q * b <= 0
}

/// Signed vector arithmetic works on each axis separately, with the usual
/// integer meaning; division by a scalar rounds toward zero.
pub proof fn lemma_vec2i32_componentwise(a: Vec2i32, b: Vec2i32, s: i32)
    ensures
        a.can_add(b) ==> a.plus(b).x == a.x + b.x && a.plus(b).y == a.y + b.y,
        a.can_sub(b) ==> a.minus(b).x == a.x - b.x && a.minus(b).y == a.y - b.y,
        a.can_neg() ==> a.negated().x + a.x == 0 && a.negated().y + a.y == 0,
        a.can_div_scalar(s) ==> is_trunc_quotient(a.quot_scalar(s).x as int, a.x as int, s as int)
            && is_trunc_quotient(a.quot_scalar(s).y as int, a.y as int, s as int),
{
    if a.can_div_scalar(s) {
        lemma_trunc_div(a.x as int, s as int);
        lemma_trunc_div(a.y as int, s as int);
    }
}

/// Reading unsigned components as signed keeps values up to `i32::MAX` and
/// wraps larger ones around by `2^32`; reading signed as unsigned keeps
/// non-negative values and wraps negative ones around by `2^32`.
pub proof fn lemma_vec2_conversions_componentwise(u: Vec2u32, v: Vec2i32)
    ensures
        u.to_i32().x == if u.x <= i32::MAX { u.x as int } else { u.x - 0x1_0000_0000 },
        u.to_i32().y == if u.y <= i32::MAX { u.y as int } else { u.y - 0x1_0000_0000 },
        v.to_u32().x == if v.x >= 0 { v.x as int } else { v.x + 0x1_0000_0000 },
        v.to_u32().y == if v.y >= 0 { v.y as int } else { v.y + 0x1_0000_0000 },
{
    let (ux, uy, vx, vy) = (u.x, u.y, v.x, v.y);
    assert(ux <= 0x7fff_ffff ==> (ux as i32) as int == ux as int) by (bit_vector);
    assert(ux > 0x7fff_ffff ==> (ux as i32) as int == ux as int - 0x1_0000_0000) by (bit_vector);
    assert(uy <= 0x7fff_ffff ==> (uy as i32) as int == uy as int) by (bit_vector);
    assert(uy > 0x7fff_ffff ==> (uy as i32) as int == uy as int - 0x1_0000_0000) by (bit_vector);
    assert(vx >= 0 ==> (vx as u32) as int == vx as int) by (bit_vector);
    assert(vx < 0 ==> (vx as u32) as int == vx as int + 0x1_0000_0000) by (bit_vector);
    assert(vy >= 0 ==> (vy as u32) as int == vy as int) by (bit_vector);
    assert(vy < 0 ==> (vy as u32) as int == vy as int + 0x1_0000_0000) by (bit_vector);
}

/// Converting a rectangle converts its position and its size, each axis kept
/// in place.
pub proof fn lemma_rect_conversion_fieldwise(r: RectU32)
    ensures
        r.to_i32().pos == r.pos.to_i32(),
        r.to_i32().size == r.size.to_i32(),
        r.to_i32().pos.x == r.pos.x as i32 && r.to_i32().pos.y == r.pos.y as i32,
        r.to_i32().size.x == r.size.x as i32 && r.to_i32().size.y == r.size.y as i32,
        r.pos.x <= i32::MAX && r.pos.y <= i32::MAX && r.size.x <= i32::MAX && r.size.y <= i32::MAX
            ==> r.to_i32().pos.x == r.pos.x && r.to_i32().pos.y == r.pos.y
            && r.to_i32().size.x == r.size.x && r.to_i32().size.y == r.size.y,
{
    lemma_vec2_conversions_componentwise(r.pos, Vec2i32 { x: 0, y: 0 });
    lemma_vec2_conversions_componentwise(r.size, Vec2i32 { x: 0, y: 0 });
}

/// Two unsigned rectangles overlap exactly when their extents overlap on the
/// x axis and on the y axis (touching edges do not count).
pub proof fn lemma_rect_u32_overlap_both_axes(a: RectU32, b: RectU32)
    ensures
        a.overlaps(b) <==> {
            &&& a.pos.x < b.pos.x + b.size.x
            &&& a.pos.x + a.size.x > b.pos.x
            &&& a.pos.y < b.pos.y + b.size.y
            &&& a.pos.y + a.size.y > b.pos.y
        },
{
}

/// Two signed rectangles overlap exactly when their extents overlap on the
/// x axis and on the y axis (touching edges do not count).
pub proof fn lemma_rect_i32_overlap_both_axes(a: RectI32, b: RectI32)
    ensures
        a.overlaps(b) <==> {
            &&& a.pos.x < b.pos.x + b.size.x
            &&& a.pos.x + a.size.x > b.pos.x
            &&& a.pos.y < b.pos.y + b.size.y
            &&& a.pos.y + a.size.y > b.pos.y
        },
{
}

/// The center of an unsigned rectangle sits half its size from its position:
/// twice the offset is the size, or one less when the size is odd.
pub proof fn lemma_rect_u32_center_halves(r: RectU32)
    requires
        r.can_center(),
    ensures
        r.center_point().x >= r.pos.x && r.center_point().y >= r.pos.y,
        2 * (r.center_point().x - r.pos.x) <= r.size.x <= 2 * (r.center_point().x - r.pos.x) + 1,
        2 * (r.center_point().y - r.pos.y) <= r.size.y <= 2 * (r.center_point().y - r.pos.y) + 1,
{
}

/// The center of a signed rectangle sits half its size from its position,
/// rounded toward the position: twice the offset is the size, or one nearer
/// zero when the size is odd.
pub proof fn lemma_rect_i32_center_halves(r: RectI32)
    requires
        r.can_center(),
    ensures
        r.size.x >= 0 ==> 2 * (r.center_point().x - r.pos.x) <= r.size.x <= 2 * (r.center_point().x - r.pos.x) + 1,
        r.size.x < 0 ==> 2 * (r.center_point().x - r.pos.x) - 1 <= r.size.x <= 2 * (r.center_point().x - r.pos.x),
        r.size.y >= 0 ==> 2 * (r.center_point().y - r.pos.y) <= r.size.y <= 2 * (r.center_point().y - r.pos.y) + 1,
        r.size.y < 0 ==> 2 * (r.center_point().y - r.pos.y) - 1 <= r.size.y <= 2 * (r.center_point().y - r.pos.y),
{
}

/// The operations are refused exactly where Rust's integer arithmetic would
/// overflow or divide by zero, and nowhere else.
pub proof fn lemma_operation_domains(a: Vec2u32, b: Vec2u32, c: Vec2i32, d: Vec2i32, s: i32)
    ensures
        a.can_add(b) <==> a.x + b.x <= u32::MAX && a.y + b.y <= u32::MAX,
        a.can_sub(b) <==> a.x >= b.x && a.y >= b.y,
        a.can_mul(b) <==> a.x * b.x <= u32::MAX && a.y * b.y <= u32::MAX,
        c.can_add(d) <==> i32::MIN <= c.x + d.x <= i32::MAX && i32::MIN <= c.y + d.y <= i32::MAX,
        c.can_sub(d) <==> i32::MIN <= c.x - d.x <= i32::MAX && i32::MIN <= c.y - d.y <= i32::MAX,
        c.can_neg() <==> -c.x <= i32::MAX && -c.y <= i32::MAX,
        c.can_div_scalar(s) <==> s != 0 && !(s == -1 && (-c.x > i32::MAX || -c.y > i32::MAX)),
{
    assert(0 <= a.x * b.x && 0 <= a.y * b.y) by (nonlinear_arith);
}

} // verus!
