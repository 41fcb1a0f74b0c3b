//! Exact decimal quantities, held as whole numbers of millionths, and vectors of them.

use vstd::prelude::*;

verus! {

/// The number of millionths in one unit.
pub const MICROS_PER_UNIT: i64 = 1_000_000;

/// A signed decimal quantity with six decimal places, held as a whole number of millionths.
#[derive(Clone, Copy, Debug, PartialEq, Eq, Structural)]
pub struct Fixed {
    pub micros: i64,
}

/// The absolute value of an integer.
pub open spec fn abs(v: int) -> nat {
    if v < 0 {
        (-v) as nat
    } else {
        v as nat
    }
}

impl Fixed {
    /// The quantity in millionths.
    pub open spec fn view(self) -> int {
        self.micros as int
    }

    /// The quantity of `micros` millionths.
    pub fn from_micros(micros: i64) -> (r: Fixed)
        ensures
            r@ == micros,
    {
        Fixed { micros }
    }

    /// The quantity of `thousandths` thousandths.
    pub open spec fn of_thousandths(thousandths: int) -> Fixed {
        Fixed { micros: (thousandths * 1_000) as i64 }
    }

    /// The quantity of `units` whole units.
    pub open spec fn of_units(units: int) -> Fixed {
        Fixed { micros: (units * 1_000_000) as i64 }
    }

    /// The quantity of `thousandths` thousandths.
    pub fn from_thousandths(thousandths: i32) -> (r: Fixed)
        ensures
            r@ == thousandths * 1_000,
            r == Fixed::of_thousandths(thousandths as int),
    {
        let wide: i64 = thousandths as i64;
        Fixed { micros: wide * 1_000 }
    }

    /// The quantity of `units` whole units.
    pub fn from_units(units: i32) -> (r: Fixed)
        ensures
            r@ == units * 1_000_000,
            r == Fixed::of_units(units as int),
    {
        let wide: i64 = units as i64;
        Fixed { micros: wide * MICROS_PER_UNIT }
    }

    /// Whether the quantity is below zero.
    pub fn is_negative(self) -> (b: bool)
        ensures
            b == (self@ < 0),
    {
        self.micros < 0
    }

    /// The quantity without its sign, in millionths.
    pub fn magnitude(self) -> (m: u64)
        ensures
            m == abs(self@),
    {
        if self.micros >= 0 {
            self.micros as u64
        } else if self.micros == i64::MIN {
            0x8000_0000_0000_0000u64
        } else {
            (-self.micros) as u64
        }
    }
}

/// Whether `root` is the largest whole number whose square does not exceed `n`.
pub open spec fn is_floor_sqrt(n: int, root: int) -> bool {
    &&& 0 <= root
    &&& root * root <= n
    &&& n < (root + 1) * (root + 1)
}

/// Squaring keeps the order of non-negative numbers.
proof fn lemma_square_monotone(a: int, b: int)
    requires
        0 <= a <= b,
    ensures
        a * a <= b * b,
{
    assert(a * a <= b * b) by (nonlinear_arith)
        requires
            0 <= a <= b,
    ;
}

/// There is one floor square root of each number.
pub proof fn lemma_floor_sqrt_unique(n: int, a: int, b: int)
    requires
        is_floor_sqrt(n, a),
        is_floor_sqrt(n, b),
    ensures
        a == b,
{
    if a < b {
        lemma_square_monotone(a + 1, b);
    } else if b < a {
        lemma_square_monotone(b + 1, a);
    }
}

/// The largest whole number whose square does not exceed `n`.
pub open spec fn floor_sqrt(n: int) -> int {
    choose|root: int| is_floor_sqrt(n, root)
}

/// Whatever is a floor square root of `n` is the floor square root of `n`.
pub proof fn lemma_floor_sqrt_is(n: int, root: int)
    requires
        is_floor_sqrt(n, root),
    ensures
        floor_sqrt(n) == root,
{
    lemma_floor_sqrt_unique(n, floor_sqrt(n), root);
}

/// The largest whole number whose square does not exceed `n`.
pub fn integer_sqrt(n: u128) -> (root: u64)
    ensures
        is_floor_sqrt(n as int, root as int),
        root == floor_sqrt(n as int),
{
    let mut low: u128 = 0;
    let mut high: u128 = 0xFFFF_FFFF_FFFF_FFFF;
    proof {
        assert(0x1_0000_0000_0000_0000int * 0x1_0000_0000_0000_0000int
            == 0x1_0000_0000_0000_0000_0000_0000_0000_0000int) by (nonlinear_arith);
    }
    while low < high
        invariant
            low <= high <= 0xFFFF_FFFF_FFFF_FFFF,
            low * low <= n,
            n < (high + 1) * (high + 1),
        decreases high - low,
    {
        let middle: u128 = low + (high - low + 1) / 2;
        proof {
            lemma_square_monotone(middle as int, 0xFFFF_FFFF_FFFF_FFFF);
            assert(0xFFFF_FFFF_FFFF_FFFFint * 0xFFFF_FFFF_FFFF_FFFFint
                < 0x1_0000_0000_0000_0000_0000_0000_0000_0000int) by (nonlinear_arith);
        }
        if middle * middle <= n {
            low = middle;
        } else {
            high = middle - 1;
        }
    }
    proof {
        lemma_floor_sqrt_is(n as int, low as int);
    }
    low as u64
}

/// A vector of three quantities.
#[derive(Clone, Copy, Debug, PartialEq, Eq, Structural)]
pub struct Vector3 {
    pub x: Fixed,
    pub y: Fixed,
    pub z: Fixed,
}

impl Vector3 {
    /// The vector with the given components.
    pub fn new(x: Fixed, y: Fixed, z: Fixed) -> (v: Vector3)
        ensures
            v == (Vector3 { x, y, z }),
    {
        Vector3 { x, y, z }
    }

    /// The vector whose components are the given numbers of thousandths.
    pub open spec fn of_thousandths(x: int, y: int, z: int) -> Vector3 {
        Vector3 {
            x: Fixed::of_thousandths(x),
            y: Fixed::of_thousandths(y),
            z: Fixed::of_thousandths(z),
        }
    }

    /// The vector whose components are the given numbers of thousandths.
    pub fn from_thousandths(x: i32, y: i32, z: i32) -> (v: Vector3)
        ensures
            v.x@ == x * 1_000,
            v.y@ == y * 1_000,
            v.z@ == z * 1_000,
            v == Vector3::of_thousandths(x as int, y as int, z as int),
    {
        Vector3 {
            x: Fixed::from_thousandths(x),
            y: Fixed::from_thousandths(y),
            z: Fixed::from_thousandths(z),
        }
    }

    /// The vector whose components are whole units.
    pub fn from_units(x: i32, y: i32, z: i32) -> (v: Vector3)
        ensures
            v.x@ == x * 1_000_000,
            v.y@ == y * 1_000_000,
            v.z@ == z * 1_000_000,
    {
        Vector3 { x: Fixed::from_units(x), y: Fixed::from_units(y), z: Fixed::from_units(z) }
    }

    /// The vector of no length.
    pub fn zero() -> (v: Vector3)
        ensures
            v.x@ == 0,
            v.y@ == 0,
            v.z@ == 0,
    {
        Vector3 { x: Fixed { micros: 0 }, y: Fixed { micros: 0 }, z: Fixed { micros: 0 } }
    }

    /// The sum of the squares of the components, each in millionths.
    pub open spec fn length_squared(self) -> int {
        self.x@ * self.x@ + self.y@ * self.y@ + self.z@ * self.z@
    }

    /// The vector's length in millionths, rounded down to a whole number of them.
    pub open spec fn length_micros(self) -> int {
        floor_sqrt(self.length_squared())
    }

    /// The vector's length in millionths, rounded down to a whole number of them.
    pub fn length(&self) -> (len: u64)
        ensures
            is_floor_sqrt(self.length_squared(), len as int),
            len == self.length_micros(),
    {
        let x: u128 = self.x.magnitude() as u128;
        let y: u128 = self.y.magnitude() as u128;
        let z: u128 = self.z.magnitude() as u128;
        proof {
            let bound: int = 0x8000_0000_0000_0000;
            lemma_square_monotone(x as int, bound);
            lemma_square_monotone(y as int, bound);
            lemma_square_monotone(z as int, bound);
            assert(bound * bound == 0x4000_0000_0000_0000_0000_0000_0000_0000int)
                by (nonlinear_arith)
                requires
                    bound == 0x8000_0000_0000_0000int,
            ;
            assert(x * x == self.x@ * self.x@) by (nonlinear_arith)
                requires
                    x == self.x@ || x == -self.x@,
            ;
            assert(y * y == self.y@ * self.y@) by (nonlinear_arith)
                requires
                    y == self.y@ || y == -self.y@,
            ;
            assert(z * z == self.z@ * self.z@) by (nonlinear_arith)
                requires
                    z == self.z@ || z == -self.z@,
            ;
        }
        integer_sqrt(x * x + y * y + z * z)
    }
}

} // verus!
