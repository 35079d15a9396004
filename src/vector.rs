use vstd::prelude::*;

verus! {

/// A two-dimensional vector with public components.
#[derive(Clone, Copy, Debug, PartialEq, Eq, Hash, Default)]
pub struct Vector2<T> {
    /// X component of the vector.
    pub x: T,
    /// Y component of the vector.
    pub y: T,
}

impl<T> View for Vector2<T> {
    type V = (T, T);

    open spec fn view(&self) -> (T, T) {
        (self.x, self.y)
    }
}

impl<T> From<(T, T)> for Vector2<T> {
    fn from(value: (T, T)) -> (r: Self) {
        Vector2 { x: value.0, y: value.1 }
    }
}

impl<T> vstd::std_specs::convert::FromSpecImpl<(T, T)> for Vector2<T> {
    open spec fn obeys_from_spec() -> bool {
        true
    }

    open spec fn from_spec(value: (T, T)) -> Self {
        Vector2 { x: value.0, y: value.1 }
    }
}

impl<T: Copy> From<[T; 2]> for Vector2<T> {
    fn from(value: [T; 2]) -> (r: Self) {
        Vector2 { x: value[0], y: value[1] }
    }
}

impl<T: Copy> vstd::std_specs::convert::FromSpecImpl<[T; 2]> for Vector2<T> {
    open spec fn obeys_from_spec() -> bool {
        true
    }

    open spec fn from_spec(value: [T; 2]) -> Self {
        Vector2 { x: value@[0], y: value@[1] }
    }
}

impl<T> From<Vector2<T>> for (T, T) {
    fn from(value: Vector2<T>) -> (r: (T, T)) {
        (value.x, value.y)
    }
}

impl<T> vstd::std_specs::convert::FromSpecImpl<Vector2<T>> for (T, T) {
    open spec fn obeys_from_spec() -> bool {
        true
    }

    open spec fn from_spec(value: Vector2<T>) -> (T, T) {
        (value.x, value.y)
    }
}

/// Whether an integer fits in an `i32`.
pub open spec fn fits_i32(v: int) -> bool {
    i32::MIN <= v <= i32::MAX
}

impl<T> Vector2<T> {
    /// Constructs a new vector with given x, y components.
    pub fn new(x: T, y: T) -> (r: Self)
        ensures
            r.x == x,
            r.y == y,
    {
        Self { x, y }
    }

    /// Sets the x and y components of an existing vector.
    pub fn set(&mut self, new_x: T, new_y: T)
        ensures
            final(self).x == new_x,
            final(self).y == new_y,
    {
        self.x = new_x;
        self.y = new_y;
    }
}

impl Vector2<i32> {
    /// The components as a pair.
    pub fn pair(&self) -> (r: (i32, i32))
        ensures
            r == self@,
    {
        (self.x, self.y)
    }

    /// Component-wise sum.
    pub fn add(self, other: Self) -> (r: Self)
        requires
            fits_i32(self.x + other.x),
            fits_i32(self.y + other.y),
        ensures
            r.x == self.x + other.x,
            r.y == self.y + other.y,
    {
        Self::new(self.x + other.x, self.y + other.y)
    }

    /// Component-wise difference.
    pub fn sub(self, other: Self) -> (r: Self)
        requires
            fits_i32(self.x - other.x),
            fits_i32(self.y - other.y),
        ensures
            r.x == self.x - other.x,
            r.y == self.y - other.y,
    {
        Self::new(self.x - other.x, self.y - other.y)
    }

    /// Both components multiplied by a scalar.
    pub fn mul(self, k: i32) -> (r: Self)
        requires
            fits_i32(self.x * k),
            fits_i32(self.y * k),
        ensures
            r.x == self.x * k,
            r.y == self.y * k,
    {
        Self::new(self.x * k, self.y * k)
    }

    /// The opposite vector.
    pub fn neg(self) -> (r: Self)
        requires
            self.x != i32::MIN,
            self.y != i32::MIN,
        ensures
            r.x == -self.x,
            r.y == -self.y,
    {
        Self::new(-self.x, -self.y)
    }

    /// The squared length of the vector.
    pub fn sqr_magnitude(&self) -> (r: u64)
        ensures
            r == self.x * self.x + self.y * self.y,
    {
        let x = self.x as i64;
        let y = self.y as i64;
        proof {
            lemma_square_bound(x);
            lemma_square_bound(y);
        }
        ((x * x) as u64) + ((y * y) as u64)
    }

    /// Dot product of two vectors, over the integers.
    pub open spec fn dot_spec(lhs: Self, rhs: Self) -> int {
        lhs.x * rhs.x + lhs.y * rhs.y
    }

    /// Returns a vector made of the largest components of two vectors.
    pub fn max(lhs: Self, rhs: Self) -> (r: Self)
        ensures
            r.x == if lhs.x >= rhs.x { lhs.x } else { rhs.x },
            r.y == if lhs.y >= rhs.y { lhs.y } else { rhs.y },
    {
        Self::new(
            if lhs.x >= rhs.x { lhs.x } else { rhs.x },
            if lhs.y >= rhs.y { lhs.y } else { rhs.y },
        )
    }

    /// Returns a vector made of the smallest components of two vectors.
    pub fn min(lhs: Self, rhs: Self) -> (r: Self)
        ensures
            r.x == if lhs.x <= rhs.x { lhs.x } else { rhs.x },
            r.y == if lhs.y <= rhs.y { lhs.y } else { rhs.y },
    {
        Self::new(
            if lhs.x <= rhs.x { lhs.x } else { rhs.x },
            if lhs.y <= rhs.y { lhs.y } else { rhs.y },
        )
    }

    /// Returns the vector rotated by 90 degrees counter-clockwise (for a
    /// coordinate system whose y axis points up).
    pub fn perpendicular(in_direction: Self) -> (r: Self)
        requires
            in_direction.y != i32::MIN,
        ensures
            r.x == -in_direction.y,
            r.y == in_direction.x,
    {
        Self::new(-in_direction.y, in_direction.x)
    }

    /// Multiplies two vectors component-wise.
    pub fn scale(a: Self, b: Self) -> (r: Self)
        requires
            fits_i32(a.x * b.x),
            fits_i32(a.y * b.y),
        ensures
            r.x == a.x * b.x,
            r.y == a.y * b.y,
    {
        Self::new(a.x * b.x, a.y * b.y)
    }

    /// Reflects a vector off the line defined by a normal:
    /// `in_direction - 2 * dot(in_normal, in_direction) * in_normal`.
    pub fn reflect(in_direction: Self, in_normal: Self) -> (r: Self)
        requires
            fits_i32(-2 * Self::dot_spec(in_normal, in_direction) * in_normal.x + in_direction.x),
            fits_i32(-2 * Self::dot_spec(in_normal, in_direction) * in_normal.y + in_direction.y),
        ensures
            r.x == -2 * Self::dot_spec(in_normal, in_direction) * in_normal.x + in_direction.x,
            r.y == -2 * Self::dot_spec(in_normal, in_direction) * in_normal.y + in_direction.y,
    {
        let nx = in_normal.x as i128;
        let ny = in_normal.y as i128;
        let dx = in_direction.x as i128;
        let dy = in_direction.y as i128;
        proof {
            lemma_product_bound(nx, dx);
            lemma_product_bound(ny, dy);
        }
        let dot = nx * dx + ny * dy;
        let factor = -2 * dot;
        proof {
            lemma_factor_bound(factor, nx);
            lemma_factor_bound(factor, ny);
        }
        let rx = factor * nx + dx;
        let ry = factor * ny + dy;
        Self::new(rx as i32, ry as i32)
    }
}

proof fn lemma_square_bound(a: i64)
    requires
        fits_i32(a as int),
    ensures
        0 <= a * a <= 0x4000_0000_0000_0000,
{
    assert(0 <= a * a <= 0x4000_0000_0000_0000) by (nonlinear_arith)
        requires
            -0x8000_0000 <= a <= 0x8000_0000,
    ;
}

proof fn lemma_product_bound(a: i128, b: i128)
    requires
        fits_i32(a as int),
        fits_i32(b as int),
    ensures
        -0x4000_0000_0000_0000 <= a * b <= 0x4000_0000_0000_0000,
{
    assert(-0x4000_0000_0000_0000 <= a * b <= 0x4000_0000_0000_0000) by (nonlinear_arith)
        requires
            -0x8000_0000 <= a <= 0x8000_0000,
            -0x8000_0000 <= b <= 0x8000_0000,
    ;
}

proof fn lemma_factor_bound(f: i128, n: i128)
    requires
        -0x1_0000_0000_0000_0000 <= f <= 0x1_0000_0000_0000_0000,
        fits_i32(n as int),
    ensures
        -0x1_0000_0000_0000_0000_0000_0000 <= f * n <= 0x1_0000_0000_0000_0000_0000_0000,
{
    assert(-0x1_0000_0000_0000_0000_0000_0000 <= f * n <= 0x1_0000_0000_0000_0000_0000_0000)
        by (nonlinear_arith)
        requires
            -0x1_0000_0000_0000_0000 <= f <= 0x1_0000_0000_0000_0000,
            -0x8000_0000 <= n <= 0x8000_0000,
    ;
}

} // verus!
