use vstd::prelude::*;

use crate::decimal::{int_chars, i64_to_string};
use crate::error::VectorError;
use crate::numeric::{lemma_i64_product_bounds, lemma_square_nonneg, trunc_div_i64, trunc_rem_i64};

verus! {

use vstd::std_specs::ops::{AddSpec, SubSpec, MulSpec, DivSpec, RemSpec, BitAndSpec, BitOrSpec, BitXorSpec};
use vstd::string::StringExecFns;

/// Vector for holding two-dimensional values.
#[derive(Clone, Copy, Debug, PartialEq, Eq, Structural, Hash)]
pub struct Vector2<T> {
    pub x: T,
    pub y: T,
}

impl<T> View for Vector2<T> {
    type V = Seq<T>;

    open spec fn view(&self) -> Seq<T> {
        seq![self.x, self.y]
    }
}

impl<T> Vector2<T> {
    /// Constructs a new vector with the specified values for each field.
    pub fn new(x: T, y: T) -> (r: Self)
        ensures
            r.x == x,
            r.y == y,
    {
        Vector2 { x, y }
    }

    /// Returns the number of components of the vector.
    pub fn len(&self) -> (r: usize)
        ensures
            r == 2,
    {
        2
    }

    /// Consumes the vector and returns its values as an array, in
    /// declared field order.
    pub fn to_array(self) -> (r: [T; 2])
        ensures
            r@ == self@,
    {
        [self.x, self.y]
    }

    /// Consumes the vector and returns its values as a `Vec`, in
    /// declared field order.
    pub fn to_vec(self) -> (r: Vec<T>)
        ensures
            r@ == self@,
    {
        let mut v = Vec::with_capacity(2);
        v.push(self.x);
        v.push(self.y);
        proof {
            assert(v@ =~= seq![self.x, self.y]);
        }
        v
    }

    /// Consumes the vector and returns its values as a tuple, in
    /// declared field order.
    pub fn to_tuple(self) -> (r: (T, T))
        ensures
            r == (self.x, self.y),
    {
        (self.x, self.y)
    }

    /// Consumes the vector and returns a new vector with the given function
    /// applied on each field, preserving arity and order.
    pub fn map<U, F: Fn(T) -> U>(self, f: F) -> (r: Vector2<U>)
        requires
            call_requires(f, (self.x,)),
            call_requires(f, (self.y,)),
        ensures
            call_ensures(f, (self.x,), r.x),
            call_ensures(f, (self.y,), r.y),
    {
        let Vector2 { x, y } = self;
        let nx = f(x);
        let ny = f(y);
        Vector2 { x: nx, y: ny }
    }

    /// Returns a reference to the first component.
    pub fn get_x(&self) -> (r: &T)
        ensures
            *r == self.x,
    {
        &self.x
    }

    /// Returns a reference to the second component.
    pub fn get_y(&self) -> (r: &T)
        ensures
            *r == self.y,
    {
        &self.y
    }

    /// Returns a mutable reference to the first component.
    pub fn get_x_mut(&mut self) -> (r: &mut T)
        ensures
            *r == old(self).x,
            final(self).x == *final(r),
            final(self).y == old(self).y,
    {
        &mut self.x
    }

    /// Returns a mutable reference to the second component.
    pub fn get_y_mut(&mut self) -> (r: &mut T)
        ensures
            *r == old(self).y,
            final(self).x == old(self).x,
            final(self).y == *final(r),
    {
        &mut self.y
    }

    /// Replaces the first component.
    pub fn set_x(&mut self, value: T)
        ensures
            final(self).x == value,
            final(self).y == old(self).y,
    {
        self.x = value;
    }

    /// Replaces the second component.
    pub fn set_y(&mut self, value: T)
        ensures
            final(self).x == old(self).x,
            final(self).y == value,
    {
        self.y = value;
    }

    /// Returns a reference to the component at `index`, counting in
    /// declared field order. Indexing outside the vector is a caller error.
    pub fn index(&self, index: usize) -> (r: &T)
        requires
            index < 2,
        ensures
            *r == self@[index as int],
    {
        if index == 0 {
            &self.x
        } else {
            &self.y
        }
    }

    /// Returns a mutable reference to the component at `index`, counting in
    /// declared field order. Indexing outside the vector is a caller error.
    pub fn index_mut(&mut self, index: usize) -> (r: &mut T)
        requires
            index < 2,
        ensures
            index == 0 ==> *r == old(self).x && *final(self) == (Vector2 {
                x: *final(r),
                y: old(self).y,
            }),
            index == 1 ==> *r == old(self).y && *final(self) == (Vector2 {
                x: old(self).x,
                y: *final(r),
            }),
    {
        if index == 0 {
            &mut self.x
        } else {
            &mut self.y
        }
    }

    /// Builds a vector from a `Vec`, taking the first two elements in
    /// order. Returns an error when the `Vec` holds fewer than that many
    /// elements; trailing extra elements are ignored.
    pub fn try_from(collection: Vec<T>) -> (r: Result<Self, VectorError>)
        ensures
            r == Self::spec_try_from(collection@),
    {
        if collection.len() < 2 {
            Err(VectorError::CannotConvertFromImproperlySizedCollection)
        } else {
            let mut rest = collection;
            let x = rest.remove(0);
            let y = rest.remove(0);
            Ok(Vector2 { x, y })
        }
    }

    /// What [`Vector2::try_from`] returns, as a function of the collection's
    /// contents.
    pub open spec fn spec_try_from(s: Seq<T>) -> Result<Self, VectorError> {
        if s.len() < 2 {
            Err(VectorError::CannotConvertFromImproperlySizedCollection)
        } else {
            Ok(Vector2 { x: s[0], y: s[1] })
        }
    }
}

impl<T: Copy> Vector2<T> {
    /// Constructs a vector using the given value for all of its fields.
    pub fn from_value(value: T) -> (r: Self)
        ensures
            r.x == value,
            r.y == value,
    {
        Vector2 { x: value, y: value }
    }

    /// Returns the vector's values as a tuple, in declared field order.
    pub fn as_tuple(&self) -> (r: (T, T))
        ensures
            r == (self.x, self.y),
    {
        (self.x, self.y)
    }

    /// Returns the vector's values as an array, in declared field order.
    pub fn as_array(&self) -> (r: [T; 2])
        ensures
            r@ == self@,
    {
        [self.x, self.y]
    }
}

impl<T> From<(T, T)> for Vector2<T> {
    /// Builds the vector from a tuple, in declared field order.
    fn from(t: (T, T)) -> (r: Self) {
        Vector2 { x: t.0, y: t.1 }
    }
}

impl<T> vstd::std_specs::convert::FromSpecImpl<(T, T)> for Vector2<T> {
    open spec fn obeys_from_spec() -> bool {
        true
    }

    open spec fn from_spec(t: (T, T)) -> Self {
        Vector2 { x: t.0, y: t.1 }
    }
}

impl<T> TryFrom<Vec<T>> for Vector2<T> {
    type Error = VectorError;

    /// Builds the vector from a `Vec` through the standard conversion
    /// trait, exactly as [`Vector2::try_from`] does.
    fn try_from(collection: Vec<T>) -> (r: Result<Self, VectorError>) {
        Vector2::try_from(collection)
    }
}

impl<T> vstd::std_specs::convert::TryFromSpecImpl<Vec<T>> for Vector2<T> {
    open spec fn obeys_try_from_spec() -> bool {
        true
    }

    open spec fn try_from_spec(collection: Vec<T>) -> Result<Self, VectorError> {
        Self::spec_try_from(collection@)
    }
}

impl<T: Copy> From<[T; 2]> for Vector2<T> {
    /// Builds the vector from an array, in declared field order.
    fn from(a: [T; 2]) -> (r: Self) {
        Vector2 { x: a[0], y: a[1] }
    }
}

impl<T: Copy> vstd::std_specs::convert::FromSpecImpl<[T; 2]> for Vector2<T> {
    open spec fn obeys_from_spec() -> bool {
        true
    }

    open spec fn from_spec(a: [T; 2]) -> Self {
        Vector2 { x: a@[0], y: a@[1] }
    }
}

impl core::ops::Add for Vector2<i64> {
    type Output = Vector2<i64>;

    /// Element-wise addition.
    fn add(self, other: Self) -> (r: Self) {
        Vector2 { x: self.x + other.x, y: self.y + other.y }
    }
}

impl vstd::std_specs::ops::AddSpecImpl for Vector2<i64> {
    open spec fn obeys_add_spec() -> bool {
        true
    }

    open spec fn add_req(self, rhs: Self) -> bool {
        &&& i64::MIN <= self.x + rhs.x <= i64::MAX
        &&& i64::MIN <= self.y + rhs.y <= i64::MAX
    }

    open spec fn add_spec(self, rhs: Self) -> Self {
        Vector2 {
            x: (self.x + rhs.x) as i64,
            y: (self.y + rhs.y) as i64,
        }
    }
}

impl core::ops::Add<i64> for Vector2<i64> {
    type Output = Vector2<i64>;

    /// Broadcast addition: adds the scalar to every component.
    fn add(self, other: i64) -> (r: Self) {
        Vector2 { x: self.x + other, y: self.y + other }
    }
}

impl vstd::std_specs::ops::AddSpecImpl<i64> for Vector2<i64> {
    open spec fn obeys_add_spec() -> bool {
        true
    }

    open spec fn add_req(self, rhs: i64) -> bool {
        &&& i64::MIN <= self.x + rhs <= i64::MAX
        &&& i64::MIN <= self.y + rhs <= i64::MAX
    }

    open spec fn add_spec(self, rhs: i64) -> Self {
        Vector2 {
            x: (self.x + rhs) as i64,
            y: (self.y + rhs) as i64,
        }
    }
}

impl core::ops::Sub for Vector2<i64> {
    type Output = Vector2<i64>;

    /// Element-wise subtraction.
    fn sub(self, other: Self) -> (r: Self) {
        Vector2 { x: self.x - other.x, y: self.y - other.y }
    }
}

impl vstd::std_specs::ops::SubSpecImpl for Vector2<i64> {
    open spec fn obeys_sub_spec() -> bool {
        true
    }

    open spec fn sub_req(self, rhs: Self) -> bool {
        &&& i64::MIN <= self.x - rhs.x <= i64::MAX
        &&& i64::MIN <= self.y - rhs.y <= i64::MAX
    }

    open spec fn sub_spec(self, rhs: Self) -> Self {
        Vector2 {
            x: (self.x - rhs.x) as i64,
            y: (self.y - rhs.y) as i64,
        }
    }
}

impl core::ops::Sub<i64> for Vector2<i64> {
    type Output = Vector2<i64>;

    /// Broadcast subtraction: subtracts the scalar from every component.
    fn sub(self, other: i64) -> (r: Self) {
        Vector2 { x: self.x - other, y: self.y - other }
    }
}

impl vstd::std_specs::ops::SubSpecImpl<i64> for Vector2<i64> {
    open spec fn obeys_sub_spec() -> bool {
        true
    }

    open spec fn sub_req(self, rhs: i64) -> bool {
        &&& i64::MIN <= self.x - rhs <= i64::MAX
        &&& i64::MIN <= self.y - rhs <= i64::MAX
    }

    open spec fn sub_spec(self, rhs: i64) -> Self {
        Vector2 {
            x: (self.x - rhs) as i64,
            y: (self.y - rhs) as i64,
        }
    }
}

impl core::ops::Mul for Vector2<i64> {
    type Output = Vector2<i64>;

    /// Element-wise multiplication.
    fn mul(self, other: Self) -> (r: Self) {
        Vector2 { x: self.x * other.x, y: self.y * other.y }
    }
}

impl vstd::std_specs::ops::MulSpecImpl for Vector2<i64> {
    open spec fn obeys_mul_spec() -> bool {
        true
    }

    open spec fn mul_req(self, rhs: Self) -> bool {
        &&& i64::MIN <= self.x * rhs.x <= i64::MAX
        &&& i64::MIN <= self.y * rhs.y <= i64::MAX
    }

    open spec fn mul_spec(self, rhs: Self) -> Self {
        Vector2 {
            x: (self.x * rhs.x) as i64,
            y: (self.y * rhs.y) as i64,
        }
    }
}

impl core::ops::Mul<i64> for Vector2<i64> {
    type Output = Vector2<i64>;

    /// Broadcast multiplication: multiplies every component by the scalar.
    fn mul(self, other: i64) -> (r: Self) {
        Vector2 { x: self.x * other, y: self.y * other }
    }
}

impl vstd::std_specs::ops::MulSpecImpl<i64> for Vector2<i64> {
    open spec fn obeys_mul_spec() -> bool {
        true
    }

    open spec fn mul_req(self, rhs: i64) -> bool {
        &&& i64::MIN <= self.x * rhs <= i64::MAX
        &&& i64::MIN <= self.y * rhs <= i64::MAX
    }

    open spec fn mul_spec(self, rhs: i64) -> Self {
        Vector2 {
            x: (self.x * rhs) as i64,
            y: (self.y * rhs) as i64,
        }
    }
}

impl core::ops::Div for Vector2<i64> {
    type Output = Vector2<i64>;

    /// Element-wise division, truncating toward zero as machine division
    /// does. Division by zero is a caller error, as it is for the element
    /// type itself.
    fn div(self, other: Self) -> (r: Self) {
        Vector2 { x: self.x / other.x, y: self.y / other.y }
    }
}

impl vstd::std_specs::ops::DivSpecImpl for Vector2<i64> {
    open spec fn obeys_div_spec() -> bool {
        true
    }

    open spec fn div_req(self, rhs: Self) -> bool {
        &&& rhs.x != 0 && !(self.x == i64::MIN && rhs.x == -1)
        &&& rhs.y != 0 && !(self.y == i64::MIN && rhs.y == -1)
    }

    open spec fn div_spec(self, rhs: Self) -> Self {
        Vector2 {
            x: trunc_div_i64(self.x, rhs.x),
            y: trunc_div_i64(self.y, rhs.y),
        }
    }
}

impl core::ops::Div<i64> for Vector2<i64> {
    type Output = Vector2<i64>;

    /// Broadcast division: divides every component by the scalar,
    /// truncating toward zero.
    fn div(self, other: i64) -> (r: Self) {
        Vector2 { x: self.x / other, y: self.y / other }
    }
}

impl vstd::std_specs::ops::DivSpecImpl<i64> for Vector2<i64> {
    open spec fn obeys_div_spec() -> bool {
        true
    }

    open spec fn div_req(self, rhs: i64) -> bool {
        &&& rhs != 0 && !(self.x == i64::MIN && rhs == -1)
        &&& rhs != 0 && !(self.y == i64::MIN && rhs == -1)
    }

    open spec fn div_spec(self, rhs: i64) -> Self {
        Vector2 {
            x: trunc_div_i64(self.x, rhs),
            y: trunc_div_i64(self.y, rhs),
        }
    }
}

impl core::ops::Rem for Vector2<i64> {
    type Output = Vector2<i64>;

    /// Element-wise remainder, with the sign of the dividend as machine
    /// remainder has. A zero divisor is a caller error.
    fn rem(self, other: Self) -> (r: Self) {
        Vector2 { x: self.x % other.x, y: self.y % other.y }
    }
}

impl vstd::std_specs::ops::RemSpecImpl for Vector2<i64> {
    open spec fn obeys_rem_spec() -> bool {
        true
    }

    open spec fn rem_req(self, rhs: Self) -> bool {
        &&& rhs.x != 0 && !(self.x == i64::MIN && rhs.x == -1)
        &&& rhs.y != 0 && !(self.y == i64::MIN && rhs.y == -1)
    }

    open spec fn rem_spec(self, rhs: Self) -> Self {
        Vector2 {
            x: trunc_rem_i64(self.x, rhs.x),
            y: trunc_rem_i64(self.y, rhs.y),
        }
    }
}

impl core::ops::Rem<i64> for Vector2<i64> {
    type Output = Vector2<i64>;

    /// Broadcast remainder: the remainder of every component by the scalar.
    fn rem(self, other: i64) -> (r: Self) {
        Vector2 { x: self.x % other, y: self.y % other }
    }
}

impl vstd::std_specs::ops::RemSpecImpl<i64> for Vector2<i64> {
    open spec fn obeys_rem_spec() -> bool {
        true
    }

    open spec fn rem_req(self, rhs: i64) -> bool {
        &&& rhs != 0 && !(self.x == i64::MIN && rhs == -1)
        &&& rhs != 0 && !(self.y == i64::MIN && rhs == -1)
    }

    open spec fn rem_spec(self, rhs: i64) -> Self {
        Vector2 {
            x: trunc_rem_i64(self.x, rhs),
            y: trunc_rem_i64(self.y, rhs),
        }
    }
}

impl core::ops::Neg for Vector2<i64> {
    type Output = Vector2<i64>;

    /// Negates every component.
    fn neg(self) -> (r: Self) {
        Vector2 { x: -self.x, y: -self.y }
    }
}

impl vstd::std_specs::ops::NegSpecImpl for Vector2<i64> {
    open spec fn obeys_neg_spec() -> bool {
        true
    }

    open spec fn neg_req(self) -> bool {
        &&& self.x != i64::MIN
        &&& self.y != i64::MIN
    }

    open spec fn neg_spec(self) -> Self {
        Vector2 { x: (-self.x) as i64, y: (-self.y) as i64 }
    }
}

impl core::ops::BitAnd for Vector2<i64> {
    type Output = Vector2<i64>;

    /// Element-wise bitwise and.
    fn bitand(self, other: Self) -> (r: Self) {
        Vector2 { x: self.x & other.x, y: self.y & other.y }
    }
}

impl vstd::std_specs::ops::BitAndSpecImpl for Vector2<i64> {
    open spec fn obeys_bitand_spec() -> bool {
        true
    }

    open spec fn bitand_req(self, rhs: Self) -> bool {
        true
    }

    open spec fn bitand_spec(self, rhs: Self) -> Self {
        Vector2 { x: self.x & rhs.x, y: self.y & rhs.y }
    }
}

impl core::ops::BitOr for Vector2<i64> {
    type Output = Vector2<i64>;

    /// Element-wise bitwise or.
    fn bitor(self, other: Self) -> (r: Self) {
        Vector2 { x: self.x | other.x, y: self.y | other.y }
    }
}

impl vstd::std_specs::ops::BitOrSpecImpl for Vector2<i64> {
    open spec fn obeys_bitor_spec() -> bool {
        true
    }

    open spec fn bitor_req(self, rhs: Self) -> bool {
        true
    }

    open spec fn bitor_spec(self, rhs: Self) -> Self {
        Vector2 { x: self.x | rhs.x, y: self.y | rhs.y }
    }
}

impl core::ops::BitXor for Vector2<i64> {
    type Output = Vector2<i64>;

    /// Element-wise bitwise exclusive or.
    fn bitxor(self, other: Self) -> (r: Self) {
        Vector2 { x: self.x ^ other.x, y: self.y ^ other.y }
    }
}

impl vstd::std_specs::ops::BitXorSpecImpl for Vector2<i64> {
    open spec fn obeys_bitxor_spec() -> bool {
        true
    }

    open spec fn bitxor_req(self, rhs: Self) -> bool {
        true
    }

    open spec fn bitxor_spec(self, rhs: Self) -> Self {
        Vector2 { x: self.x ^ rhs.x, y: self.y ^ rhs.y }
    }
}

impl Vector2<i64> {
    /// Element-wise addition in place.
    pub fn add_assign(&mut self, other: Self)
        requires
            old(self).add_req(other),
        ensures
            *final(self) == old(self).add_spec(other),
    {
        let nx = self.x + other.x;
        let ny = self.y + other.y;
        self.x = nx;
        self.y = ny;
    }

    /// Broadcast addition in place.
    pub fn add_assign_scalar(&mut self, other: i64)
        requires
            old(self).add_req(other),
        ensures
            *final(self) == old(self).add_spec(other),
    {
        let nx = self.x + other;
        let ny = self.y + other;
        self.x = nx;
        self.y = ny;
    }

    /// Element-wise subtraction in place.
    pub fn sub_assign(&mut self, other: Self)
        requires
            old(self).sub_req(other),
        ensures
            *final(self) == old(self).sub_spec(other),
    {
        let nx = self.x - other.x;
        let ny = self.y - other.y;
        self.x = nx;
        self.y = ny;
    }

    /// Broadcast subtraction in place.
    pub fn sub_assign_scalar(&mut self, other: i64)
        requires
            old(self).sub_req(other),
        ensures
            *final(self) == old(self).sub_spec(other),
    {
        let nx = self.x - other;
        let ny = self.y - other;
        self.x = nx;
        self.y = ny;
    }

    /// Element-wise multiplication in place.
    pub fn mul_assign(&mut self, other: Self)
        requires
            old(self).mul_req(other),
        ensures
            *final(self) == old(self).mul_spec(other),
    {
        let nx = self.x * other.x;
        let ny = self.y * other.y;
        self.x = nx;
        self.y = ny;
    }

    /// Broadcast multiplication in place.
    pub fn mul_assign_scalar(&mut self, other: i64)
        requires
            old(self).mul_req(other),
        ensures
            *final(self) == old(self).mul_spec(other),
    {
        let nx = self.x * other;
        let ny = self.y * other;
        self.x = nx;
        self.y = ny;
    }

    /// Element-wise division in place.
    pub fn div_assign(&mut self, other: Self)
        requires
            old(self).div_req(other),
        ensures
            *final(self) == old(self).div_spec(other),
    {
        let nx = self.x / other.x;
        let ny = self.y / other.y;
        self.x = nx;
        self.y = ny;
    }

    /// Broadcast division in place.
    pub fn div_assign_scalar(&mut self, other: i64)
        requires
            old(self).div_req(other),
        ensures
            *final(self) == old(self).div_spec(other),
    {
        let nx = self.x / other;
        let ny = self.y / other;
        self.x = nx;
        self.y = ny;
    }

    /// Element-wise remainder in place.
    pub fn rem_assign(&mut self, other: Self)
        requires
            old(self).rem_req(other),
        ensures
            *final(self) == old(self).rem_spec(other),
    {
        let nx = self.x % other.x;
        let ny = self.y % other.y;
        self.x = nx;
        self.y = ny;
    }

    /// Broadcast remainder in place.
    pub fn rem_assign_scalar(&mut self, other: i64)
        requires
            old(self).rem_req(other),
        ensures
            *final(self) == old(self).rem_spec(other),
    {
        let nx = self.x % other;
        let ny = self.y % other;
        self.x = nx;
        self.y = ny;
    }

    /// Element-wise bitwise and in place.
    pub fn bitand_assign(&mut self, other: Self)
        ensures
            *final(self) == old(self).bitand_spec(other),
    {
        let nx = self.x & other.x;
        let ny = self.y & other.y;
        self.x = nx;
        self.y = ny;
    }

    /// Element-wise bitwise or in place.
    pub fn bitor_assign(&mut self, other: Self)
        ensures
            *final(self) == old(self).bitor_spec(other),
    {
        let nx = self.x | other.x;
        let ny = self.y | other.y;
        self.x = nx;
        self.y = ny;
    }

    /// Element-wise bitwise exclusive or in place.
    pub fn bitxor_assign(&mut self, other: Self)
        ensures
            *final(self) == old(self).bitxor_spec(other),
    {
        let nx = self.x ^ other.x;
        let ny = self.y ^ other.y;
        self.x = nx;
        self.y = ny;
    }

    /// Returns the dot product of two vectors: the sum of the products of
    /// corresponding components.
    pub fn dot(&self, other: &Self) -> (r: i64)
        requires
            i64::MIN <= self.x * other.x + self.y * other.y <= i64::MAX,
        ensures
            r == self.x * other.x + self.y * other.y,
    {
        proof {
            lemma_i64_product_bounds(self.x as int, other.x as int);
            lemma_i64_product_bounds(self.y as int, other.y as int);
        }
        let px = (self.x as i128) * (other.x as i128);
        let py = (self.y as i128) * (other.y as i128);
        let total = px.wrapping_add(py);
        proof {
            assert(total == self.x * other.x + self.y * other.y);
        }
        total as i64
    }

    /// Returns the squared magnitude of the vector: the sum of the squares
    /// of all components. Never negative.
    pub fn length_squared(&self) -> (r: i64)
        requires
            self.x * self.x + self.y * self.y <= i64::MAX,
        ensures
            r == self.x * self.x + self.y * self.y,
            r >= 0,
    {
        proof {
            lemma_square_nonneg(self.x as int);
            lemma_square_nonneg(self.y as int);
        }
        self.dot(self)
    }

    /// Returns the greatest component, found by repeated pairwise
    /// comparison in declared field order.
    pub fn max(&self) -> (r: i64)
        ensures
            r == self.x || r == self.y,
            r >= self.x,
            r >= self.y,
    {
        let mut m = self.x;
        if self.y > m {
            m = self.y;
        }
        m
    }

    /// Returns the least component, found by repeated pairwise
    /// comparison in declared field order.
    pub fn min(&self) -> (r: i64)
        ensures
            r == self.x || r == self.y,
            r <= self.x,
            r <= self.y,
    {
        let mut m = self.x;
        if self.y < m {
            m = self.y;
        }
        m
    }

    /// The characters of the display rendering: the components in declared
    /// order, comma-separated, in parentheses.
    pub open spec fn display_chars(self) -> Seq<char> {
        "("@ + int_chars(self.x as int) + ", "@ + int_chars(self.y as int) + ")"@
    }

    /// Renders the vector as `(x, y)`.
    pub fn to_display_string(&self) -> (r: String)
        ensures
            r@ == self.display_chars(),
    {
        let mut s = String::from_str("(");
        let x_digits = i64_to_string(self.x);
        s.append(x_digits.as_str());
        s.append(", ");
        let y_digits = i64_to_string(self.y);
        s.append(y_digits.as_str());
        s.append(")");
        proof {
            assert(s@ =~= self.display_chars());
        }
        s
    }

    /// The characters of the debug rendering: the type's name followed by
    /// each field with its value, in declared order.
    pub open spec fn debug_chars(self) -> Seq<char> {
        "Vector2 { x: "@ + int_chars(self.x as int) + ", y: "@ + int_chars(self.y as int) + " }"@
    }

    /// Renders the vector as `Vector2 { x: .., y: .. }`.
    pub fn to_debug_string(&self) -> (r: String)
        ensures
            r@ == self.debug_chars(),
    {
        let mut s = String::from_str("Vector2 { x: ");
        let x_digits = i64_to_string(self.x);
        s.append(x_digits.as_str());
        s.append(", y: ");
        let y_digits = i64_to_string(self.y);
        s.append(y_digits.as_str());
        s.append(" }");
        proof {
            assert(s@ =~= self.debug_chars());
        }
        s
    }
}

impl<T> crate::traits::Vector<T, 2> for Vector2<T> {
    open spec fn spec_components(&self) -> Seq<T> {
        seq![self.x, self.y]
    }

    open spec fn spec_name() -> Seq<char> {
        "Vector2"@
    }

    proof fn components_length(&self) {
    }

    fn name(&self) -> (r: &'static str) {
        "Vector2"
    }

    fn size(&self) -> (r: usize) {
        core::mem::size_of::<T>() * 2
    }

    fn len(&self) -> (r: usize) {
        2
    }

    fn to_array(self) -> (r: [T; 2]) {
        [self.x, self.y]
    }

    fn to_vec(self) -> (r: Vec<T>) {
        Vector2::to_vec(self)
    }
}

impl crate::traits::IntegerVector<i64, 2> for Vector2<i64> {
    open spec fn pow_req(&self, n: u32) -> bool {
        &&& i64::MIN <= vstd::arithmetic::power::pow(self.x as int, n as nat) <= i64::MAX
        &&& i64::MIN <= vstd::arithmetic::power::pow(self.y as int, n as nat) <= i64::MAX
    }

    open spec fn spec_pow(&self, n: u32) -> Self {
        Vector2 {
            x: vstd::arithmetic::power::pow(self.x as int, n as nat) as i64,
            y: vstd::arithmetic::power::pow(self.y as int, n as nat) as i64,
        }
    }

    fn pow(self, n: u32) -> (r: Self) {
        let x = crate::numeric::pow_i64(self.x, n);
        let y = crate::numeric::pow_i64(self.y, n);
        Vector2 { x, y }
    }
}

impl<T> crate::traits::TuplableVector<T, 2> for Vector2<T> {
    type Output = (T, T);

    open spec fn spec_tuple(&self) -> (T, T) {
        (self.x, self.y)
    }

    fn to_tuple(self) -> (r: (T, T)) {
        (self.x, self.y)
    }
}

/// The components of a two-dimensional vector appear in its view in
/// declared field order.
pub proof fn lemma_vector2_order<T>(v: Vector2<T>)
    ensures
        v@.len() == 2,
        v@[0] == v.x,
        v@[1] == v.y,
{
}

/// Round trip through an array: rebuilding a vector from the array of its
/// components gives the vector back.
pub proof fn lemma_vector2_array_round_trip<T: Copy>(v: Vector2<T>, a: [T; 2])
    requires
        a@ == v@,
    ensures
        <Vector2<T> as vstd::std_specs::convert::FromSpec<[T; 2]>>::from_spec(a) == v,
{
}

/// Round trip through a tuple: rebuilding a vector from the tuple of its
/// components gives the vector back.
pub proof fn lemma_vector2_tuple_round_trip<T>(v: Vector2<T>)
    ensures
        <Vector2<T> as vstd::std_specs::convert::FromSpec<(T, T)>>::from_spec((v.x, v.y)) == v,
{
}

/// Round trip through a `Vec`: converting a vector's contents back always
/// succeeds and gives the vector back.
pub proof fn lemma_vector2_vec_round_trip<T>(v: Vector2<T>)
    ensures
        Vector2::<T>::spec_try_from(v@) == Ok::<Vector2<T>, VectorError>(v),
{
}

/// Adding the all-zero vector changes nothing, and the addition is always
/// in range.
pub proof fn lemma_vector2_add_zero(v: Vector2<i64>)
    ensures
        v.add_req((Vector2 { x: 0i64, y: 0i64 })),
        v.add_spec((Vector2 { x: 0i64, y: 0i64 })) == v,
{
}

/// Subtracting a vector from itself gives the all-zero vector, and the
/// subtraction is always in range.
pub proof fn lemma_vector2_sub_self(v: Vector2<i64>)
    ensures
        v.sub_req(v),
        v.sub_spec(v) == (Vector2 { x: 0i64, y: 0i64 }),
{
}

/// Multiplying by the scalar one changes nothing, and the multiplication
/// is always in range.
pub proof fn lemma_vector2_mul_one(v: Vector2<i64>)
    ensures
        v.mul_req(1i64),
        v.mul_spec(1i64) == v,
{
}

impl<T: Default> Default for Vector2<T> {
    /// Builds the vector with every component set to `T`'s default value.
    fn default() -> (r: Self)
        ensures
            call_ensures(<T as Default>::default, (), r.x),
            call_ensures(<T as Default>::default, (), r.y),
    {
        Vector2 { x: T::default(), y: T::default() }
    }
}

} // verus!
