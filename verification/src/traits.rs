use vstd::prelude::*;

verus! {

use vstd::layout::size_of;

/// Trait for types that represent a fixed-arity vector: `LEN` components
/// of element type `T`, in a fixed, significant order.
pub trait Vector<T, const LEN: usize>: Sized {
    /// The components of the vector, in declared field order.
    spec fn spec_components(&self) -> Seq<T>;

    /// The name of the implementing type.
    spec fn spec_name() -> Seq<char>;

    /// A vector always holds exactly `LEN` components.
    proof fn components_length(&self)
        ensures
            self.spec_components().len() == LEN,
    ;

    /// Returns the name of the vector type.
    fn name(&self) -> (r: &'static str)
        ensures
            r@ == Self::spec_name(),
    ;

    /// Returns the size of the vector in bytes: the element size times the
    /// number of components.
    fn size(&self) -> (r: usize)
        requires
            size_of::<T>() * (LEN as nat) <= usize::MAX,
        ensures
            r == size_of::<T>() * (LEN as nat),
    ;

    /// Returns the number of components.
    fn len(&self) -> (r: usize)
        ensures
            r == LEN,
    ;

    /// Converts the vector into an array of its components, in order.
    fn to_array(self) -> (r: [T; LEN])
        ensures
            r@ == self.spec_components(),
    ;

    /// Converts the vector into a `Vec` of its components, in order.
    fn to_vec(self) -> (r: Vec<T>)
        ensures
            r@ == self.spec_components(),
    ;
}

/// Trait for fixed-arity vectors whose element type is a machine integer.
pub trait IntegerVector<T, const LEN: usize>: Vector<T, LEN> {
    /// Whether raising every component to the power `n` stays within the
    /// element type's range.
    spec fn pow_req(&self, n: u32) -> bool;

    /// The vector of component-wise `n`-th powers.
    spec fn spec_pow(&self, n: u32) -> Self;

    /// Raises every component to the power `n`.
    fn pow(self, n: u32) -> (r: Self)
        requires
            self.pow_req(n),
        ensures
            r == self.spec_pow(n),
    ;
}

/// Trait for fixed-arity vectors that can be converted into a tuple of
/// their components.
pub trait TuplableVector<T, const LEN: usize>: Vector<T, LEN> {
    type Output;

    /// The tuple of the components, in declared field order.
    spec fn spec_tuple(&self) -> Self::Output;

    /// Converts the vector into a tuple of its components.
    fn to_tuple(self) -> (r: Self::Output)
        ensures
            r == self.spec_tuple(),
    ;
}

} // verus!
