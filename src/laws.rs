use vstd::prelude::*;
use vstd::std_specs::cmp::{PartialEqSpec, PartialOrdSpec, PartialOrdIs};
use vstd::std_specs::convert::FromSpec;
use vstd::std_specs::ops::{AddSpec, MulSpec, BitAndSpec, BitOrSpec, BitXorSpec};
use core::ops::{Add, Mul, BitAnd, BitOr, BitXor};
use crate::vec2::Vec2;
use crate::{ConstOne, ConstZero};

verus! {

/// Vector addition is commutative wherever addition of the components is.
pub proof fn lemma_add_commutative<A: Add<Output = B>, B>(a: Vec2<A>, b: Vec2<A>)
    requires
        forall|p: A, q: A| #[trigger] p.add_spec(q) == q.add_spec(p),
    ensures
        a.add_spec(b) == b.add_spec(a),
{
}

/// Vector addition is associative wherever addition of the components is.
pub proof fn lemma_add_associative<A: Add<Output = A>>(a: Vec2<A>, b: Vec2<A>, c: Vec2<A>)
    requires
        forall|p: A, q: A, r: A| #[trigger] p.add_spec(q).add_spec(r) == p.add_spec(q.add_spec(r)),
    ensures
        a.add_spec(b).add_spec(c) == a.add_spec(b.add_spec(c)),
{
}

/// Vector multiplication is commutative wherever multiplication of the components is.
pub proof fn lemma_mul_commutative<A: Mul<Output = B>, B>(a: Vec2<A>, b: Vec2<A>)
    requires
        forall|p: A, q: A| #[trigger] p.mul_spec(q) == q.mul_spec(p),
    ensures
        a.mul_spec(b) == b.mul_spec(a),
{
}

/// Vector multiplication is associative wherever multiplication of the components is.
pub proof fn lemma_mul_associative<A: Mul<Output = A>>(a: Vec2<A>, b: Vec2<A>, c: Vec2<A>)
    requires
        forall|p: A, q: A, r: A| #[trigger] p.mul_spec(q).mul_spec(r) == p.mul_spec(q.mul_spec(r)),
    ensures
        a.mul_spec(b).mul_spec(c) == a.mul_spec(b.mul_spec(c)),
{
}

/// Vector bitwise and is commutative wherever bitwise and of the components is.
pub proof fn lemma_bitand_commutative<A: BitAnd<Output = B>, B>(a: Vec2<A>, b: Vec2<A>)
    requires
        forall|p: A, q: A| #[trigger] p.bitand_spec(q) == q.bitand_spec(p),
    ensures
        a.bitand_spec(b) == b.bitand_spec(a),
{
}

/// Vector bitwise and is associative wherever bitwise and of the components is.
pub proof fn lemma_bitand_associative<A: BitAnd<Output = A>>(a: Vec2<A>, b: Vec2<A>, c: Vec2<A>)
    requires
        forall|p: A, q: A, r: A| #[trigger] p.bitand_spec(q).bitand_spec(r) == p.bitand_spec(q.bitand_spec(r)),
    ensures
        a.bitand_spec(b).bitand_spec(c) == a.bitand_spec(b.bitand_spec(c)),
{
}

/// Vector bitwise or is commutative wherever bitwise or of the components is.
pub proof fn lemma_bitor_commutative<A: BitOr<Output = B>, B>(a: Vec2<A>, b: Vec2<A>)
    requires
        forall|p: A, q: A| #[trigger] p.bitor_spec(q) == q.bitor_spec(p),
    ensures
        a.bitor_spec(b) == b.bitor_spec(a),
{
}

/// Vector bitwise or is associative wherever bitwise or of the components is.
pub proof fn lemma_bitor_associative<A: BitOr<Output = A>>(a: Vec2<A>, b: Vec2<A>, c: Vec2<A>)
    requires
        forall|p: A, q: A, r: A| #[trigger] p.bitor_spec(q).bitor_spec(r) == p.bitor_spec(q.bitor_spec(r)),
    ensures
        a.bitor_spec(b).bitor_spec(c) == a.bitor_spec(b.bitor_spec(c)),
{
}

/// Vector bitwise exclusive or is commutative wherever bitwise exclusive or of the components is.
pub proof fn lemma_bitxor_commutative<A: BitXor<Output = B>, B>(a: Vec2<A>, b: Vec2<A>)
    requires
        forall|p: A, q: A| #[trigger] p.bitxor_spec(q) == q.bitxor_spec(p),
    ensures
        a.bitxor_spec(b) == b.bitxor_spec(a),
{
}

/// Vector bitwise exclusive or is associative wherever bitwise exclusive or of the components is.
pub proof fn lemma_bitxor_associative<A: BitXor<Output = A>>(a: Vec2<A>, b: Vec2<A>, c: Vec2<A>)
    requires
        forall|p: A, q: A, r: A| #[trigger] p.bitxor_spec(q).bitxor_spec(r) == p.bitxor_spec(q.bitxor_spec(r)),
    ensures
        a.bitxor_spec(b).bitxor_spec(c) == a.bitxor_spec(b.bitxor_spec(c)),
{
}

/// Adding the zero vector leaves a vector unchanged wherever adding the
/// scalar zero leaves a scalar unchanged.
pub proof fn lemma_add_zero<A: Add<Output = A> + ConstZero>(v: Vec2<A>)
    requires
        forall|t: A| #[trigger] t.add_spec(A::ZERO) == t,
    ensures
        v.add_spec(Vec2 { x: A::ZERO, y: A::ZERO }) == v,
{
}

/// Multiplying by the one vector leaves a vector unchanged wherever
/// multiplying by the scalar one leaves a scalar unchanged.
pub proof fn lemma_mul_one<A: Mul<Output = A> + ConstOne>(v: Vec2<A>)
    requires
        forall|t: A| #[trigger] t.mul_spec(A::ONE) == t,
    ensures
        v.mul_spec(Vec2 { x: A::ONE, y: A::ONE }) == v,
{
}

/// A pair turned into a vector and back is the same pair.
pub proof fn lemma_tuple_round_trip<T>(x: T, y: T)
    ensures
        <(T, T) as FromSpec<Vec2<T>>>::from_spec(<Vec2<T> as FromSpec<(T, T)>>::from_spec((x, y))) == (x, y),
{
}

/// A vector turned into a pair and back is the same vector.
pub proof fn lemma_vec_round_trip<T>(v: Vec2<T>)
    ensures
        <Vec2<T> as FromSpec<(T, T)>>::from_spec(<(T, T) as FromSpec<Vec2<T>>>::from_spec(v)) == v,
{
}

/// Vectors compare as the pairs `(x, y)` do: lexicographically, `x` first.
pub proof fn lemma_partial_cmp_lexicographic<T: PartialOrd>(a: Vec2<T>, b: Vec2<T>)
    ensures
        Vec2::<T>::obeys_partial_cmp_spec() == <(T, T)>::obeys_partial_cmp_spec(),
        a.partial_cmp_spec(&b) == (a.x, a.y).partial_cmp_spec(&(b.x, b.y)),
        a.is_lt(&b) <==> (a.x, a.y).is_lt(&(b.x, b.y)),
{
}

/// Vectors are equal as the pairs `(x, y)` are.
pub proof fn lemma_eq_componentwise<T: PartialEq>(a: Vec2<T>, b: Vec2<T>)
    ensures
        Vec2::<T>::obeys_eq_spec() == <(T, T)>::obeys_eq_spec(),
        a.eq_spec(&b) == (a.x, a.y).eq_spec(&(b.x, b.y)),
{
}

} // verus!
