//! Fixed-size state vectors, held in `nalgebra` column vectors.
use crate::fixed_point::{Fxd, ZERO_BITS};
use vstd::prelude::*;

verus! {

#[verifier::external_type_specification]
#[verifier::external_body]
#[verifier::reject_recursive_types(T)]
#[verifier::reject_recursive_types(R)]
#[verifier::reject_recursive_types(C)]
#[verifier::reject_recursive_types(S)]
pub struct ExMatrix<T, R, C, S>(nalgebra::Matrix<T, R, C, S>);

#[verifier::external_type_specification]
#[verifier::external_body]
pub struct ExConst<const R: usize>(nalgebra::Const<R>);

#[verifier::external_type_specification]
#[verifier::external_body]
#[verifier::reject_recursive_types(T)]
pub struct ExArrayStorage<T, const R: usize, const C: usize>(nalgebra::ArrayStorage<T, R, C>);

/// A state vector: a fixed number of fixed-point entries.
pub trait StateVector: Sized + Copy {
    /// The entries of the vector.
    spec fn items(&self) -> Seq<Fxd>;

    /// The number of entries.
    spec fn dim_spec() -> nat;

    /// Every vector of the type holds `dim_spec()` entries.
    proof fn lemma_items_len(v: &Self)
        ensures
            v.items().len() == Self::dim_spec(),
    ;

    fn dim() -> (n: usize)
        ensures
            n == Self::dim_spec(),
    ;

    fn zeros() -> (r: Self)
        ensures
            r.items() == Seq::new(Self::dim_spec(), |i: int| Fxd { bits: 0 }),
    ;

    fn get(&self, i: usize) -> (r: Fxd)
        requires
            i < Self::dim_spec(),
        ensures
            r == self.items()[i as int],
    ;

    fn set(&mut self, i: usize, val: Fxd)
        requires
            i < Self::dim_spec(),
        ensures
            final(self).items() == old(self).items().update(i as int, val),
            final(self).items().len() == Self::dim_spec(),
    ;
}

/// The entries of a vector of 1.
pub uninterp spec fn vec1_items(v: nalgebra::SVector<Fxd, 1>) -> Seq<Fxd>;

/// `nalgebra::Vector1::new`: the vector with the given entries, in order.
#[verifier::external_body]
pub(crate) fn vec1_new(a: Fxd) -> (r: nalgebra::SVector<Fxd, 1>)
    ensures
        vec1_items(r) == seq![a],
{
    nalgebra::Vector1::new(a)
}

/// Indexing a vector of 1 (`Index<usize>`): entry `i`.
#[verifier::external_body]
pub(crate) fn vec1_get(v: &nalgebra::SVector<Fxd, 1>, i: usize) -> (r: Fxd)
    requires
        i < 1,
    ensures
        r == vec1_items(*v)[i as int],
{
    v[i]
}

/// Assigning through `IndexMut<usize>` on a vector of 1: entry `i` becomes
/// `val`, the others stay.
#[verifier::external_body]
pub(crate) fn vec1_set(v: &mut nalgebra::SVector<Fxd, 1>, i: usize, val: Fxd)
    requires
        i < 1,
    ensures
        vec1_items(*final(v)) == vec1_items(*old(v)).update(i as int, val),
        vec1_items(*old(v)).len() == 1,
        vec1_items(*final(v)).len() == 1,
{
    v[i] = val;
}

impl StateVector for nalgebra::SVector<Fxd, 1> {
    open spec fn items(&self) -> Seq<Fxd> {
        Seq::new(1, |i: int| vec1_items(*self)[i])
    }

    open spec fn dim_spec() -> nat {
        1
    }

    fn dim() -> (n: usize) {
        1
    }

    fn zeros() -> (r: Self) {
        let z = Fxd { bits: ZERO_BITS };
        let r = vec1_new(z);
        assert(r.items() =~= Seq::new(Self::dim_spec(), |i: int| Fxd { bits: 0 }));
        r
    }

    fn get(&self, i: usize) -> (r: Fxd) {
        vec1_get(self, i)
    }

    fn set(&mut self, i: usize, val: Fxd) {
        vec1_set(self, i, val);
        assert(self.items() =~= old(self).items().update(i as int, val));
    }

    proof fn lemma_items_len(v: &Self) {
    }
}

/// The entries of a vector of 2.
pub uninterp spec fn vec2_items(v: nalgebra::SVector<Fxd, 2>) -> Seq<Fxd>;

/// `nalgebra::Vector2::new`: the vector with the given entries, in order.
#[verifier::external_body]
pub(crate) fn vec2_new(a: Fxd, b: Fxd) -> (r: nalgebra::SVector<Fxd, 2>)
    ensures
        vec2_items(r) == seq![a, b],
{
    nalgebra::Vector2::new(a, b)
}

/// Indexing a vector of 2 (`Index<usize>`): entry `i`.
#[verifier::external_body]
pub(crate) fn vec2_get(v: &nalgebra::SVector<Fxd, 2>, i: usize) -> (r: Fxd)
    requires
        i < 2,
    ensures
        r == vec2_items(*v)[i as int],
{
    v[i]
}

/// Assigning through `IndexMut<usize>` on a vector of 2: entry `i` becomes
/// `val`, the others stay.
#[verifier::external_body]
pub(crate) fn vec2_set(v: &mut nalgebra::SVector<Fxd, 2>, i: usize, val: Fxd)
    requires
        i < 2,
    ensures
        vec2_items(*final(v)) == vec2_items(*old(v)).update(i as int, val),
        vec2_items(*old(v)).len() == 2,
        vec2_items(*final(v)).len() == 2,
{
    v[i] = val;
}

impl StateVector for nalgebra::SVector<Fxd, 2> {
    open spec fn items(&self) -> Seq<Fxd> {
        Seq::new(2, |i: int| vec2_items(*self)[i])
    }

    open spec fn dim_spec() -> nat {
        2
    }

    fn dim() -> (n: usize) {
        2
    }

    fn zeros() -> (r: Self) {
        let z = Fxd { bits: ZERO_BITS };
        let r = vec2_new(z, z);
        assert(r.items() =~= Seq::new(Self::dim_spec(), |i: int| Fxd { bits: 0 }));
        r
    }

    fn get(&self, i: usize) -> (r: Fxd) {
        vec2_get(self, i)
    }

    fn set(&mut self, i: usize, val: Fxd) {
        vec2_set(self, i, val);
        assert(self.items() =~= old(self).items().update(i as int, val));
    }

    proof fn lemma_items_len(v: &Self) {
    }
}

/// The entries of a vector of 3.
pub uninterp spec fn vec3_items(v: nalgebra::SVector<Fxd, 3>) -> Seq<Fxd>;

/// `nalgebra::Vector3::new`: the vector with the given entries, in order.
#[verifier::external_body]
pub(crate) fn vec3_new(a: Fxd, b: Fxd, c: Fxd) -> (r: nalgebra::SVector<Fxd, 3>)
    ensures
        vec3_items(r) == seq![a, b, c],
{
    nalgebra::Vector3::new(a, b, c)
}

/// Indexing a vector of 3 (`Index<usize>`): entry `i`.
#[verifier::external_body]
pub(crate) fn vec3_get(v: &nalgebra::SVector<Fxd, 3>, i: usize) -> (r: Fxd)
    requires
        i < 3,
    ensures
        r == vec3_items(*v)[i as int],
{
    v[i]
}

/// Assigning through `IndexMut<usize>` on a vector of 3: entry `i` becomes
/// `val`, the others stay.
#[verifier::external_body]
pub(crate) fn vec3_set(v: &mut nalgebra::SVector<Fxd, 3>, i: usize, val: Fxd)
    requires
        i < 3,
    ensures
        vec3_items(*final(v)) == vec3_items(*old(v)).update(i as int, val),
        vec3_items(*old(v)).len() == 3,
        vec3_items(*final(v)).len() == 3,
{
    v[i] = val;
}

impl StateVector for nalgebra::SVector<Fxd, 3> {
    open spec fn items(&self) -> Seq<Fxd> {
        Seq::new(3, |i: int| vec3_items(*self)[i])
    }

    open spec fn dim_spec() -> nat {
        3
    }

    fn dim() -> (n: usize) {
        3
    }

    fn zeros() -> (r: Self) {
        let z = Fxd { bits: ZERO_BITS };
        let r = vec3_new(z, z, z);
        assert(r.items() =~= Seq::new(Self::dim_spec(), |i: int| Fxd { bits: 0 }));
        r
    }

    fn get(&self, i: usize) -> (r: Fxd) {
        vec3_get(self, i)
    }

    fn set(&mut self, i: usize, val: Fxd) {
        vec3_set(self, i, val);
        assert(self.items() =~= old(self).items().update(i as int, val));
    }

    proof fn lemma_items_len(v: &Self) {
    }
}

/// The entries of a vector of 4.
pub uninterp spec fn vec4_items(v: nalgebra::SVector<Fxd, 4>) -> Seq<Fxd>;

/// `nalgebra::Vector4::new`: the vector with the given entries, in order.
#[verifier::external_body]
pub(crate) fn vec4_new(a: Fxd, b: Fxd, c: Fxd, d: Fxd) -> (r: nalgebra::SVector<Fxd, 4>)
    ensures
        vec4_items(r) == seq![a, b, c, d],
{
    nalgebra::Vector4::new(a, b, c, d)
}

/// Indexing a vector of 4 (`Index<usize>`): entry `i`.
#[verifier::external_body]
pub(crate) fn vec4_get(v: &nalgebra::SVector<Fxd, 4>, i: usize) -> (r: Fxd)
    requires
        i < 4,
    ensures
        r == vec4_items(*v)[i as int],
{
    v[i]
}

/// Assigning through `IndexMut<usize>` on a vector of 4: entry `i` becomes
/// `val`, the others stay.
#[verifier::external_body]
pub(crate) fn vec4_set(v: &mut nalgebra::SVector<Fxd, 4>, i: usize, val: Fxd)
    requires
        i < 4,
    ensures
        vec4_items(*final(v)) == vec4_items(*old(v)).update(i as int, val),
        vec4_items(*old(v)).len() == 4,
        vec4_items(*final(v)).len() == 4,
{
    v[i] = val;
}

impl StateVector for nalgebra::SVector<Fxd, 4> {
    open spec fn items(&self) -> Seq<Fxd> {
        Seq::new(4, |i: int| vec4_items(*self)[i])
    }

    open spec fn dim_spec() -> nat {
        4
    }

    fn dim() -> (n: usize) {
        4
    }

    fn zeros() -> (r: Self) {
        let z = Fxd { bits: ZERO_BITS };
        let r = vec4_new(z, z, z, z);
        assert(r.items() =~= Seq::new(Self::dim_spec(), |i: int| Fxd { bits: 0 }));
        r
    }

    fn get(&self, i: usize) -> (r: Fxd) {
        vec4_get(self, i)
    }

    fn set(&mut self, i: usize, val: Fxd) {
        vec4_set(self, i, val);
        assert(self.items() =~= old(self).items().update(i as int, val));
    }

    proof fn lemma_items_len(v: &Self) {
    }
}

/// The entries of a vector of 6.
pub uninterp spec fn vec6_items(v: nalgebra::SVector<Fxd, 6>) -> Seq<Fxd>;

/// `nalgebra::Vector6::new`: the vector with the given entries, in order.
#[verifier::external_body]
pub(crate) fn vec6_new(a: Fxd, b: Fxd, c: Fxd, d: Fxd, e: Fxd, f: Fxd) -> (r: nalgebra::SVector<Fxd, 6>)
    ensures
        vec6_items(r) == seq![a, b, c, d, e, f],
{
    nalgebra::Vector6::new(a, b, c, d, e, f)
}

/// Indexing a vector of 6 (`Index<usize>`): entry `i`.
#[verifier::external_body]
pub(crate) fn vec6_get(v: &nalgebra::SVector<Fxd, 6>, i: usize) -> (r: Fxd)
    requires
        i < 6,
    ensures
        r == vec6_items(*v)[i as int],
{
    v[i]
}

/// Assigning through `IndexMut<usize>` on a vector of 6: entry `i` becomes
/// `val`, the others stay.
#[verifier::external_body]
pub(crate) fn vec6_set(v: &mut nalgebra::SVector<Fxd, 6>, i: usize, val: Fxd)
    requires
        i < 6,
    ensures
        vec6_items(*final(v)) == vec6_items(*old(v)).update(i as int, val),
        vec6_items(*old(v)).len() == 6,
        vec6_items(*final(v)).len() == 6,
{
    v[i] = val;
}

impl StateVector for nalgebra::SVector<Fxd, 6> {
    open spec fn items(&self) -> Seq<Fxd> {
        Seq::new(6, |i: int| vec6_items(*self)[i])
    }

    open spec fn dim_spec() -> nat {
        6
    }

    fn dim() -> (n: usize) {
        6
    }

    fn zeros() -> (r: Self) {
        let z = Fxd { bits: ZERO_BITS };
        let r = vec6_new(z, z, z, z, z, z);
        assert(r.items() =~= Seq::new(Self::dim_spec(), |i: int| Fxd { bits: 0 }));
        r
    }

    fn get(&self, i: usize) -> (r: Fxd) {
        vec6_get(self, i)
    }

    fn set(&mut self, i: usize, val: Fxd) {
        vec6_set(self, i, val);
        assert(self.items() =~= old(self).items().update(i as int, val));
    }

    proof fn lemma_items_len(v: &Self) {
    }
}


/// The entries of a vector of 11.
pub uninterp spec fn vec11_items(v: nalgebra::SVector<Fxd, 11>) -> Seq<Fxd>;

/// `From<[T; D]>` for a vector of 11: the vector with the array's entries, in
/// order.
#[verifier::external_body]
pub(crate) fn vec11_from_array(a: [Fxd; 11]) -> (r: nalgebra::SVector<Fxd, 11>)
    ensures
        vec11_items(r) == a@,
{
    nalgebra::SVector::<Fxd, 11>::from(a)
}

/// Indexing a vector of 11 (`Index<usize>`): entry `i`.
#[verifier::external_body]
pub(crate) fn vec11_get(v: &nalgebra::SVector<Fxd, 11>, i: usize) -> (r: Fxd)
    requires
        i < 11,
    ensures
        r == vec11_items(*v)[i as int],
{
    v[i]
}

/// Assigning through `IndexMut<usize>` on a vector of 11: entry `i` becomes
/// `val`, the others stay.
#[verifier::external_body]
pub(crate) fn vec11_set(v: &mut nalgebra::SVector<Fxd, 11>, i: usize, val: Fxd)
    requires
        i < 11,
    ensures
        vec11_items(*final(v)) == vec11_items(*old(v)).update(i as int, val),
        vec11_items(*old(v)).len() == 11,
        vec11_items(*final(v)).len() == 11,
{
    v[i] = val;
}

impl StateVector for nalgebra::SVector<Fxd, 11> {
    open spec fn items(&self) -> Seq<Fxd> {
        Seq::new(11, |i: int| vec11_items(*self)[i])
    }

    open spec fn dim_spec() -> nat {
        11
    }

    fn dim() -> (n: usize) {
        11
    }

    fn zeros() -> (r: Self) {
        let z = Fxd { bits: ZERO_BITS };
        let r = vec11_from_array([z, z, z, z, z, z, z, z, z, z, z]);
        assert(r.items() =~= Seq::new(Self::dim_spec(), |i: int| Fxd { bits: 0 }));
        r
    }

    fn get(&self, i: usize) -> (r: Fxd) {
        vec11_get(self, i)
    }

    fn set(&mut self, i: usize, val: Fxd) {
        vec11_set(self, i, val);
        assert(self.items() =~= old(self).items().update(i as int, val));
    }

    proof fn lemma_items_len(v: &Self) {
    }
}

} // verus!
