//! The quaternion value type.

use vstd::prelude::*;
use crate::layout::{flipped, source};
use crate::scalar::{
    below_epsilon, equal, is_below_epsilon, is_positive, negate, negated, positive, same_number,
    zero, ZERO,
};

verus! {

/// A quaternion `w + xi + yj + zk`, stored as the four bit patterns `[w, x, y, z]`.
///
/// `w` is the scalar part and `(x, y, z)` the vector part. Nothing asks for
/// unit length: a quaternion that stands for a rotation should have it, and
/// `is_unit` and `normalize` are there to test and restore it.
#[derive(Clone, Copy, Debug)]
pub struct Quaternion {
    q: [u32; 4],
}

impl View for Quaternion {
    type V = Seq<u32>;

    /// The components in the order `[w, x, y, z]`.
    closed spec fn view(&self) -> Seq<u32> {
        self.q@
    }
}

/// The components of the conjugate: the vector part changes sign.
pub open spec fn conjugated(q: Seq<u32>) -> Seq<u32> {
    seq![q[0], negated(q[1]), negated(q[2]), negated(q[3])]
}

/// The pure quaternion of the vector `v`: scalar part zero, vector part `v`.
pub open spec fn embedded(v: Seq<u32>) -> Seq<u32> {
    seq![ZERO, v[0], v[1], v[2]]
}

/// Whether two quaternions are equal as numbers, component by component.
/// A NaN component equals nothing, and the two zeros equal each other.
pub open spec fn same_components(a: Seq<u32>, b: Seq<u32>) -> bool {
    same_number(a[0], b[0]) && same_number(a[1], b[1]) && same_number(a[2], b[2]) && same_number(
        a[3],
        b[3],
    )
}

/// Whether normalization divides by the norm: the quaternion is not yet of
/// unit length, and its norm is positive. `gap` is the rounded difference
/// `1 - (w² + x² + y² + z²)`, `norm` the rounded square root of that sum.
pub open spec fn rescales(gap: u32, norm: u32) -> bool {
    !below_epsilon(gap) && positive(norm)
}

/// The entry at (`row`, `col`) of the left-multiplication matrix of `q`.
pub open spec fn matrix_entry(q: Seq<u32>, row: int, col: int) -> u32 {
    if flipped(row, col) {
        negated(q[source(row, col)])
    } else {
        q[source(row, col)]
    }
}

/// Conjugating twice gives the quaternion back, bit for bit.
pub proof fn lemma_conjugate_involution(q: Seq<u32>)
    requires
        q.len() == 4,
    ensures
        conjugated(conjugated(q)) == q,
{
}

impl Quaternion {
    /// Every quaternion has exactly four components.
    pub proof fn lemma_four_components(self)
        ensures
            self@.len() == 4,
    {
    }

    /// Makes a quaternion of the four components `[w, x, y, z]`.
    pub fn new(q: Vec<u32>) -> (r: Self)
        requires
            q@.len() == 4,
        ensures
            r@ == q@,
    {
        Quaternion { q: [q[0], q[1], q[2], q[3]] }
    }

    /// Makes the quaternion `w + xi + yj + zk`.
    pub fn from_wxyz(w: u32, x: u32, y: u32, z: u32) -> (r: Self)
        ensures
            r@ == seq![w, x, y, z],
    {
        Quaternion { q: [w, x, y, z] }
    }

    /// Embeds the vector `v` as a pure quaternion.
    pub fn from_vector(v: &[u32]) -> (r: Self)
        requires
            v@.len() == 3,
        ensures
            r@ == embedded(v@),
    {
        Quaternion { q: [ZERO, v[0], v[1], v[2]] }
    }

    /// The scalar part `w`.
    pub fn scalar(&self) -> (r: u32)
        ensures
            r == self@[0],
    {
        self.q[0]
    }

    /// The vector part `(x, y, z)`, in a container of its own.
    pub fn vector(&self) -> (r: Vec<u32>)
        ensures
            r@ == self@.subrange(1, 4),
    {
        let mut r: Vec<u32> = Vec::new();
        r.push(self.q[1]);
        r.push(self.q[2]);
        r.push(self.q[3]);
        r
    }

    /// The vector part `(x, y, z)`; the counterpart of `from_vector`.
    pub fn to_vector(&self) -> (r: Vec<u32>)
        ensures
            r@ == self@.subrange(1, 4),
    {
        self.vector()
    }

    /// Gives up the quaternion for its four components `[w, x, y, z]`.
    pub fn to_array(self) -> (r: Vec<u32>)
        ensures
            r@ == self@,
    {
        let mut r: Vec<u32> = Vec::new();
        r.push(self.q[0]);
        r.push(self.q[1]);
        r.push(self.q[2]);
        r.push(self.q[3]);
        r
    }

    /// The conjugate `[w, -x, -y, -z]`.
    pub fn conjugate(&self) -> (r: Self)
        ensures
            r@ == conjugated(self@),
            conjugated(r@) == self@,
    {
        Quaternion { q: [self.q[0], negate(self.q[1]), negate(self.q[2]), negate(self.q[3])] }
    }

    /// Whether a quaternion is of unit length, told from `gap`, the rounded
    /// difference `1 - (w² + x² + y² + z²)`: it is when `|gap|` is below
    /// machine epsilon. So it is wherever the sum of squares is exactly one.
    pub fn is_unit(gap: u32) -> (r: bool)
        ensures
            r == below_epsilon(gap),
            zero(gap) ==> r,
    {
        is_below_epsilon(gap)
    }

    /// Normalizes in place. `gap` is the rounded difference
    /// `1 - (w² + x² + y² + z²)`, `norm` the rounded square root of that sum,
    /// and `quotient` the quaternion with every component divided by `norm`.
    ///
    /// A quaternion of unit length stays as it is. So does one whose norm is
    /// not positive: the zero quaternion stays zero. Any other becomes
    /// `quotient`.
    pub fn normalize(&mut self, gap: u32, norm: u32, quotient: &Quaternion)
        ensures
            *final(self) == if rescales(gap, norm) {
                *quotient
            } else {
                *old(self)
            },
            below_epsilon(gap) ==> *final(self) == *old(self),
            !positive(norm) ==> *final(self) == *old(self),
    {
        if !Self::is_unit(gap) {
            if is_positive(norm) {
                *self = *quotient;
            }
        }
    }

    /// The normalized quaternion, with `self` left as it is. The arguments
    /// are those of `normalize`.
    pub fn normalized(&self, gap: u32, norm: u32, quotient: &Quaternion) -> (r: Self)
        ensures
            r == if rescales(gap, norm) {
                *quotient
            } else {
                *self
            },
    {
        let mut quat = *self;
        quat.normalize(gap, norm, quotient);
        quat
    }

    /// The same as `normalized`.
    pub fn unit(&self, gap: u32, norm: u32, quotient: &Quaternion) -> (r: Self)
        ensures
            r == if rescales(gap, norm) {
                *quotient
            } else {
                *self
            },
    {
        self.normalized(gap, norm, quotient)
    }

    /// The left-multiplication matrix, row by row.
    pub fn q_matrix(&self) -> (m: [[u32; 4]; 4])
        ensures
            forall|row: int, col: int|
                #![trigger m[row][col]]
                #![trigger matrix_entry(self@, row, col)]
                0 <= row < 4 && 0 <= col < 4 ==> m[row][col] == matrix_entry(self@, row, col),
    {
        let w: u32 = self.q[0];
        let x: u32 = self.q[1];
        let y: u32 = self.q[2];
        let z: u32 = self.q[3];
        let nx: u32 = negate(x);
        let ny: u32 = negate(y);
        let nz: u32 = negate(z);
        [[w, nx, ny, nz], [x, w, nz, y], [y, z, w, nx], [z, ny, x, w]]
    }
}

impl PartialEq for Quaternion {
    /// Equality of numbers, component by component.
    fn eq(&self, other: &Self) -> (r: bool) {
        equal(self.q[0], other.q[0]) && equal(self.q[1], other.q[1]) && equal(
            self.q[2],
            other.q[2],
        ) && equal(self.q[3], other.q[3])
    }
}

impl vstd::std_specs::cmp::PartialEqSpecImpl for Quaternion {
    open spec fn obeys_eq_spec() -> bool {
        true
    }

    open spec fn eq_spec(&self, other: &Self) -> bool {
        same_components(self@, other@)
    }
}

} // verus!
