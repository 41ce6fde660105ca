//! The records that live in device memory: geometry primitives, rays and
//! intersection records. Each is a fixed run of 32-bit words; a word that the
//! shaders read as a float holds the float's bit pattern.

use vstd::prelude::*;
use crate::error::ConstructionError;

verus! {

/// The closed set of primitive kinds.
#[derive(Clone, Copy, Debug, PartialEq, Eq, Structural)]
pub enum GeomType {
    Sphere,
    Box,
    Triangle,
}

impl GeomType {
    /// The tag under which the shaders know the kind.
    pub open spec fn spec_bits(&self) -> u32 {
        match *self {
            GeomType::Sphere => 1,
            GeomType::Box => 2,
            GeomType::Triangle => 4,
        }
    }

    /// The tag under which the shaders know the kind.
    #[verifier::when_used_as_spec(spec_bits)]
    pub fn bits(&self) -> (tag: u32)
        ensures
            tag == self.spec_bits(),
    {
        match self {
            GeomType::Sphere => 1,
            GeomType::Box => 2,
            GeomType::Triangle => 4,
        }
    }

    /// The kind that a tag stands for, if it stands for one.
    pub fn from_bits(tag: u32) -> (kind: Option<GeomType>)
        ensures
            match kind {
                Some(k) => k.bits() == tag,
                None => tag != 1 && tag != 2 && tag != 4,
            },
    {
        if tag == 1 {
            Some(GeomType::Sphere)
        } else if tag == 2 {
            Some(GeomType::Box)
        } else if tag == 4 {
            Some(GeomType::Triangle)
        } else {
            None
        }
    }
}

/// A 4x4 matrix of float bit patterns, stored column by column.
#[derive(Clone, Copy, Debug)]
pub struct Mat4 {
    pub cols: [[u32; 4]; 4],
}

impl Mat4 {
    /// The entry in column `c` and row `r`.
    pub open spec fn at(&self, c: int, r: int) -> u32 {
        self.cols[c][r]
    }

    /// Whether the two matrices hold the same sixteen entries.
    pub open spec fn same(&self, other: &Mat4) -> bool {
        forall|c: int, r: int| 0 <= c < 4 && 0 <= r < 4 ==> self.at(c, r) == other.at(c, r)
    }

    /// Whether `self` is `other` with rows and columns exchanged.
    pub open spec fn is_transpose_of(&self, other: &Mat4) -> bool {
        forall|c: int, r: int| 0 <= c < 4 && 0 <= r < 4 ==> self.at(c, r) == other.at(r, c)
    }

    /// The sixteen entries in memory order: column by column.
    pub open spec fn words(&self) -> Seq<u32> {
        Seq::new(16, |k: int| self.at(k / 4, k % 4))
    }

    /// The matrix with the given columns.
    pub fn from_cols(cols: [[u32; 4]; 4]) -> (m: Mat4)
        ensures
            m.cols == cols,
    {
        Mat4 { cols }
    }

    /// The matrix with rows and columns exchanged. No entry is computed with:
    /// each bit pattern moves as it is.
    pub fn transpose(&self) -> (t: Mat4)
        ensures
            t.is_transpose_of(self),
    {
        let m = &self.cols;
        Mat4 {
            cols: [
                [m[0][0], m[1][0], m[2][0], m[3][0]],
                [m[0][1], m[1][1], m[2][1], m[3][1]],
                [m[0][2], m[1][2], m[2][2], m[3][2]],
                [m[0][3], m[1][3], m[2][3], m[3][3]],
            ],
        }
    }

    /// Appends the sixteen entries to `out` in memory order.
    pub fn write_words(&self, out: &mut Vec<u32>)
        ensures
            final(out)@ == old(out)@ + self.words(),
    {
        let m = &self.cols;
        let ghost before = out@;
        out.push(m[0][0]);
        out.push(m[0][1]);
        out.push(m[0][2]);
        out.push(m[0][3]);
        out.push(m[1][0]);
        out.push(m[1][1]);
        out.push(m[1][2]);
        out.push(m[1][3]);
        out.push(m[2][0]);
        out.push(m[2][1]);
        out.push(m[2][2]);
        out.push(m[2][3]);
        out.push(m[3][0]);
        out.push(m[3][1]);
        out.push(m[3][2]);
        out.push(m[3][3]);
        assert(out@ =~= before + self.words());
    }
}

/// Exchanging rows and columns twice gives the matrix back.
pub proof fn lemma_transpose_involution(m: Mat4, t: Mat4, tt: Mat4)
    requires
        t.is_transpose_of(&m),
        tt.is_transpose_of(&t),
    ensures
        tt.same(&m),
{
}

/// The number of words in a geometry record.
pub const GEOMETRY_WORDS: usize = 49;

/// The number of bytes in a geometry record.
pub const GEOMETRY_STRIDE: usize = 196;

/// A geometry primitive as the shaders read it: its kind, its model-to-world
/// transform, the inverse of the transform, and the transpose of the inverse,
/// with which normals are carried over under non-uniform scale.
#[derive(Clone, Copy, Debug)]
pub struct Geometry {
    pub transf: Mat4,
    pub inverse: Mat4,
    pub transp_inv: Mat4,
    pub ty: GeomType,
}

impl Geometry {
    /// The part of the record's invariant that is a matter of layout: the
    /// third matrix is the second with rows and columns exchanged.
    pub open spec fn wf(&self) -> bool {
        self.transp_inv.is_transpose_of(&self.inverse)
    }

    /// The record in memory order: the three matrices, then the kind's tag.
    pub open spec fn words(&self) -> Seq<u32> {
        self.transf.words() + self.inverse.words() + self.transp_inv.words() + seq![self.ty.bits()]
    }

    /// The primitive of kind `ty` under `transf`. `inverse` is what inverting
    /// `transf` gave: the inverse, or nothing where `transf` has none.
    /// Construction fails exactly where there is no inverse.
    pub fn new(ty: GeomType, transf: Mat4, inverse: Option<Mat4>) -> (made: Result<
        Geometry,
        ConstructionError,
    >)
        ensures
            match made {
                Ok(g) => {
                    &&& inverse is Some
                    &&& g.ty == ty
                    &&& g.transf == transf
                    &&& g.inverse == inverse->0
                    &&& g.wf()
                },
                Err(e) => inverse is None && e == ConstructionError::SingularTransform,
            },
    {
        match inverse {
            Some(inv) => {
                let transp_inv = inv.transpose();
                Ok(Geometry { transf, inverse: inv, transp_inv, ty })
            },
            None => Err(ConstructionError::SingularTransform),
        }
    }

    /// Appends the record to `out` in memory order.
    pub fn write_words(&self, out: &mut Vec<u32>)
        ensures
            final(out)@ == old(out)@ + self.words(),
            self.words().len() == GEOMETRY_WORDS,
    {
        let ghost before = out@;
        self.transf.write_words(out);
        self.inverse.write_words(out);
        self.transp_inv.write_words(out);
        out.push(self.ty.bits());
        assert(out@ =~= before + self.words());
    }
}

/// The number of bytes in a ray record.
pub const RAY_STRIDE: usize = 32;

/// One ray: where it starts and where it points. Each vector is padded to
/// four words, as the shaders' layout asks.
#[derive(Clone, Copy, Debug)]
pub struct Ray {
    pub origin: [u32; 3],
    pub _padding: u32,
    pub direction: [u32; 3],
    pub _more_padding: u32,
}

/// The number of bytes in an intersection record.
pub const INTERSECTION_STRIDE: usize = 16;

/// What one ray met: the surface normal at the hit and the distance along the
/// ray, or a miss.
#[derive(Clone, Copy, Debug)]
pub struct Intersection {
    pub surface_normal: [u32; 3],
    pub t: u32,
}

/// The distance of a miss: the bit pattern of the float -1.
pub const MISS_DISTANCE: u32 = 0xbf80_0000;

/// The bit pattern of positive infinity: every positive finite float has a
/// smaller pattern.
pub const INFINITE_DISTANCE: u32 = 0x7f80_0000;

impl Intersection {
    /// Whether the record is a hit: its distance is positive and finite.
    /// Among such distances the smaller float has the smaller bit pattern, so
    /// hits are compared by their patterns.
    pub open spec fn spec_is_hit(&self) -> bool {
        0 < self.t < INFINITE_DISTANCE
    }

    /// Whether the record is a hit.
    #[verifier::when_used_as_spec(spec_is_hit)]
    pub fn is_hit(&self) -> (hit: bool)
        ensures
            hit == self.spec_is_hit(),
    {
        0 < self.t && self.t < INFINITE_DISTANCE
    }

    /// The record of a ray that met nothing.
    pub fn miss() -> (record: Intersection)
        ensures
            record.t == MISS_DISTANCE,
            record.surface_normal@ == seq![0u32, 0u32, 0u32],
            !record.is_hit(),
    {
        let record = Intersection { surface_normal: [0, 0, 0], t: MISS_DISTANCE };
        assert(record.surface_normal@ =~= seq![0u32, 0u32, 0u32]);
        record
    }

    /// Whether candidate `i` is taken before candidate `j`: it is nearer, or
    /// as near and not later in the scene.
    pub open spec fn comes_first(candidates: Seq<Intersection>, i: int, j: int) -> bool {
        candidates[i].t < candidates[j].t || (candidates[i].t == candidates[j].t && i <= j)
    }

    /// Whether candidate `i` is the one that a ray resolves to: it is a hit,
    /// no hit is nearer, and no hit at the same distance comes earlier.
    pub open spec fn resolves_to(candidates: Seq<Intersection>, i: int) -> bool {
        &&& 0 <= i < candidates.len()
        &&& candidates[i].is_hit()
        &&& forall|j: int|
            0 <= j < candidates.len() && (#[trigger] candidates[j]).is_hit()
                ==> Intersection::comes_first(candidates, i, j)
    }

    /// The index of the nearest hit among `candidates`, where candidate `i`
    /// is what the ray met on primitive `i` of the scene. Of several hits at
    /// the same distance the one with the lowest index is taken. `None`
    /// means that no candidate is a hit.
    pub fn closest(candidates: &Vec<Intersection>) -> (found: Option<usize>)
        ensures
            match found {
                Some(i) => Intersection::resolves_to(candidates@, i as int),
                None => forall|j: int|
                    0 <= j < candidates@.len() ==> !(#[trigger] candidates@[j]).is_hit(),
            },
    {
        let mut found: Option<usize> = None;
        let mut k: usize = 0;
        while k < candidates.len()
            invariant
                k <= candidates@.len(),
                match found {
                    Some(i) => Intersection::resolves_to(candidates@.take(k as int), i as int),
                    None => forall|j: int| 0 <= j < k ==> !(#[trigger] candidates@[j]).is_hit(),
                },
            decreases candidates@.len() - k,
        {
            let ghost seen = candidates@.take(k as int);
            let ghost next = candidates@.take(k as int + 1);
            let c = &candidates[k];
            if c.is_hit() {
                let nearer = match found {
                    Some(i) => c.t < candidates[i].t,
                    None => true,
                };
                if nearer {
                    found = Some(k);
                }
            }
            proof {
                if let Some(i) = found {
                    assert forall|j: int|
                        0 <= j < next.len() && (#[trigger] next[j]).is_hit() implies Intersection::comes_first(
                        next,
                        i as int,
                        j,
                    ) by {
                        if j < k {
                            assert(seen[j].is_hit());
                        }
                    }
                }
            }
            k = k + 1;
        }
        assert(candidates@.take(k as int) =~= candidates@);
        found
    }

    /// The record that a ray resolves to: the nearest hit among
    /// `candidates`, or the miss record where there is none.
    pub fn resolve(candidates: &Vec<Intersection>) -> (record: Intersection)
        ensures
            record.is_hit() <==> exists|j: int|
                0 <= j < candidates@.len() && (#[trigger] candidates@[j]).is_hit(),
            record.is_hit() ==> exists|i: int|
                Intersection::resolves_to(candidates@, i) && record == #[trigger] candidates@[i],
            !record.is_hit() ==> record.t == MISS_DISTANCE && record.surface_normal@ == seq![
                0u32,
                0u32,
                0u32,
            ],
    {
        match Intersection::closest(candidates) {
            Some(i) => candidates[i],
            None => Intersection::miss(),
        }
    }
}

/// A ray resolves to at most one candidate.
pub proof fn lemma_resolution_is_unique(candidates: Seq<Intersection>, i: int, j: int)
    requires
        Intersection::resolves_to(candidates, i),
        Intersection::resolves_to(candidates, j),
    ensures
        i == j,
{
}

/// Of two hits at the same distance, the ray does not resolve to the one
/// with the higher index: a tie goes to the lower index.
pub proof fn lemma_tie_goes_to_lower_index(candidates: Seq<Intersection>, i: int, j: int)
    requires
        0 <= i < j < candidates.len(),
        candidates[i].is_hit(),
        candidates[j].is_hit(),
        candidates[i].t == candidates[j].t,
    ensures
        !Intersection::resolves_to(candidates, j),
{
}

/// The ray resolves to a candidate that is a hit, is at least as near as
/// every other hit, and comes before every other hit at its distance.
pub proof fn lemma_resolution_is_nearest(candidates: Seq<Intersection>, i: int, j: int)
    requires
        Intersection::resolves_to(candidates, i),
        0 <= j < candidates.len(),
        candidates[j].is_hit(),
    ensures
        candidates[i].t <= candidates[j].t,
        candidates[i].t == candidates[j].t ==> i <= j,
{
}

} // verus!
