//! The scene: geometry primitives in a fixed order. The place of a primitive
//! in the order is the index under which intersection results name it.

use vstd::prelude::*;
use crate::data_types::GeomType;
use crate::data_types::Geometry;
use crate::data_types::Mat4;
use crate::data_types::GEOMETRY_WORDS;
use crate::error::ConstructionError;

verus! {

/// The bit pattern of the float 1.
pub const ONE: u32 = 0x3f80_0000;

/// The bit pattern of the float -1.
pub const MINUS_ONE: u32 = 0xbf80_0000;

/// One entry of the list that a scene is built from: a kind, a transform,
/// and what inverting the transform gave.
#[derive(Clone, Copy, Debug)]
pub struct Primitive {
    pub ty: GeomType,
    pub transf: Mat4,
    pub inverse: Option<Mat4>,
}

/// An ordered collection of geometry primitives.
pub struct Scene {
    pub geometry: Vec<Geometry>,
}

/// Whether `g` is the record of the entry `p`.
pub open spec fn built_from(g: Geometry, p: Primitive) -> bool {
    &&& p.inverse is Some
    &&& g.ty == p.ty
    &&& g.transf == p.transf
    &&& g.inverse == p.inverse->0
    &&& g.wf()
}

/// The records of `geometry` one after the other, in order.
pub open spec fn scene_words(geometry: Seq<Geometry>) -> Seq<u32> {
    Seq::new(
        GEOMETRY_WORDS as nat * geometry.len(),
        |k: int| geometry[k / GEOMETRY_WORDS as int].words()[k % GEOMETRY_WORDS as int],
    )
}

impl Scene {
    /// Whether every record's third matrix is its second with rows and
    /// columns exchanged.
    pub open spec fn wf(&self) -> bool {
        forall|i: int| 0 <= i < self.geometry@.len() ==> (#[trigger] self.geometry@[i]).wf()
    }

    /// The transform of the default scene's sphere: unit scale, moved one
    /// unit along the forward axis.
    pub open spec fn default_transform() -> [[u32; 4]; 4] {
        [[ONE, 0, 0, 0], [0, ONE, 0, 0], [0, 0, ONE, 0], [0, 0, ONE, ONE]]
    }

    /// The inverse of the default transform: one unit back.
    pub open spec fn default_inverse() -> [[u32; 4]; 4] {
        [[ONE, 0, 0, 0], [0, ONE, 0, 0], [0, 0, ONE, 0], [0, 0, MINUS_ONE, ONE]]
    }

    /// The default scene: one sphere of unit scale, one unit along the
    /// forward axis.
    pub fn new() -> (scene: Scene)
        ensures
            scene.geometry@.len() == 1,
            scene.geometry@[0].ty == GeomType::Sphere,
            scene.geometry@[0].transf.cols == Scene::default_transform(),
            scene.geometry@[0].inverse.cols == Scene::default_inverse(),
            scene.wf(),
    {
        let transf = Mat4::from_cols(
            [[ONE, 0, 0, 0], [0, ONE, 0, 0], [0, 0, ONE, 0], [0, 0, ONE, ONE]],
        );
        let inverse = Mat4::from_cols(
            [[ONE, 0, 0, 0], [0, ONE, 0, 0], [0, 0, ONE, 0], [0, 0, MINUS_ONE, ONE]],
        );
        let transp_inv = inverse.transpose();
        let mut geometry: Vec<Geometry> = Vec::new();
        geometry.push(Geometry { transf, inverse, transp_inv, ty: GeomType::Sphere });
        Scene { geometry }
    }

    /// The scene of the given primitives, in the given order. Construction
    /// fails exactly where some transform has no inverse.
    pub fn from_primitives(primitives: &Vec<Primitive>) -> (made: Result<Scene, ConstructionError>)
        ensures
            match made {
                Ok(scene) => {
                    &&& scene.geometry@.len() == primitives@.len()
                    &&& forall|i: int|
                        0 <= i < primitives@.len() ==> built_from(
                            #[trigger] scene.geometry@[i],
                            primitives@[i],
                        )
                    &&& scene.wf()
                },
                Err(e) => {
                    &&& e == ConstructionError::SingularTransform
                    &&& exists|i: int|
                        0 <= i < primitives@.len() && (#[trigger] primitives@[i]).inverse is None
                },
            },
    {
        let mut geometry: Vec<Geometry> = Vec::new();
        let mut i: usize = 0;
        while i < primitives.len()
            invariant
                i <= primitives@.len(),
                geometry@.len() == i,
                forall|j: int|
                    0 <= j < i ==> built_from(#[trigger] geometry@[j], primitives@[j]),
            decreases primitives@.len() - i,
        {
            let p = &primitives[i];
            match Geometry::new(p.ty, p.transf, p.inverse) {
                Ok(g) => {
                    geometry.push(g);
                },
                Err(e) => {
                    return Err(e);
                },
            }
            i = i + 1;
        }
        Ok(Scene { geometry })
    }

    /// The records of the scene one after the other, in order.
    pub fn words(&self) -> (words: Vec<u32>)
        ensures
            words@ == scene_words(self.geometry@),
            words@.len() == GEOMETRY_WORDS * self.geometry@.len(),
    {
        let mut words: Vec<u32> = Vec::new();
        let mut i: usize = 0;
        while i < self.geometry.len()
            invariant
                i <= self.geometry@.len(),
                words@ == scene_words(self.geometry@.take(i as int)),
            decreases self.geometry@.len() - i,
        {
            let ghost before = words@;
            self.geometry[i].write_words(&mut words);
            assert(words@ =~= scene_words(self.geometry@.take(i as int + 1))) by {
                let s0 = self.geometry@.take(i as int);
                let s1 = self.geometry@.take(i as int + 1);
                assert forall|k: int| 0 <= k < 49 * (i + 1) implies words@[k] == scene_words(s1)[k] by {
                    if k < 49 * i {
                        assert(before[k] == scene_words(s0)[k]);
                        assert(s0[k / 49] == s1[k / 49]);
                    } else {
                        assert(k / 49 == i);
                        assert(words@[k] == self.geometry@[i as int].words()[k - 49 * i]);
                    }
                }
            }
            i = i + 1;
        }
        assert(self.geometry@.take(i as int) =~= self.geometry@);
        words
    }
}

} // verus!
