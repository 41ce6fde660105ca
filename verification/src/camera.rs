//! The camera: a resolution, and the float quantities that the ray
//! generation stage reads, carried as bit patterns.

use vstd::prelude::*;
use crate::error::ConstructionError;

verus! {

/// The number of words in the camera record.
pub const CAMERA_WORDS: usize = 23;

/// The number of bytes in the camera record.
pub const CAMERA_STRIDE: usize = 92;

/// The float quantities of a camera, each as the bit pattern of a
/// single-precision float. They are derived from the resolution by
/// floating-point trigonometry, which is done outside this library.
#[derive(Clone, Copy, Debug)]
pub struct Optics {
    /// The angular width and height of one pixel.
    pub pixel_length: [u32; 2],
    /// Where the camera stands.
    pub position: [u32; 3],
    /// Width over height.
    pub aspect_ratio: u32,
    /// The point that the camera looks at.
    pub at: [u32; 3],
    /// The horizontal field of view, in degrees.
    pub fovx: u32,
    /// The up vector of the view basis.
    pub up: [u32; 3],
    /// The vertical field of view, in degrees.
    pub fovy: u32,
    /// The right vector of the view basis.
    pub right: [u32; 3],
    /// The forward vector of the view basis.
    pub view_dir: [u32; 3],
}

/// A camera, built once for a resolution and not changed afterwards.
#[derive(Clone, Copy, Debug)]
pub struct Camera {
    resolution: [u32; 2],
    optics: Optics,
}

impl Camera {
    /// The number of pixels in a row.
    pub closed spec fn width(&self) -> u32 {
        self.resolution[0]
    }

    /// The number of rows.
    pub closed spec fn height(&self) -> u32 {
        self.resolution[1]
    }

    /// The float quantities that the camera was built with.
    pub closed spec fn spec_optics(&self) -> Optics {
        self.optics
    }

    /// The camera record in memory order. The word before the forward vector
    /// is padding and holds zero.
    pub open spec fn layout(&self) -> Seq<u32> {
        let o = self.spec_optics();
        seq![
            self.width(),
            self.height(),
            o.pixel_length[0],
            o.pixel_length[1],
            o.position[0],
            o.position[1],
            o.position[2],
            o.aspect_ratio,
            o.at[0],
            o.at[1],
            o.at[2],
            o.fovx,
            o.up[0],
            o.up[1],
            o.up[2],
            o.fovy,
            o.right[0],
            o.right[1],
            o.right[2],
            0u32,
            o.view_dir[0],
            o.view_dir[1],
            o.view_dir[2],
        ]
    }

    /// The camera for a window of `width` by `height` pixels. A resolution
    /// with a zero dimension is refused.
    pub fn new(width: u32, height: u32, optics: Optics) -> (made: Result<Camera, ConstructionError>)
        ensures
            match made {
                Ok(camera) => {
                    &&& width > 0
                    &&& height > 0
                    &&& camera.width() == width
                    &&& camera.height() == height
                    &&& camera.spec_optics() == optics
                },
                Err(e) => (width == 0 || height == 0) && e == ConstructionError::InvalidResolution,
            },
    {
        if width == 0 || height == 0 {
            return Err(ConstructionError::InvalidResolution);
        }
        Ok(Camera { resolution: [width, height], optics })
    }

    /// The number of pixels in a row.
    pub fn res_x(&self) -> (x: u32)
        ensures
            x == self.width(),
    {
        self.resolution[0]
    }

    /// The number of rows.
    pub fn res_y(&self) -> (y: u32)
        ensures
            y == self.height(),
    {
        self.resolution[1]
    }

    /// The float quantities that the camera was built with.
    pub fn optics(&self) -> (optics: Optics)
        ensures
            optics == self.spec_optics(),
    {
        self.optics
    }

    /// The camera record in memory order.
    pub fn words(&self) -> (words: Vec<u32>)
        ensures
            words@ == self.layout(),
            words@.len() == CAMERA_WORDS,
    {
        let o = &self.optics;
        let words = vec![
            self.resolution[0],
            self.resolution[1],
            o.pixel_length[0],
            o.pixel_length[1],
            o.position[0],
            o.position[1],
            o.position[2],
            o.aspect_ratio,
            o.at[0],
            o.at[1],
            o.at[2],
            o.fovx,
            o.up[0],
            o.up[1],
            o.up[2],
            o.fovy,
            o.right[0],
            o.right[1],
            o.right[2],
            0u32,
            o.view_dir[0],
            o.view_dir[1],
            o.view_dir[2],
        ];
        assert(words@ =~= self.layout());
        words
    }
}

} // verus!
