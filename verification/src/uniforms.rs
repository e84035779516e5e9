//! The camera's uniform record.

use crate::bytes::{native_bytes, words_to_bytes};
use vstd::prelude::*;

verus! {

/// Bit pattern of the 32-bit float 1.0.
pub const ONE: u32 = 0x3f80_0000;

/// Number of bytes in the camera's uniform record.
pub const CAMERA_UNIFORM_SIZE: usize = 80;

/// What the shaders read of the camera: the position of the eye in
/// homogeneous coordinates and the product of projection and view. Each entry
/// is the bit pattern of a 32-bit float.
#[derive(Clone, Copy, Debug, PartialEq, Eq)]
pub struct CameraUniform {
    view_position: [u32; 4],
    view_proj: [[u32; 4]; 4],
}

/// The record as contracts see it.
pub struct CameraUniformView {
    pub view_position: Seq<u32>,
    /// The four vectors of the matrix, one after the other.
    pub view_proj: Seq<u32>,
}

impl View for CameraUniform {
    type V = CameraUniformView;

    closed spec fn view(&self) -> CameraUniformView {
        CameraUniformView {
            view_position: self.view_position@,
            view_proj: Seq::new(16, |i: int| self.view_proj[i / 4][i % 4]),
        }
    }
}

impl CameraUniformView {
    /// The eye at the zero vector and the identity as matrix.
    pub open spec fn initial() -> CameraUniformView {
        CameraUniformView {
            view_position: Seq::new(4, |i: int| 0u32),
            view_proj: Seq::new(
                16,
                |i: int|
                    if i / 4 == i % 4 {
                        ONE
                    } else {
                        0u32
                    },
            ),
        }
    }

    /// The record made of a position and of the four vectors of a matrix.
    pub open spec fn of(view_position: [u32; 4], view_proj: [[u32; 4]; 4]) -> CameraUniformView {
        CameraUniformView {
            view_position: view_position@,
            view_proj: Seq::new(16, |i: int| view_proj[i / 4][i % 4]),
        }
    }

    /// The record's words in memory order: the position, then the matrix.
    pub open spec fn words(self) -> Seq<u32> {
        self.view_position + self.view_proj
    }
}

impl CameraUniform {
    /// The record before the camera is known: `CameraUniformView::initial`.
    pub fn new() -> (uniform: CameraUniform)
        ensures
            uniform@ == CameraUniformView::initial(),
    {
        let uniform = CameraUniform {
            view_position: [0, 0, 0, 0],
            view_proj: [[ONE, 0, 0, 0], [0, ONE, 0, 0], [0, 0, ONE, 0], [0, 0, 0, ONE]],
        };
        assert(uniform@.view_position == CameraUniformView::initial().view_position);
        assert(uniform@.view_proj == CameraUniformView::initial().view_proj);
        uniform
    }

    /// Takes over the eye's position and the product of projection and view.
    pub fn update_view_proj(&mut self, view_position: [u32; 4], view_proj: [[u32; 4]; 4])
        ensures
            final(self)@ == CameraUniformView::of(view_position, view_proj),
    {
        self.view_position = view_position;
        self.view_proj = view_proj;
    }

    /// The contents of the camera's uniform buffer.
    pub fn bytes(&self) -> (bytes: Vec<u8>)
        ensures
            bytes@ == native_bytes(self@.words()),
            bytes@.len() == CAMERA_UNIFORM_SIZE,
    {
        let mut words: Vec<u32> = Vec::new();
        let mut i: usize = 0;
        while i < 4
            invariant
                i <= 4,
                words@ == self@.words().take(i as int),
            decreases 4 - i,
        {
            words.push(self.view_position[i]);
            i += 1;
        }
        let mut row: usize = 0;
        while row < 4
            invariant
                row <= 4,
                words@ == self@.words().take(4 + 4 * row),
            decreases 4 - row,
        {
            let mut col: usize = 0;
            while col < 4
                invariant
                    row < 4,
                    col <= 4,
                    words@ == self@.words().take(4 + 4 * row + col),
                decreases 4 - col,
            {
                words.push(self.view_proj[row][col]);
                col += 1;
            }
            row += 1;
        }
        words_to_bytes(words.as_slice())
    }
}

impl Default for CameraUniform {
    fn default() -> (uniform: CameraUniform)
        ensures
            uniform@ == CameraUniformView::initial(),
    {
        CameraUniform::new()
    }
}

} // verus!
