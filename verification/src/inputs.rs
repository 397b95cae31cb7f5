use vstd::prelude::*;

use crate::maths_utils::{div_trunc, FP_MAX, FP_SCALE};

verus! {

/// A snapshot of the pointer state, valid for one tick: the pointer position
/// in fixed-point canvas pixels, and the canvas size in whole pixels.
#[derive(Debug, Clone, Copy, PartialEq, Eq, Structural)]
pub struct InputBinding {
    pub mouse_x: i64,
    pub mouse_y: i64,
    pub canvas_width: u32,
    pub canvas_height: u32,
}

impl InputBinding {
    /// The pointer's horizontal position in fixed-point pixels.
    pub fn get_mouse_x(&self) -> (r: i64)
        ensures
            r == self.mouse_x,
    {
        self.mouse_x
    }

    /// The pointer's vertical position in fixed-point pixels.
    pub fn get_mouse_y(&self) -> (r: i64)
        ensures
            r == self.mouse_y,
    {
        self.mouse_y
    }

    /// The viewport-relative horizontal position: the pixel position divided
    /// by the canvas width, less half the canvas width.
    pub fn get_mouse_view_x(&self) -> (r: i64)
        requires
            self.canvas_width >= 1,
            -FP_MAX <= self.mouse_x <= FP_MAX,
        ensures
            r == div_trunc(self.mouse_x as int, self.canvas_width as int) - self.canvas_width as int
                * FP_SCALE as int / 2,
    {
        self.mouse_x / (self.canvas_width as i64) - (self.canvas_width as i64) * FP_SCALE / 2
    }

    /// The viewport-relative vertical position: the pixel position divided
    /// by the canvas height, less half the canvas height.
    pub fn get_mouse_view_y(&self) -> (r: i64)
        requires
            self.canvas_height >= 1,
            -FP_MAX <= self.mouse_y <= FP_MAX,
        ensures
            r == div_trunc(self.mouse_y as int, self.canvas_height as int)
                - self.canvas_height as int * FP_SCALE as int / 2,
    {
        self.mouse_y / (self.canvas_height as i64) - (self.canvas_height as i64) * FP_SCALE / 2
    }
}

} // verus!
