use vstd::prelude::*;
use crate::config::{ConfigError, RenderConfig, valid_config};
use crate::geometry::{Cursor, Plottable, Point};
use crate::orbit::{overlay_ok, trace, traceable};
use crate::palette::{color_of, map_color};
use crate::raster::{frame_bytes, render};

verus! {

/// The factor that scales the plane's extent (3 by 2) to the window's size
/// in pixels.
pub const SCALING_FACTOR: usize = 350;

/// The width of the window, in pixels.
pub const W: usize = 3 * SCALING_FACTOR;

/// The height of the window, in pixels.
pub const H: usize = 2 * SCALING_FACTOR;

/// The largest number of iterations counted per pixel, and the largest
/// number of orbit points drawn over the fractal.
pub const ESCAPE_POINT: usize = 128;

/// The state of the fractal view on a `W` by `H` window: the validated
/// frame configuration and the last pointer position inside the window.
pub struct MandelPlane<const W: usize, const H: usize> {
    cursor: Cursor,
    config: RenderConfig,
}

impl<const W: usize, const H: usize> MandelPlane<W, H> {
    #[verifier::type_invariant]
    spec fn inv(&self) -> bool {
        &&& self.config.spec_width() == W
        &&& self.config.spec_height() == H
        &&& self.config.spec_escape_budget() == ESCAPE_POINT
        &&& self.cursor.coords().0 < W
        &&& self.cursor.coords().1 < H
    }

    /// The pointer position held by the view.
    pub closed spec fn spec_cursor(&self) -> (usize, usize) {
        self.cursor.coords()
    }

    /// The frame configuration of the view.
    pub closed spec fn spec_config(&self) -> RenderConfig {
        self.config
    }

    /// A view with the pointer at `(0, 0)`, or the reason why a `W` by `H`
    /// frame with a budget of `ESCAPE_POINT` cannot be rendered.
    pub fn new() -> (r: Result<Self, ConfigError>)
        ensures
            r is Ok <==> valid_config(W as int, H as int, ESCAPE_POINT as int),
            r matches Ok(p) ==> p.spec_cursor() == (0usize, 0usize)
                && p.spec_config().spec_width() == W
                && p.spec_config().spec_height() == H
                && p.spec_config().spec_escape_budget() == ESCAPE_POINT,
    {
        match RenderConfig::new(W, H, ESCAPE_POINT) {
            Ok(config) => Ok(MandelPlane { cursor: Cursor::new((0, 0)), config }),
            Err(e) => Err(e),
        }
    }

    /// The colour of a pixel whose orbit took `iterations` steps.
    pub fn map_color(iterations: usize) -> (r: [u8; 4])
        ensures
            r == color_of(iterations as int),
    {
        map_color(iterations)
    }

    /// Moves the pointer to `(x, y)` when that position lies inside the
    /// window, and reports whether it did; a position outside is ignored.
    pub fn update(&mut self, x: usize, y: usize) -> (r: bool)
        ensures
            r == (x < W && y < H),
            final(self).spec_cursor() == if r { (x, y) } else { old(self).spec_cursor() },
            final(self).spec_config() == old(self).spec_config(),
    {
        proof {
            use_type_invariant(&*self);
        }
        if x < W && y < H {
            self.cursor = Cursor::new((x, y));
            true
        } else {
            false
        }
    }

    /// The pointer position.
    pub fn cursor(&self) -> (r: Cursor)
        ensures
            r.coords() == self.spec_cursor(),
            r.coords().0 < W,
            r.coords().1 < H,
    {
        proof {
            use_type_invariant(self);
        }
        self.cursor
    }

    /// The frame configuration.
    pub fn config(&self) -> (r: RenderConfig)
        ensures
            r == self.spec_config(),
            r.spec_width() == W,
            r.spec_height() == H,
            r.spec_escape_budget() == ESCAPE_POINT,
    {
        proof {
            use_type_invariant(self);
        }
        self.config
    }

    /// The RGBA buffer of the frame whose pixels, row-major, took the given
    /// numbers of iterations.
    pub fn render(&self, counts: &Vec<usize>) -> (r: Vec<u8>)
        requires
            counts@.len() == W * H,
        ensures
            r@ == frame_bytes(counts@),
    {
        proof {
            use_type_invariant(self);
        }
        render(&self.config, counts)
    }

    /// The overlay for the pointer's orbit, given that orbit as screen
    /// points counted from the top: empty when the pointer's plane point is
    /// near the origin or outside the escape radius, else the pointer
    /// followed by at most `ESCAPE_POINT` orbit points.
    pub fn trace(&self, orbit: &Vec<Point>) -> (r: Vec<Point>)
        ensures
            ({
                let (x, y) = self.spec_cursor();
                &&& traceable(x as int, H - y, W as int, H as int) ==> overlay_ok(
                    r@,
                    self.spec_cursor(),
                    H as int,
                    ESCAPE_POINT as int,
                    orbit@,
                )
                &&& !traceable(x as int, H - y, W as int, H as int) ==> r@.len() == 0
            }),
    {
        proof {
            use_type_invariant(self);
        }
        trace(&self.config, &self.cursor, ESCAPE_POINT, orbit)
    }
}

} // verus!
