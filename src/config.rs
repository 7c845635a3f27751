use vstd::prelude::*;

verus! {

/// Why a frame configuration was refused.
#[derive(Debug, Clone, Copy, PartialEq, Eq, Structural)]
pub enum ConfigError {
    /// The frame has no columns.
    ZeroWidth,
    /// The frame has no rows.
    ZeroHeight,
    /// No iteration is allowed per pixel.
    ZeroBudget,
    /// `width * height * 4` bytes cannot be addressed.
    BufferTooLarge,
}

/// A validated frame configuration: its width and height in pixels and the
/// escape budget, the largest number of iterations counted per pixel.
#[derive(Debug, Clone, Copy)]
pub struct RenderConfig {
    width: usize,
    height: usize,
    escape_budget: usize,
}

/// Whether a frame of these dimensions and budget can be rendered: neither
/// is zero and its RGBA buffer fits in the address space.
pub open spec fn valid_config(width: int, height: int, escape_budget: int) -> bool {
    &&& width > 0
    &&& height > 0
    &&& escape_budget > 0
    &&& width * height * 4 <= usize::MAX
}

impl RenderConfig {
    #[verifier::type_invariant]
    spec fn inv(&self) -> bool {
        valid_config(self.width as int, self.height as int, self.escape_budget as int)
    }

    /// The width of the frame, in pixels.
    pub closed spec fn spec_width(&self) -> nat {
        self.width as nat
    }

    /// The height of the frame, in pixels.
    pub closed spec fn spec_height(&self) -> nat {
        self.height as nat
    }

    /// The largest number of iterations counted per pixel.
    pub closed spec fn spec_escape_budget(&self) -> nat {
        self.escape_budget as nat
    }

    /// Validates a frame configuration. The first failing condition, in the
    /// order width, height, budget, buffer size, is reported.
    pub fn new(width: usize, height: usize, escape_budget: usize) -> (r: Result<
        RenderConfig,
        ConfigError,
    >)
        ensures
            r is Ok <==> valid_config(width as int, height as int, escape_budget as int),
            r matches Ok(c) ==> c.spec_width() == width && c.spec_height() == height
                && c.spec_escape_budget() == escape_budget,
            width == 0 <==> r == Err::<RenderConfig, ConfigError>(ConfigError::ZeroWidth),
            width > 0 && height == 0 <==> r == Err::<RenderConfig, ConfigError>(
                ConfigError::ZeroHeight,
            ),
            width > 0 && height > 0 && escape_budget == 0 <==> r == Err::<
                RenderConfig,
                ConfigError,
            >(ConfigError::ZeroBudget),
            width > 0 && height > 0 && escape_budget > 0 && width * height * 4 > usize::MAX
                <==> r == Err::<RenderConfig, ConfigError>(ConfigError::BufferTooLarge),
    {
        if width == 0 {
            return Err(ConfigError::ZeroWidth);
        }
        if height == 0 {
            return Err(ConfigError::ZeroHeight);
        }
        if escape_budget == 0 {
            return Err(ConfigError::ZeroBudget);
        }
        let pixels = width.checked_mul(height);
        match pixels {
            None => {
                proof {
                    assert(width * height * 4 > usize::MAX) by (nonlinear_arith)
                        requires
                            width * height > usize::MAX,
                    ;
                }
                Err(ConfigError::BufferTooLarge)
            },
            Some(p) => {
                if p > usize::MAX / 4 {
                    Err(ConfigError::BufferTooLarge)
                } else {
                    Ok(RenderConfig { width, height, escape_budget })
                }
            },
        }
    }

    /// The width of the frame, in pixels.
    pub fn width(&self) -> (r: usize)
        ensures
            r == self.spec_width(),
            r > 0,
    {
        proof {
            use_type_invariant(self);
        }
        self.width
    }

    /// The height of the frame, in pixels.
    pub fn height(&self) -> (r: usize)
        ensures
            r == self.spec_height(),
            r > 0,
    {
        proof {
            use_type_invariant(self);
        }
        self.height
    }

    /// The largest number of iterations counted per pixel.
    pub fn escape_budget(&self) -> (r: usize)
        ensures
            r == self.spec_escape_budget(),
            r > 0,
    {
        proof {
            use_type_invariant(self);
        }
        self.escape_budget
    }

    /// The length in bytes of the frame's RGBA buffer, `width * height * 4`.
    pub fn buffer_len(&self) -> (r: usize)
        ensures
            r == self.spec_width() * self.spec_height() * 4,
    {
        proof {
            use_type_invariant(self);
        }
        self.width * self.height * 4
    }
}

} // verus!
