use vstd::prelude::*;

verus! {

/// Number of colours in the cyclic palette.
pub const PALETTE_LEN: usize = 16;

/// The colour gradient of the Wikipedia article on the Mandelbrot set
/// (which appears to match the one used by Ultra Fractal), one RGBA
/// colour per entry.
pub const COLOR_MAP: [[u8; 4]; 16] = [
    [66, 30, 15, 255],  // brown 3
    [25, 7, 26, 255],  // dark violet
    [9, 1, 47, 255],  // darkest blue
    [4, 4, 73, 255],  // blue 5
    [0, 7, 100, 255],  // blue 4
    [12, 44, 138, 255],  // blue 3
    [24, 82, 177, 255],  // blue 2
    [57, 125, 209, 255],  // blue 1
    [134, 181, 229, 255],  // blue 0
    [211, 236, 248, 255],  // lightest blue
    [241, 233, 191, 255],  // lightest yellow
    [248, 201, 95, 255],  // light yellow
    [255, 170, 0, 255],  // dirty yellow
    [204, 128, 0, 255],  // brown 0
    [153, 87, 0, 255],  // brown 1
    [106, 52, 3, 255],  // brown 2
];

/// The colour given to an iteration count: the palette entry at
/// `iterations mod 16`.
pub open spec fn color_of(iterations: int) -> [u8; 4] {
    COLOR_MAP[iterations % (PALETTE_LEN as int)]
}

/// Colours an iteration count with the cyclic palette.
pub fn map_color(iterations: usize) -> (r: [u8; 4])
    ensures
        r == color_of(iterations as int),
{
    COLOR_MAP[iterations % PALETTE_LEN]
}

/// The palette repeats every `PALETTE_LEN` iteration counts: a count and the
/// same count plus one period get the same colour.
pub proof fn lemma_color_periodic(k: int)
    requires
        k >= 0,
    ensures
        color_of(k) == color_of(k + PALETTE_LEN as int),
{
    assert((k + 16) % 16 == k % 16);
}

} // verus!
