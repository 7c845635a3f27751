use vstd::prelude::*;
use crate::config::RenderConfig;
use crate::palette::{color_of, map_color};
use vstd::arithmetic::div_mod::{lemma_fundamental_div_mod, lemma_mod_pos_bound};

verus! {

/// The RGBA bytes of a frame whose pixels, taken row-major, have the given
/// iteration counts: four bytes per pixel, each pixel coloured by its own
/// count alone.
pub open spec fn frame_bytes(counts: Seq<usize>) -> Seq<u8> {
    Seq::new(counts.len() * 4, |i: int| color_of(counts[i / 4] as int)@[i % 4])
}

/// The first byte of row `y` in the buffer of a `width`-pixel-wide frame.
pub open spec fn row_start(width: nat, y: int) -> int {
    y * (4 * width)
}

/// `buf` with the bytes of row `y` taken from the frame of `counts`, every
/// other byte kept.
pub open spec fn with_row(buf: Seq<u8>, width: nat, counts: Seq<usize>, y: int) -> Seq<u8> {
    Seq::new(
        buf.len(),
        |i: int|
            if row_start(width, y) <= i < row_start(width, y + 1) {
                frame_bytes(counts)[i]
            } else {
                buf[i]
            },
    )
}

/// `buf` after the rows of `order` have been filled, one after the other.
pub open spec fn apply_rows(buf: Seq<u8>, width: nat, counts: Seq<usize>, order: Seq<int>) -> Seq<
    u8,
>
    decreases order.len(),
{
    if order.len() == 0 {
        buf
    } else {
        with_row(
            apply_rows(buf, width, counts, order.drop_last()),
            width,
            counts,
            order.last(),
        )
    }
}

/// Filling rows keeps the length of the buffer.
proof fn lemma_apply_rows_len(buf: Seq<u8>, width: nat, counts: Seq<usize>, order: Seq<int>)
    ensures
        apply_rows(buf, width, counts, order).len() == buf.len(),
    decreases order.len(),
{
    if order.len() > 0 {
        lemma_apply_rows_len(buf, width, counts, order.drop_last());
    }
}

/// A byte lies in one row only.
proof fn lemma_row_unique(width: nat, r: int, y: int, i: int)
    requires
        width > 0,
        row_start(width, r) <= i < row_start(width, r + 1),
        row_start(width, y) <= i < row_start(width, y + 1),
    ensures
        y == r,
{
    let s: int = 4 * width as int;
    assert(y == r) by (nonlinear_arith)
        requires
            s > 0,
            r * s <= i < (r + 1) * s,
            y * s <= i < (y + 1) * s,
    ;
}

/// After filling the rows of `order`, a byte of row `r` comes from the frame
/// if `r` was among them and is the byte of `buf` otherwise.
proof fn lemma_apply_rows_at(buf: Seq<u8>, width: nat, counts: Seq<usize>, order: Seq<int>, r: int, i: int)
    requires
        width > 0,
        0 <= i < buf.len(),
        row_start(width, r) <= i < row_start(width, r + 1),
    ensures
        apply_rows(buf, width, counts, order).len() == buf.len(),
        apply_rows(buf, width, counts, order)[i] == if order.contains(r) {
            frame_bytes(counts)[i]
        } else {
            buf[i]
        },
    decreases order.len(),
{
    if order.len() > 0 {
        let prefix = order.drop_last();
        lemma_apply_rows_at(buf, width, counts, prefix, r, i);
        let y = order.last();
        if row_start(width, y) <= i < row_start(width, y + 1) {
            lemma_row_unique(width, r, y, i);
            assert(order[order.len() - 1] == r);
        } else {
            if order.contains(r) {
                let k = choose|k: int| 0 <= k < order.len() && order[k] == r;
                if k == order.len() - 1 {
                    assert(y == r);
                } else {
                    assert(prefix[k] == r);
                }
            }
            if prefix.contains(r) {
                let k = choose|k: int| 0 <= k < prefix.len() && prefix[k] == r;
                assert(order[k] == r);
            }
        }
    }
}

/// Filling the rows of a frame gives the same bytes whatever the order in
/// which the rows are filled and whatever the buffer held before, provided
/// every row is filled at least once: each byte depends on its own pixel
/// alone.
pub proof fn lemma_rows_in_any_order(
    buf: Seq<u8>,
    width: nat,
    height: nat,
    counts: Seq<usize>,
    order: Seq<int>,
)
    requires
        width > 0,
        counts.len() == width * height,
        buf.len() == counts.len() * 4,
        forall|y: int| 0 <= y < height ==> order.contains(y),
    ensures
        apply_rows(buf, width, counts, order) == frame_bytes(counts),
{
    let res = apply_rows(buf, width, counts, order);
    let frame = frame_bytes(counts);
    let s: int = 4 * width as int;
    assert(buf.len() == height * s) by (nonlinear_arith)
        requires
            buf.len() == counts.len() * 4,
            counts.len() == width * height,
            s == 4 * width,
    ;
    assert forall|i: int| 0 <= i < buf.len() implies res[i] == frame[i] by {
        let r = i / s;
        lemma_fundamental_div_mod(i, s);
        lemma_mod_pos_bound(i, s);
        assert(0 <= r < height) by (nonlinear_arith)
            requires
                s > 0,
                0 <= i < height * s,
                r * s <= i < r * s + s,
        ;
        assert(r * s <= i < (r + 1) * s) by (nonlinear_arith)
            requires
                r * s <= i < r * s + s,
        ;
        lemma_apply_rows_at(buf, width, counts, order, r, i);
    }
    lemma_apply_rows_len(buf, width, counts, order);
    assert(res =~= frame);
}

/// Two renderings of one frame, each filling every row in an order and from
/// a starting buffer of its own, give byte-identical buffers.
pub proof fn lemma_schedules_agree(
    buf1: Seq<u8>,
    buf2: Seq<u8>,
    width: nat,
    height: nat,
    counts: Seq<usize>,
    order1: Seq<int>,
    order2: Seq<int>,
)
    requires
        width > 0,
        counts.len() == width * height,
        buf1.len() == counts.len() * 4,
        buf2.len() == counts.len() * 4,
        forall|y: int| 0 <= y < height ==> order1.contains(y),
        forall|y: int| 0 <= y < height ==> order2.contains(y),
    ensures
        apply_rows(buf1, width, counts, order1) == apply_rows(buf2, width, counts, order2),
{
    lemma_rows_in_any_order(buf1, width, height, counts, order1);
    lemma_rows_in_any_order(buf2, width, height, counts, order2);
}

/// The offset in the frame buffer of the first byte of pixel `(x, y)`:
/// `(y * width + x) * 4`.
pub fn pixel_offset(config: &RenderConfig, x: usize, y: usize) -> (r: usize)
    requires
        x < config.spec_width(),
        y < config.spec_height(),
    ensures
        r == (y * config.spec_width() + x) * 4,
        r + 4 <= config.spec_width() * config.spec_height() * 4,
{
    let w = config.width();
    let h = config.height();
    let len = config.buffer_len();
    proof {
        assert((y * w + x) * 4 + 4 <= w * h * 4) by (nonlinear_arith)
            requires
                x < w,
                y < h,
        ;
    }
    (y * w + x) * 4
}

/// Fills row `y` of the frame buffer with the colours of the row's
/// iteration counts, leaving every other byte as it was.
pub fn fill_row(config: &RenderConfig, buf: &mut Vec<u8>, counts: &Vec<usize>, y: usize)
    requires
        old(buf)@.len() == config.spec_width() * config.spec_height() * 4,
        counts@.len() == config.spec_width() * config.spec_height(),
        y < config.spec_height(),
    ensures
        final(buf)@ == with_row(old(buf)@, config.spec_width(), counts@, y as int),
{
    let w = config.width();
    let ghost width = config.spec_width();
    let ghost start = row_start(width, y as int);
    let ghost frame = frame_bytes(counts@);
    proof {
        assert(row_start(width, y as int + 1) == start + 4 * w) by (nonlinear_arith)
            requires
                start == y * (4 * width),
                width == w,
        ;
        assert(start == (y * w) * 4) by (nonlinear_arith)
            requires
                start == y * (4 * width),
                width == w,
        ;
    }
    let mut x: usize = 0;
    while x < w
        invariant
            x <= w,
            w == width,
            y < config.spec_height(),
            width == config.spec_width(),
            start == (y * w) * 4,
            row_start(width, y as int + 1) == start + 4 * w,
            frame == frame_bytes(counts@),
            counts@.len() == width * config.spec_height(),
            buf@.len() == old(buf)@.len(),
            buf@.len() == width * config.spec_height() * 4,
            forall|i: int|
                0 <= i < buf@.len() ==> #[trigger] buf@[i] == if start <= i < start + 4 * x {
                    frame[i]
                } else {
                    old(buf)@[i]
                },
        decreases w - x,
    {
        let o = pixel_offset(config, x, y);
        let p = y * w + x;
        let color = map_color(counts[p]);
        buf.set(o, color[0]);
        buf.set(o + 1, color[1]);
        buf.set(o + 2, color[2]);
        buf.set(o + 3, color[3]);
        proof {
            assert forall|i: int| o <= i < o + 4 implies frame[i] == color@[i - o] by {
                assert(i / 4 == p && i % 4 == i - o);
            }
        }
        x = x + 1;
    }
    assert(buf@ =~= with_row(old(buf)@, width, counts@, y as int));
}

/// Renders the RGBA buffer of a frame from the iteration counts of its
/// pixels, taken row-major: pixel `(x, y)` has count
/// `counts[y * width + x]` and its colour goes to bytes
/// `(y * width + x) * 4` to `(y * width + x) * 4 + 3`.
pub fn render(config: &RenderConfig, counts: &Vec<usize>) -> (r: Vec<u8>)
    requires
        counts@.len() == config.spec_width() * config.spec_height(),
    ensures
        r@ == frame_bytes(counts@),
        r@.len() == config.spec_width() * config.spec_height() * 4,
{
    let len = config.buffer_len();
    let h = config.height();
    let w = config.width();
    let mut buf: Vec<u8> = vec![0u8; len];
    let ghost init = buf@;
    let ghost width = config.spec_width();
    let mut y: usize = 0;
    while y < h
        invariant
            y <= h,
            h == config.spec_height(),
            width == config.spec_width(),
            width > 0,
            init.len() == len,
            len == width * config.spec_height() * 4,
            counts@.len() == width * config.spec_height(),
            buf@ == apply_rows(init, width, counts@, Seq::new(y as nat, |k: int| k)),
        decreases h - y,
    {
        proof {
            lemma_apply_rows_len(init, width, counts@, Seq::new(y as nat, |k: int| k));
        }
        fill_row(config, &mut buf, counts, y);
        proof {
            let next = Seq::new((y + 1) as nat, |k: int| k);
            assert(next.drop_last() =~= Seq::new(y as nat, |k: int| k));
        }
        y = y + 1;
    }
    proof {
        let order = Seq::new(h as nat, |k: int| k);
        assert forall|k: int| 0 <= k < h implies order.contains(k) by {
            assert(order[k] == k);
        }
        assert(init.len() == counts@.len() * 4) by (nonlinear_arith)
            requires
                init.len() == width * h * 4,
                counts@.len() == width * h,
        ;
        lemma_rows_in_any_order(init, width, h as nat, counts@, order);
    }
    buf
}

} // verus!
