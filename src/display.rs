use vstd::prelude::*;

verus! {

/// Width of the framebuffer in pixels.
pub const SCREEN_WIDTH: usize = 64;

/// Height of the framebuffer in pixels.
pub const SCREEN_HEIGHT: usize = 32;

/// Number of pixels in the framebuffer.
pub const SCREEN_PIXELS: usize = 2048;

/// Whether bit `b` of a sprite row is set, counting from the most
/// significant bit.
pub open spec fn sprite_bit(row: u8, b: u8) -> bool {
    (row >> ((7 - b) as u8)) & 1u8 == 1u8
}

/// The framebuffer index of the pixel at sprite row `r`, bit `b` of a sprite
/// drawn at `(vx, vy)`, with wraparound at both edges.
pub open spec fn pixel_index(vx: u8, vy: u8, r: int, b: int) -> int {
    (vx + b) % 64 + ((vy + r) % 32) * 64
}

/// The sprite column that lands on pixel `p` when drawing at `vx`.
pub open spec fn sprite_col(vx: u8, p: int) -> int {
    (p % 64 + 64 - vx % 64) % 64
}

/// The sprite row that lands on pixel `p` when drawing at `vy`.
pub open spec fn sprite_row(vy: u8, p: int) -> int {
    (p / 64 + 32 - vy % 32) % 32
}

/// Whether drawing the `n`-row sprite `rows` at `(vx, vy)` flips pixel `p`.
pub open spec fn sprite_hits(rows: Seq<u8>, n: int, vx: u8, vy: u8, p: int) -> bool {
    let r = sprite_row(vy, p);
    let c = sprite_col(vx, p);
    r < n && c < 8 && sprite_bit(rows[r], c as u8)
}

/// The framebuffer after XOR-compositing the sprite.
pub open spec fn drawn(gfx: Seq<bool>, rows: Seq<u8>, n: int, vx: u8, vy: u8) -> Seq<bool> {
    Seq::new(gfx.len(), |p: int| gfx[p] != sprite_hits(rows, n, vx, vy, p))
}

/// Whether drawing the sprite turns off some pixel that was on.
pub open spec fn collides(gfx: Seq<bool>, rows: Seq<u8>, n: int, vx: u8, vy: u8) -> bool {
    exists|p: int| 0 <= p < gfx.len() && #[trigger] gfx[p] && sprite_hits(rows, n, vx, vy, p)
}

/// The pixel hit by row `r`, bit `b` lies on the screen, and that pixel maps
/// back to row `r`, bit `b`.
proof fn lemma_pixel_index(vx: u8, vy: u8, r: int, b: int)
    requires
        0 <= r < 32,
        0 <= b < 64,
    ensures
        0 <= pixel_index(vx, vy, r, b) < 2048,
        sprite_row(vy, pixel_index(vx, vy, r, b)) == r,
        sprite_col(vx, pixel_index(vx, vy, r, b)) == b,
{
    let p = pixel_index(vx, vy, r, b);
    let c = (vx + b) % 64;
    let w = (vy + r) % 32;
    assert(p % 64 == c && p / 64 == w) by (nonlinear_arith)
        requires p == c + w * 64, 0 <= c < 64, 0 <= w < 32;
}

/// A pixel whose sprite coordinates are `(r, b)` is the pixel of `(r, b)`.
proof fn lemma_pixel_coords(vx: u8, vy: u8, p: int)
    requires
        0 <= p < 2048,
    ensures
        pixel_index(vx, vy, sprite_row(vy, p), sprite_col(vx, p)) == p,
{
    assert(p == p % 64 + (p / 64) * 64) by (nonlinear_arith);
}

/// Whether pixel `p` is flipped by the sprite bits that come before row
/// `r`, bit `b` in drawing order.
pub open spec fn hit_before(rows: Seq<u8>, n: int, vx: u8, vy: u8, p: int, r: int, b: int) -> bool {
    sprite_hits(rows, n, vx, vy, p) && (sprite_row(vy, p) < r || (sprite_row(vy, p) == r
        && sprite_col(vx, p) < b))
}

/// Taking one more bit in drawing order adds exactly its own pixel, if the bit is set.
proof fn lemma_hit_step(rows: Seq<u8>, n: int, vx: u8, vy: u8, r: int, b: int)
    requires
        0 <= r < n,
        n <= rows.len(),
        n < 32,
        0 <= b < 8,
    ensures
        forall|p: int| 0 <= p < 2048 ==> #[trigger] hit_before(rows, n, vx, vy, p, r, b + 1)
            == (hit_before(rows, n, vx, vy, p, r, b) || (p == pixel_index(vx, vy, r, b)
                && sprite_bit(rows[r], b as u8))),
{
    lemma_pixel_index(vx, vy, r, b);
    assert forall|p: int| 0 <= p < 2048 implies #[trigger] hit_before(rows, n, vx, vy, p, r, b + 1)
        == (hit_before(rows, n, vx, vy, p, r, b) || (p == pixel_index(vx, vy, r, b)
            && sprite_bit(rows[r], b as u8))) by {
        lemma_pixel_coords(vx, vy, p);
    }
}

/// Composites `n` sprite rows taken from `memory[i..i + n]` onto `gfx` at
/// `(vx, vy)`, wrapping at the edges; returns whether a lit pixel was
/// turned off.
pub fn draw_sprite(gfx: &mut Vec<bool>, memory: &Vec<u8>, i: usize, n: u8, vx: u8, vy: u8) -> (collision: bool)
    requires
        old(gfx)@.len() == SCREEN_PIXELS,
        n < 16,
        i + n <= memory@.len(),
    ensures
        final(gfx)@ == drawn(old(gfx)@, memory@.subrange(i as int, i + n), n as int, vx, vy),
        collision == collides(old(gfx)@, memory@.subrange(i as int, i + n), n as int, vx, vy),
{
    let ghost g0 = old(gfx)@;
    let ghost rows = memory@.subrange(i as int, i + n);
    let ghost ni = n as int;
    let len: usize = memory.len();
    let mut collision = false;
    let mut r: usize = 0;
    while r < n as usize
        invariant
            n < 16,
            ni == n as int,
            r <= n,
            i + n <= memory@.len(),
            len == memory@.len(),
            rows == memory@.subrange(i as int, i + n),
            gfx@.len() == 2048,
            g0.len() == 2048,
            forall|p: int| 0 <= p < 2048 ==> #[trigger] gfx@[p] == (g0[p] != hit_before(rows, ni, vx, vy, p, r as int, 0)),
            collision == exists|p: int| 0 <= p < 2048 && #[trigger] g0[p] && hit_before(rows, ni, vx, vy, p, r as int, 0),
        decreases n - r,
    {
        let row: u8 = memory[i + r];
        assert(row == rows[r as int]);
        let mut b: usize = 0;
        while b < 8
            invariant
                n < 16,
                ni == n as int,
                r < n,
                b <= 8,
                row == rows[r as int],
                rows.len() == n,
                gfx@.len() == 2048,
                g0.len() == 2048,
                forall|p: int| 0 <= p < 2048 ==> #[trigger] gfx@[p] == (g0[p] != hit_before(rows, ni, vx, vy, p, r as int, b as int)),
                collision == exists|p: int| 0 <= p < 2048 && #[trigger] g0[p] && hit_before(rows, ni, vx, vy, p, r as int, b as int),
            decreases 8 - b,
        {
            let bit: u8 = b as u8;
            let ghost q = pixel_index(vx, vy, r as int, b as int);
            proof {
                lemma_pixel_index(vx, vy, r as int, b as int);
                lemma_hit_step(rows, ni, vx, vy, r as int, b as int);
            }
            let ghost c0 = collision;
            if (row >> (7 - bit)) & 1u8 == 1u8 {
                let idx: usize = (vx as usize + b) % 64 + ((vy as usize + r) % 32) * 64;
                assert(idx == q);
                assert(!hit_before(rows, ni, vx, vy, q, r as int, b as int));
                let lit = gfx[idx];
                collision = collision || lit;
                gfx.set(idx, !lit);
                if lit {
                    assert(g0[q] && hit_before(rows, ni, vx, vy, q, r as int, b + 1));
                }
            }
            b = b + 1;
            assert forall|p: int| 0 <= p < 2048 implies #[trigger] gfx@[p] == (g0[p] != hit_before(rows, ni, vx, vy, p, r as int, b as int)) by {
                assert(hit_before(rows, ni, vx, vy, p, r as int, b as int) == (hit_before(rows, ni, vx, vy, p, r as int, b - 1) || (p == q && sprite_bit(row, bit))));
            }
            proof {
                if c0 {
                    let p = choose|p: int| 0 <= p < 2048 && #[trigger] g0[p] && hit_before(rows, ni, vx, vy, p, r as int, b - 1);
                    assert(hit_before(rows, ni, vx, vy, p, r as int, b as int));
                }
            }
        }
        r = r + 1;
        assert forall|p: int| 0 <= p < 2048 implies hit_before(rows, ni, vx, vy, p, r - 1, 8)
            == hit_before(rows, ni, vx, vy, p, r as int, 0) by {}
    }
    assert forall|p: int| 0 <= p < 2048 implies hit_before(rows, ni, vx, vy, p, ni, 0)
        == sprite_hits(rows, ni, vx, vy, p) by {}
    assert(gfx@ =~= drawn(g0, rows, ni, vx, vy));
    collision
}

} // verus!
