//! XOR-blit drawing onto the monochrome framebuffer.
//!
//! A sprite is up to fifteen bytes; each byte is one row of eight pixels,
//! most significant bit leftmost.  Drawing XORs the sprite onto the
//! framebuffer with coordinate wraparound — column and row indices wrap
//! at the display edges — and reports a collision when any lit pixel is
//! erased.  The display device itself is a collaborator outside the
//! core: the core only computes the blit and the collision flag.

use vstd::prelude::*;

use crate::{Chip8, Chip8View, DISPLAY_HEIGHT, DISPLAY_WIDTH, FB_SIZE};

verus! {

/// The place value of column `c` within a sprite row byte: the leftmost
/// column is the most significant bit.
pub open spec fn col_weight(c: int) -> u8 {
    if c == 0 {
        0x80
    } else if c == 1 {
        0x40
    } else if c == 2 {
        0x20
    } else if c == 3 {
        0x10
    } else if c == 4 {
        0x8
    } else if c == 5 {
        0x4
    } else if c == 6 {
        0x2
    } else {
        0x1
    }
}

/// Whether column `c` of sprite row byte `b` is a lit pixel.
pub open spec fn sprite_pixel(b: u8, c: int) -> bool {
    (b / col_weight(c)) % 2 == 1
}

/// The framebuffer index that row `r`, column `c` of a sprite drawn at
/// `(x, y)` lands on, wrapping at the display edges.
pub open spec fn pixel_index(x: u8, y: u8, r: int, c: int) -> int {
    ((y + r) % (DISPLAY_HEIGHT as int)) * (DISPLAY_WIDTH as int) + ((x + c) % (
    DISPLAY_WIDTH as int))
}

/// The framebuffer after XOR-blitting `sprite` at `(x, y)`: a pixel is
/// toggled exactly when some lit sprite pixel wraps onto it, and left
/// alone otherwise.
pub open spec fn draw_fb(fb: Seq<bool>, sprite: Seq<u8>, x: u8, y: u8) -> Seq<bool> {
    Seq::new(fb.len(), |i: int| {
        let r = (i / (DISPLAY_WIDTH as int) - y) % (DISPLAY_HEIGHT as int);
        let c = (i % (DISPLAY_WIDTH as int) - x) % (DISPLAY_WIDTH as int);
        if r < sprite.len() && c < 8 && sprite_pixel(sprite[r], c) {
            !fb[i]
        } else {
            fb[i]
        }
    })
}

/// Whether XOR-blitting `sprite` at `(x, y)` erases any lit pixel: some
/// lit sprite pixel lands on a lit framebuffer pixel.
pub open spec fn draw_collides(fb: Seq<bool>, sprite: Seq<u8>, x: u8, y: u8) -> bool {
    exists|r: int, c: int|
        0 <= r < sprite.len() && 0 <= c < 8 && sprite_pixel(sprite[r], c) && fb[pixel_index(
            x,
            y,
            r,
            c,
        )]
}

/// The framebuffer after blitting only the first `t` sprite pixels, in
/// row-major sprite order: pixel `(r, c)` of the sprite is number
/// `8 * r + c`.
spec fn draw_fb_upto(fb: Seq<bool>, sprite: Seq<u8>, x: u8, y: u8, t: int) -> Seq<bool> {
    Seq::new(fb.len(), |i: int| {
        let r = (i / (DISPLAY_WIDTH as int) - y) % (DISPLAY_HEIGHT as int);
        let c = (i % (DISPLAY_WIDTH as int) - x) % (DISPLAY_WIDTH as int);
        if r < sprite.len() && c < 8 && 8 * r + c < t && sprite_pixel(sprite[r], c) {
            !fb[i]
        } else {
            fb[i]
        }
    })
}

/// Whether one of the first `t` sprite pixels erases a lit framebuffer
/// pixel.
spec fn draw_collides_upto(fb: Seq<bool>, sprite: Seq<u8>, x: u8, y: u8, t: int) -> bool {
    exists|r: int, c: int|
        0 <= r < sprite.len() && 0 <= c < 8 && 8 * r + c < t && sprite_pixel(sprite[r], c)
            && fb[pixel_index(x, y, r, c)]
}

/// Adding an offset and wrapping, then subtracting it and wrapping
/// again, gives the original value back: the wrap is invertible.
pub proof fn lemma_wrap_unwrap(o: int, j: int, m: int)
    requires
        0 < m,
        0 <= j < m,
    ensures
        ((o + j) % m - o) % m == j,
{
    let a = (o + j) % m;
    vstd::arithmetic::div_mod::lemma_mod_bound(o + j, m);
    vstd::arithmetic::div_mod::lemma_sub_mod_noop(o + j, o, m);
    vstd::arithmetic::div_mod::lemma_sub_mod_noop(a, o, m);
    vstd::arithmetic::div_mod::lemma_small_mod(j as nat, m as nat);
    vstd::arithmetic::div_mod::lemma_small_mod(a as nat, m as nat);
}

/// Subtracting an offset and wrapping, then adding it and wrapping
/// again, gives the original value back.
pub proof fn lemma_unwrap_wrap(o: int, t: int, m: int)
    requires
        0 < m,
        0 <= t < m,
    ensures
        (o + (t - o) % m) % m == t,
{
    vstd::arithmetic::div_mod::lemma_add_mod_noop_right(o, t - o, m);
    vstd::arithmetic::div_mod::lemma_small_mod(t as nat, m as nat);
}

/// Sprite pixel number `t` is row `t / 8`, column `t % 8`, and it is the
/// only sprite pixel that lands on its framebuffer index.  One blit step
/// therefore either toggles exactly that pixel — still holding its
/// original value — or changes nothing, and it collides exactly when
/// that pixel erases a lit one.
proof fn lemma_draw_step(fb0: Seq<bool>, sprite: Seq<u8>, x: u8, y: u8, t: int, r: int, c: int)
    requires
        fb0.len() == FB_SIZE,
        sprite.len() <= 15,
        0 <= t < 8 * sprite.len(),
        r == t / 8,
        c == t % 8,
    ensures
        0 <= r < sprite.len(),
        0 <= c < 8,
        0 <= pixel_index(x, y, r, c) < FB_SIZE,
        draw_fb_upto(fb0, sprite, x, y, t)[pixel_index(x, y, r, c)] == fb0[pixel_index(
            x,
            y,
            r,
            c,
        )],
        sprite_pixel(sprite[r], c) ==> draw_fb_upto(fb0, sprite, x, y, t + 1) == draw_fb_upto(
            fb0,
            sprite,
            x,
            y,
            t,
        ).update(pixel_index(x, y, r, c), !fb0[pixel_index(x, y, r, c)]),
        !sprite_pixel(sprite[r], c) ==> draw_fb_upto(fb0, sprite, x, y, t + 1) == draw_fb_upto(
            fb0,
            sprite,
            x,
            y,
            t,
        ),
        draw_collides_upto(fb0, sprite, x, y, t + 1) == (draw_collides_upto(fb0, sprite, x, y, t)
            || (sprite_pixel(sprite[r], c) && fb0[pixel_index(x, y, r, c)])),
{
    let w = DISPLAY_WIDTH as int;
    let h = DISPLAY_HEIGHT as int;
    vstd::arithmetic::div_mod::lemma_fundamental_div_mod(t, 8);
    vstd::arithmetic::div_mod::lemma_mod_bound(t, 8);
    assert(8 * r + c == t);
    assert(0 <= c < 8);
    assert(0 <= r < sprite.len());
    let row = (y + r) % h;
    let col = (x + c) % w;
    let idx = pixel_index(x, y, r, c);
    vstd::arithmetic::div_mod::lemma_mod_bound(y + r, h);
    vstd::arithmetic::div_mod::lemma_mod_bound(x + c, w);
    assert(idx == row * w + col);
    assert(0 <= idx < FB_SIZE);
    vstd::arithmetic::div_mod::lemma_fundamental_div_mod_converse(idx, w, row, col);
    assert(idx / w == row && idx % w == col);
    lemma_wrap_unwrap(y as int, r, h);
    lemma_wrap_unwrap(x as int, c, w);
    assert((idx / w - y) % h == r);
    assert((idx % w - x) % w == c);
    assert(draw_fb_upto(fb0, sprite, x, y, t)[idx] == fb0[idx]);

    // Any other framebuffer index is touched the same way by the first
    // `t` pixels and by the first `t + 1`: a difference would need its
    // sprite coordinates to be exactly `(r, c)`, and the wrap is
    // invertible, so that index would be `idx` itself.
    assert forall|i: int|
        0 <= i < FB_SIZE && i != idx implies draw_fb_upto(fb0, sprite, x, y, t + 1)[i]
        == draw_fb_upto(fb0, sprite, x, y, t)[i] by {
        let ri = (i / w - y) % h;
        let ci = (i % w - x) % w;
        vstd::arithmetic::div_mod::lemma_fundamental_div_mod(i, w);
        vstd::arithmetic::div_mod::lemma_mod_bound(i, w);
        if ri < sprite.len() && ci < 8 && 8 * ri + ci == t {
            vstd::arithmetic::div_mod::lemma_mod_bound(i / w - y, h);
            vstd::arithmetic::div_mod::lemma_mod_bound(i % w - x, w);
            vstd::arithmetic::div_mod::lemma_fundamental_div_mod_converse(t, 8, ri, ci);
            assert(ri == r && ci == c);
            lemma_unwrap_wrap(y as int, i / w, h);
            lemma_unwrap_wrap(x as int, i % w, w);
            assert(i / w == row && i % w == col);
            assert(i == idx);
        }
    }
    if sprite_pixel(sprite[r], c) {
        assert(draw_fb_upto(fb0, sprite, x, y, t + 1) =~= draw_fb_upto(
            fb0,
            sprite,
            x,
            y,
            t,
        ).update(idx, !fb0[idx]));
    } else {
        assert(draw_fb_upto(fb0, sprite, x, y, t + 1) =~= draw_fb_upto(fb0, sprite, x, y, t));
    }

    // The collision flag gains exactly the contribution of pixel `t`.
    if draw_collides_upto(fb0, sprite, x, y, t + 1) {
        let (r1, c1) = choose|r1: int, c1: int|
            0 <= r1 < sprite.len() && 0 <= c1 < 8 && 8 * r1 + c1 < t + 1 && sprite_pixel(
                sprite[r1],
                c1,
            ) && fb0[pixel_index(x, y, r1, c1)];
        if 8 * r1 + c1 == t {
            vstd::arithmetic::div_mod::lemma_fundamental_div_mod_converse(t, 8, r1, c1);
            assert(r1 == r && c1 == c);
            assert(sprite_pixel(sprite[r], c) && fb0[idx]);
        } else {
            assert(draw_collides_upto(fb0, sprite, x, y, t));
        }
    }
    if draw_collides_upto(fb0, sprite, x, y, t) {
        let (r0, c0) = choose|r0: int, c0: int|
            0 <= r0 < sprite.len() && 0 <= c0 < 8 && 8 * r0 + c0 < t && sprite_pixel(
                sprite[r0],
                c0,
            ) && fb0[pixel_index(x, y, r0, c0)];
        assert(0 <= r0 < sprite.len() && 0 <= c0 < 8 && 8 * r0 + c0 < t + 1 && sprite_pixel(
            sprite[r0],
            c0,
        ) && fb0[pixel_index(x, y, r0, c0)]);
        assert(draw_collides_upto(fb0, sprite, x, y, t + 1));
    }
    if sprite_pixel(sprite[r], c) && fb0[idx] {
        assert(0 <= r < sprite.len() && 0 <= c < 8 && 8 * r + c < t + 1 && sprite_pixel(
            sprite[r],
            c,
        ) && fb0[pixel_index(x, y, r, c)]);
        assert(draw_collides_upto(fb0, sprite, x, y, t + 1));
    }
}

/// After all `8 * len` sprite pixels, the partial blit is the full one.
proof fn lemma_draw_complete(fb0: Seq<bool>, sprite: Seq<u8>, x: u8, y: u8)
    requires
        fb0.len() == FB_SIZE,
        sprite.len() <= 15,
    ensures
        draw_fb_upto(fb0, sprite, x, y, 8 * sprite.len() as int) == draw_fb(fb0, sprite, x, y),
        draw_collides_upto(fb0, sprite, x, y, 8 * sprite.len() as int) == draw_collides(
            fb0,
            sprite,
            x,
            y,
        ),
{
    let t: int = 8 * sprite.len() as int;
    assert(draw_fb_upto(fb0, sprite, x, y, t) =~= draw_fb(fb0, sprite, x, y));
    if draw_collides_upto(fb0, sprite, x, y, t) {
        let (r0, c0) = choose|r0: int, c0: int|
            0 <= r0 < sprite.len() && 0 <= c0 < 8 && 8 * r0 + c0 < t && sprite_pixel(
                sprite[r0],
                c0,
            ) && fb0[pixel_index(x, y, r0, c0)];
        assert(draw_collides(fb0, sprite, x, y));
    }
    if draw_collides(fb0, sprite, x, y) {
        let (r0, c0) = choose|r0: int, c0: int|
            0 <= r0 < sprite.len() && 0 <= c0 < 8 && sprite_pixel(sprite[r0], c0) && fb0[
                pixel_index(x, y, r0, c0)];
        assert(8 * r0 + c0 < t);
        assert(draw_collides_upto(fb0, sprite, x, y, t));
    }
}

impl Chip8 {
    /// XOR-blit a sprite of up to fifteen rows at `(x, y)`: each lit
    /// sprite pixel toggles the framebuffer pixel it wraps onto, and the
    /// result reports whether any lit pixel was erased — the collision
    /// the draw instruction stores in `VF`.
    pub fn draw(&mut self, x: u8, y: u8, sprite: &Vec<u8>) -> (collided: bool)
        requires
            old(self).wf(),
            sprite@.len() <= 15,
        ensures
            final(self).wf(),
            final(self)@ == (Chip8View { fb: draw_fb(old(self)@.fb, sprite@, x, y), ..old(
                self,
            )@ }),
            collided == draw_collides(old(self)@.fb, sprite@, x, y),
    {
        let n = sprite.len();
        let mut collided = false;
        let mut t: usize = 0;
        while t < n * 8
            invariant
                old(self).wf(),
                sprite@.len() == n <= 15,
                t <= n * 8,
                self@ == (Chip8View { fb: self@.fb, ..old(self)@ }),
                self@.fb.len() == FB_SIZE,
                self@.fb == draw_fb_upto(old(self)@.fb, sprite@, x, y, t as int),
                collided == draw_collides_upto(old(self)@.fb, sprite@, x, y, t as int),
            decreases n * 8 - t,
        {
            let r = t / 8;
            let c = t % 8;
            proof {
                lemma_draw_step(
                    old(self)@.fb,
                    sprite@,
                    x,
                    y,
                    t as int,
                    r as int,
                    c as int,
                );
            }
            let b = sprite[r];
            let weight: u8 = if c == 0 {
                0x80
            } else if c == 1 {
                0x40
            } else if c == 2 {
                0x20
            } else if c == 3 {
                0x10
            } else if c == 4 {
                0x8
            } else if c == 5 {
                0x4
            } else if c == 6 {
                0x2
            } else {
                0x1
            };
            proof {
                assert(weight == col_weight(c as int));
            }
            let lit = (b / weight) % 2 == 1;
            if lit {
                let row = (y as usize + r) % DISPLAY_HEIGHT;
                let col = (x as usize + c) % DISPLAY_WIDTH;
                let idx = row * DISPLAY_WIDTH + col;
                proof {
                    assert(idx == pixel_index(x, y, r as int, c as int));
                }
                let px = self.fb[idx];
                if px {
                    collided = true;
                }
                self.fb[idx] = !px;
                proof {
                    assert(self@ =~= (Chip8View { fb: self@.fb, ..old(self)@ }));
                    assert(px == old(self)@.fb[idx as int]);
                    assert(self@.fb =~= draw_fb_upto(
                        old(self)@.fb,
                        sprite@,
                        x,
                        y,
                        t as int + 1,
                    ));
                }
            }
            t = t + 1;
        }
        proof {
            lemma_draw_complete(old(self)@.fb, sprite@, x, y);
            assert(self@ =~= (Chip8View { fb: draw_fb(old(self)@.fb, sprite@, x, y), ..old(
                self,
            )@ }));
        }
        collided
    }
}

} // verus!
