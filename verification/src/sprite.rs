//! What drawing a sprite does to the framebuffer.
//!
//! A sprite is a sequence of rows, one byte each, the most significant bit
//! being the leftmost pixel. Drawing flips every framebuffer pixel under a
//! set bit. The origin's column wraps round the screen's width, so eight
//! columns starting near the right edge continue at the left edge of the
//! same row; rows below the bottom edge are not drawn.

use vstd::prelude::*;
use crate::layout::{SCREEN_HEIGHT, SCREEN_SIZE, SCREEN_WIDTH};

verus! {

/// Whether bit `k` of a sprite row is set, bit 0 being the leftmost pixel.
pub open spec fn row_bit(row: u8, k: int) -> bool {
    0 <= k < 8 && (row >> ((7 - k) as u8)) & 1 == 1
}

/// How far column `col` lies to the right of column `vx`, going round the
/// screen's width.
pub open spec fn column_offset(col: int, vx: int) -> int {
    (col - vx) % (SCREEN_WIDTH as int)
}

/// Whether pixel `p` of the framebuffer lies under a set bit of `sprite`
/// drawn with its top left corner at column `vx`, row `vy`.
pub open spec fn covered(sprite: Seq<u8>, vx: int, vy: int, p: int) -> bool {
    let row = p / (SCREEN_WIDTH as int) - vy;
    let k = column_offset(p % (SCREEN_WIDTH as int), vx);
    0 <= row < sprite.len() && row_bit(sprite[row], k)
}

/// The framebuffer after `sprite` has been drawn at column `vx`, row `vy`:
/// every covered pixel is flipped.
pub open spec fn draw(screen: Seq<bool>, sprite: Seq<u8>, vx: int, vy: int) -> Seq<bool> {
    Seq::new(screen.len(), |p: int| screen[p] != covered(sprite, vx, vy, p))
}

/// Whether drawing `sprite` at column `vx`, row `vy` turns a lit pixel off.
pub open spec fn collides(screen: Seq<bool>, sprite: Seq<u8>, vx: int, vy: int) -> bool {
    exists|p: int| 0 <= p < screen.len() && screen[p] && #[trigger] covered(sprite, vx, vy, p)
}

/// Whether drawing `sprite` at column `vx`, row `vy` turns a dark pixel on.
pub open spec fn lights(screen: Seq<bool>, sprite: Seq<u8>, vx: int, vy: int) -> bool {
    exists|p: int| 0 <= p < screen.len() && !screen[p] && #[trigger] covered(sprite, vx, vy, p)
}

/// The number of rows of an `n`-row sprite that lie on the screen when its
/// top row is drawn on row `vy`.
pub open spec fn visible_rows(n: int, vy: int) -> int {
    if vy + n <= SCREEN_HEIGHT {
        n
    } else {
        SCREEN_HEIGHT - vy
    }
}

/// Drawing a sprite twice at one origin gives the framebuffer back.
pub proof fn lemma_draw_twice_restores(screen: Seq<bool>, sprite: Seq<u8>, vx: int, vy: int)
    ensures
        draw(draw(screen, sprite, vx, vy), sprite, vx, vy) == screen,
{
    assert(draw(draw(screen, sprite, vx, vy), sprite, vx, vy) =~= screen);
}

/// The second of two draws of a sprite at one origin turns a lit pixel off
/// exactly when the first turned a dark pixel on.
pub proof fn lemma_second_draw_collides(screen: Seq<bool>, sprite: Seq<u8>, vx: int, vy: int)
    ensures
        collides(draw(screen, sprite, vx, vy), sprite, vx, vy) == lights(screen, sprite, vx, vy),
{
    let once = draw(screen, sprite, vx, vy);
    if collides(once, sprite, vx, vy) {
        let p = choose|p: int| 0 <= p < once.len() && once[p] && #[trigger] covered(sprite, vx, vy, p);
        assert(!screen[p] && covered(sprite, vx, vy, p));
    }
    if lights(screen, sprite, vx, vy) {
        let p = choose|p: int| 0 <= p < screen.len() && !screen[p] && #[trigger] covered(sprite, vx, vy, p);
        assert(once[p] && covered(sprite, vx, vy, p));
    }
}

/// The pixel under bit `k` of sprite row `row`, for an origin on the screen.
pub open spec fn pixel_under(vx: int, vy: int, row: int, k: int) -> int {
    (vy + row) * (SCREEN_WIDTH as int) + (vx + k) % (SCREEN_WIDTH as int)
}

/// Whether pixel `p` lies under a set bit that is drawn before bit `k` of
/// sprite row `row`, the bits being drawn row by row, left to right.
pub open spec fn covered_before(sprite: Seq<u8>, vx: int, vy: int, p: int, row: int, k: int) -> bool {
    let r = p / (SCREEN_WIDTH as int) - vy;
    let c = column_offset(p % (SCREEN_WIDTH as int), vx);
    covered(sprite, vx, vy, p) && (r < row || (r == row && c < k))
}

/// Whether a lit pixel lies under a set bit that is drawn before bit `k` of
/// sprite row `row`.
pub open spec fn collides_before(
    screen: Seq<bool>,
    sprite: Seq<u8>,
    vx: int,
    vy: int,
    row: int,
    k: int,
) -> bool {
    exists|p: int|
        0 <= p < screen.len() && screen[p] && #[trigger] covered_before(sprite, vx, vy, p, row, k)
}

/// Nothing is drawn before the first bit of the first row.
pub proof fn lemma_before_start(screen: Seq<bool>, sprite: Seq<u8>, vx: int, vy: int)
    ensures
        forall|p: int| !#[trigger] covered_before(sprite, vx, vy, p, 0, 0),
        !collides_before(screen, sprite, vx, vy, 0, 0),
{
}

/// Drawing bit `k` of row `row` adds the pixel under it, where the bit is
/// set, to what was drawn before, and nothing else.
pub proof fn lemma_before_bit(screen: Seq<bool>, sprite: Seq<u8>, vx: int, vy: int, row: int, k: int)
    requires
        screen.len() == SCREEN_SIZE,
        0 <= vx < SCREEN_WIDTH,
        0 <= vy,
        0 <= row < sprite.len(),
        vy + row < SCREEN_HEIGHT,
        0 <= k < 8,
    ensures
        0 <= pixel_under(vx, vy, row, k) < SCREEN_SIZE,
        !covered_before(sprite, vx, vy, pixel_under(vx, vy, row, k), row, k),
        forall|p: int|
            0 <= p < SCREEN_SIZE ==> (#[trigger] covered_before(sprite, vx, vy, p, row, k + 1) <==> (
            covered_before(sprite, vx, vy, p, row, k) || (p == pixel_under(vx, vy, row, k)
                && row_bit(sprite[row], k)))),
        collides_before(screen, sprite, vx, vy, row, k + 1) <==> (collides_before(
            screen,
            sprite,
            vx,
            vy,
            row,
            k,
        ) || (row_bit(sprite[row], k) && screen[pixel_under(vx, vy, row, k)])),
{
    let w = SCREEN_WIDTH as int;
    let q = pixel_under(vx, vy, row, k);
    assert(q / w == vy + row && q % w == (vx + k) % w);
    assert(column_offset(q % w, vx) == k);
    assert forall|p: int| 0 <= p < SCREEN_SIZE implies (#[trigger] covered_before(
        sprite,
        vx,
        vy,
        p,
        row,
        k + 1,
    ) <==> (covered_before(sprite, vx, vy, p, row, k) || (p == q && row_bit(sprite[row], k)))) by {
        let r = p / w - vy;
        let c = column_offset(p % w, vx);
        if r == row && c == k {
            assert(p == q);
        }
    }
    if collides_before(screen, sprite, vx, vy, row, k + 1) {
        let p = choose|p: int|
            0 <= p < screen.len() && screen[p] && #[trigger] covered_before(
                sprite,
                vx,
                vy,
                p,
                row,
                k + 1,
            );
        if p != q || !row_bit(sprite[row], k) {
            assert(covered_before(sprite, vx, vy, p, row, k));
        }
    }
    if collides_before(screen, sprite, vx, vy, row, k) {
        let p = choose|p: int|
            0 <= p < screen.len() && screen[p] && #[trigger] covered_before(sprite, vx, vy, p, row, k);
        assert(covered_before(sprite, vx, vy, p, row, k + 1));
    }
    if row_bit(sprite[row], k) && screen[q] {
        assert(covered_before(sprite, vx, vy, q, row, k + 1));
    }
}

/// What is drawn before the end of one row is what is drawn before the
/// start of the next.
pub proof fn lemma_before_row(screen: Seq<bool>, sprite: Seq<u8>, vx: int, vy: int, row: int)
    requires
        0 <= vx < SCREEN_WIDTH,
    ensures
        forall|p: int|
            0 <= p < screen.len() ==> (#[trigger] covered_before(sprite, vx, vy, p, row + 1, 0)
                <==> covered_before(sprite, vx, vy, p, row, 8)),
        collides_before(screen, sprite, vx, vy, row + 1, 0) <==> collides_before(
            screen,
            sprite,
            vx,
            vy,
            row,
            8,
        ),
{
    if collides_before(screen, sprite, vx, vy, row + 1, 0) {
        let p = choose|p: int|
            0 <= p < screen.len() && screen[p] && #[trigger] covered_before(
                sprite,
                vx,
                vy,
                p,
                row + 1,
                0,
            );
        assert(covered_before(sprite, vx, vy, p, row, 8));
    }
    if collides_before(screen, sprite, vx, vy, row, 8) {
        let p = choose|p: int|
            0 <= p < screen.len() && screen[p] && #[trigger] covered_before(sprite, vx, vy, p, row, 8);
        assert(covered_before(sprite, vx, vy, p, row + 1, 0));
    }
}

/// Once every row has been drawn, what was drawn before is the whole
/// sprite.
pub proof fn lemma_before_end(screen: Seq<bool>, sprite: Seq<u8>, vx: int, vy: int)
    ensures
        forall|p: int|
            #[trigger] covered_before(sprite, vx, vy, p, sprite.len() as int, 0) <==> covered(
                sprite,
                vx,
                vy,
                p,
            ),
        collides_before(screen, sprite, vx, vy, sprite.len() as int, 0) <==> collides(
            screen,
            sprite,
            vx,
            vy,
        ),
{
    let n = sprite.len() as int;
    if collides_before(screen, sprite, vx, vy, n, 0) {
        let p = choose|p: int|
            0 <= p < screen.len() && screen[p] && #[trigger] covered_before(sprite, vx, vy, p, n, 0);
        assert(covered(sprite, vx, vy, p));
    }
    if collides(screen, sprite, vx, vy) {
        let p = choose|p: int|
            0 <= p < screen.len() && screen[p] && #[trigger] covered(sprite, vx, vy, p);
        assert(covered_before(sprite, vx, vy, p, n, 0));
    }
}

} // verus!
