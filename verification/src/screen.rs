//! The 64x32 monochrome framebuffer: 32 bit-packed row masks (one `u64` per
//! row, the most significant bit is the leftmost column), a dirty flag, and
//! XOR sprite compositing with collision reporting.

use vstd::prelude::*;

verus! {

/// Columns per row.
pub const SCREEN_WIDTH: u8 = 64;

/// Rows per screen.
pub const SCREEN_HEIGHT: u8 = 32;

/// The mathematical value of a screen: its 32 row masks and the dirty flag.
#[verifier::ext_equal]
pub struct ScreenModel {
    pub rows: Seq<u64>,
    pub changed: bool,
}

/// The column a (possibly out-of-range) x coordinate aliases to.
pub open spec fn spec_col(x: u8) -> u8 {
    (x % 64) as u8
}

/// The row a (possibly out-of-range) y coordinate aliases to.
pub open spec fn spec_row(y: u8) -> u8 {
    (y % 32) as u8
}

/// An 8-bit row pattern positioned within a 64-bit row mask: bit 7 of
/// `vector` lands on column `x`, bit 6 on column `x + 1`, and so on. Bits
/// that would fall past column 63 are dropped, not wrapped.
pub open spec fn spec_mask(vector: u8, x: u8) -> u64
    recommends
        x < 64,
{
    ((vector as u64) << 56u64) >> (x as u64)
}

/// Whether the pixel at (x, y) is set, after coordinate aliasing.
pub open spec fn spec_pixel(rows: Seq<u64>, x: u8, y: u8) -> bool
    recommends
        rows.len() == 32,
{
    rows[spec_row(y) as int] & spec_mask(0x80, spec_col(x)) != 0
}

/// The rows after ORing an 8-bit pattern into row `y` at column `x`.
pub open spec fn spec_set_rows(rows: Seq<u64>, vector: u8, x: u8, y: u8) -> Seq<u64>
    recommends
        rows.len() == 32,
{
    let r = spec_row(y) as int;
    rows.update(r, rows[r] | spec_mask(vector, spec_col(x)))
}

/// The rows after clearing the bits of an 8-bit pattern from row `y` at
/// column `x`.
pub open spec fn spec_unset_rows(rows: Seq<u64>, vector: u8, x: u8, y: u8) -> Seq<u64>
    recommends
        rows.len() == 32,
{
    let r = spec_row(y) as int;
    rows.update(r, rows[r] & !spec_mask(vector, spec_col(x)))
}

/// The rows after XORing an 8-bit pattern onto row `y` at column `x`.
pub open spec fn spec_flip_rows(rows: Seq<u64>, vector: u8, x: u8, y: u8) -> Seq<u64>
    recommends
        rows.len() == 32,
{
    let r = spec_row(y) as int;
    rows.update(r, rows[r] ^ spec_mask(vector, spec_col(x)))
}

/// Whether XORing the pattern onto row `y` would clear at least one pixel
/// that was set before the XOR.
pub open spec fn spec_flip_collides(rows: Seq<u64>, vector: u8, x: u8, y: u8) -> bool
    recommends
        rows.len() == 32,
{
    rows[spec_row(y) as int] & spec_mask(vector, spec_col(x)) != 0
}

/// The 8-bit slice of row `y` starting at column `x` (needs `x % 64 <= 56`,
/// so that all eight columns exist).
pub open spec fn spec_get_vectored(rows: Seq<u64>, x: u8, y: u8) -> u8
    recommends
        rows.len() == 32,
        x % 64 <= 56,
{
    ((rows[spec_row(y) as int] >> ((56 - spec_col(x)) as u64)) & 0xFFu64) as u8
}

/// A screen with every pixel unset.
pub open spec fn spec_blank_rows() -> Seq<u64> {
    Seq::new(32, |i: int| 0u64)
}

/// The next row coordinate while walking down a sprite, wrapping as the
/// 8-bit coordinate would.
pub open spec fn spec_wrap_inc(y: u8) -> u8 {
    if y == 255 { 0 } else { (y + 1) as u8 }
}

/// The rows after XOR-compositing a whole sprite: byte `i` of the sprite is
/// flipped onto row `y + i` (wrapping), all at column `x`.
pub open spec fn spec_draw_rows(rows: Seq<u64>, sprite: Seq<u8>, x: u8, y: u8) -> Seq<u64>
    recommends
        rows.len() == 32,
    decreases sprite.len(),
{
    if sprite.len() == 0 {
        rows
    } else {
        spec_draw_rows(spec_flip_rows(rows, sprite[0], x, y), sprite.skip(1), x, spec_wrap_inc(y))
    }
}

/// Whether XOR-compositing the whole sprite clears at least one pixel that
/// was set just before its row was flipped.
pub open spec fn spec_draw_collides(rows: Seq<u64>, sprite: Seq<u8>, x: u8, y: u8) -> bool
    recommends
        rows.len() == 32,
    decreases sprite.len(),
{
    if sprite.len() == 0 {
        false
    } else {
        spec_flip_collides(rows, sprite[0], x, y) || spec_draw_collides(
            spec_flip_rows(rows, sprite[0], x, y),
            sprite.skip(1),
            x,
            spec_wrap_inc(y),
        )
    }
}

/// Compositing one more sprite byte at the end lands it `sprite.len()` rows
/// below the start, after everything before it.
pub proof fn lemma_draw_rows_push(rows: Seq<u64>, sprite: Seq<u8>, b: u8, x: u8, y: u8, ypos: u8)
    requires
        ypos == (y + sprite.len()) % 256,
    ensures
        spec_draw_rows(rows, sprite.push(b), x, y) == spec_flip_rows(
            spec_draw_rows(rows, sprite, x, y),
            b,
            x,
            ypos,
        ),
        spec_draw_collides(rows, sprite.push(b), x, y) == (spec_draw_collides(rows, sprite, x, y)
            || spec_flip_collides(spec_draw_rows(rows, sprite, x, y), b, x, ypos)),
    decreases sprite.len(),
{
    if sprite.len() == 0 {
        assert(sprite.push(b)[0] == b);
        assert(sprite.push(b).skip(1) =~= Seq::<u8>::empty());
        assert(ypos == y);
        let flipped = spec_flip_rows(rows, b, x, y);
        assert(spec_draw_rows(flipped, Seq::<u8>::empty(), x, spec_wrap_inc(y)) == flipped);
        assert(!spec_draw_collides(flipped, Seq::<u8>::empty(), x, spec_wrap_inc(y)));
        assert(spec_draw_rows(rows, sprite, x, y) == rows);
        assert(!spec_draw_collides(rows, sprite, x, y));
    } else {
        let first = sprite[0];
        let rest = sprite.skip(1);
        assert(sprite.push(b)[0] == first);
        assert(sprite.push(b).skip(1) =~= rest.push(b));
        assert(ypos == (spec_wrap_inc(y) + rest.len()) % 256);
        lemma_draw_rows_push(spec_flip_rows(rows, first, x, y), rest, b, x, spec_wrap_inc(y), ypos);
        assert(spec_draw_rows(rows, sprite, x, y) == spec_draw_rows(
            spec_flip_rows(rows, first, x, y),
            rest,
            x,
            spec_wrap_inc(y),
        ));
        assert(spec_draw_collides(rows, sprite, x, y) == (spec_flip_collides(rows, first, x, y)
            || spec_draw_collides(
            spec_flip_rows(rows, first, x, y),
            rest,
            x,
            spec_wrap_inc(y),
        )));
    }
}

/// XOR is an involution on one row: flipping the same pattern onto the same
/// coordinates twice restores the original pixel states.
pub proof fn lemma_flip_rows_involution(rows: Seq<u64>, vector: u8, x: u8, y: u8)
    requires
        rows.len() == 32,
    ensures
        spec_flip_rows(spec_flip_rows(rows, vector, x, y), vector, x, y) == rows,
{
    let r = spec_row(y) as int;
    let m = spec_mask(vector, spec_col(x));
    let v0 = rows[r];
    assert((v0 ^ m) ^ m == v0) by (bit_vector);
    assert(spec_flip_rows(spec_flip_rows(rows, vector, x, y), vector, x, y) =~= rows);
}

/// Two single-row flips commute, whether they land on the same row or on
/// different rows.
pub proof fn lemma_flip_rows_commute(
    rows: Seq<u64>,
    v1: u8,
    x1: u8,
    y1: u8,
    v2: u8,
    x2: u8,
    y2: u8,
)
    requires
        rows.len() == 32,
    ensures
        spec_flip_rows(spec_flip_rows(rows, v1, x1, y1), v2, x2, y2) == spec_flip_rows(
            spec_flip_rows(rows, v2, x2, y2),
            v1,
            x1,
            y1,
        ),
{
    let r1 = spec_row(y1) as int;
    let r2 = spec_row(y2) as int;
    let m1 = spec_mask(v1, spec_col(x1));
    let m2 = spec_mask(v2, spec_col(x2));
    if r1 == r2 {
        let v0 = rows[r1];
        assert((v0 ^ m1) ^ m2 == (v0 ^ m2) ^ m1) by (bit_vector);
    }
    assert(spec_flip_rows(spec_flip_rows(rows, v1, x1, y1), v2, x2, y2) =~= spec_flip_rows(
        spec_flip_rows(rows, v2, x2, y2),
        v1,
        x1,
        y1,
    ));
}

/// A single-row flip commutes past a whole sprite composite.
pub proof fn lemma_flip_draw_commute(
    rows: Seq<u64>,
    sprite: Seq<u8>,
    x: u8,
    y: u8,
    v: u8,
    xf: u8,
    yf: u8,
)
    requires
        rows.len() == 32,
    ensures
        spec_flip_rows(spec_draw_rows(rows, sprite, x, y), v, xf, yf) == spec_draw_rows(
            spec_flip_rows(rows, v, xf, yf),
            sprite,
            x,
            y,
        ),
    decreases sprite.len(),
{
    if sprite.len() > 0 {
        let first = sprite[0];
        let rest = sprite.skip(1);
        lemma_flip_rows_commute(rows, first, x, y, v, xf, yf);
        lemma_flip_draw_commute(
            spec_flip_rows(rows, first, x, y),
            rest,
            x,
            spec_wrap_inc(y),
            v,
            xf,
            yf,
        );
    }
}

/// XOR-compositing the same sprite onto the same coordinates twice restores
/// the original pixel states, whatever was on the screen before.
pub proof fn lemma_draw_rows_involution(rows: Seq<u64>, sprite: Seq<u8>, x: u8, y: u8)
    requires
        rows.len() == 32,
    ensures
        spec_draw_rows(spec_draw_rows(rows, sprite, x, y), sprite, x, y) == rows,
    decreases sprite.len(),
{
    if sprite.len() > 0 {
        let first = sprite[0];
        let rest = sprite.skip(1);
        let y2 = spec_wrap_inc(y);
        let flipped = spec_flip_rows(rows, first, x, y);
        lemma_flip_draw_commute(flipped, rest, x, y2, first, x, y);
        lemma_flip_rows_involution(rows, first, x, y);
        lemma_draw_rows_involution(rows, rest, x, y2);
    }
}

/// The screen row sprite byte `i` lands on when a draw starts at row `y`:
/// the y coordinate advances with 8-bit wrap, and the row aliases modulo 32;
/// since 256 is a multiple of 32 the 8-bit wrap is invisible.
pub open spec fn spec_target_row(y: u8, i: int) -> int {
    (y + i) % 32
}

/// Stepping the wrapped row coordinate once moves the target row by one.
proof fn lemma_wrap_inc_target(y: u8, i: int)
    requires
        0 <= i,
    ensures
        spec_target_row(spec_wrap_inc(y), i) == spec_target_row(y, i + 1),
{
    if y == 255 {
        vstd::arithmetic::div_mod::lemma_mod_multiples_vanish(8, i, 32);
    }
}

/// Two sprite bytes within one 32-row span land on distinct rows.
proof fn lemma_target_rows_distinct(y: u8, i: int, k: int)
    requires
        0 <= i,
        i < k,
        k - i < 32,
    ensures
        spec_target_row(y, i) != spec_target_row(y, k),
{
    vstd::arithmetic::div_mod::lemma_add_mod_noop(y + i, k - i, 32);
    vstd::arithmetic::div_mod::lemma_mod_bound(y + i, 32);
    vstd::arithmetic::div_mod::lemma_small_mod((k - i) as nat, 32);
    if (y + i) % 32 + (k - i) < 32 {
        vstd::arithmetic::div_mod::lemma_small_mod(((y + i) % 32 + (k - i)) as nat, 32);
    } else {
        vstd::arithmetic::div_mod::lemma_mod_multiples_vanish(1, (y + i) % 32 + (k - i) - 32, 32);
        vstd::arithmetic::div_mod::lemma_small_mod(((y + i) % 32 + (k - i) - 32) as nat, 32);
    }
}

/// Drawing a sprite leaves every row outside its target span untouched.
pub proof fn lemma_draw_rows_frame(rows: Seq<u64>, sprite: Seq<u8>, x: u8, y: u8, j: int)
    requires
        rows.len() == 32,
        0 <= j < 32,
        forall|i: int| 0 <= i < sprite.len() ==> #[trigger] spec_target_row(y, i) != j,
    ensures
        spec_draw_rows(rows, sprite, x, y)[j] == rows[j],
    decreases sprite.len(),
{
    if sprite.len() > 0 {
        let first = sprite[0];
        let rest = sprite.skip(1);
        let y2 = spec_wrap_inc(y);
        assert(spec_target_row(y, 0) != j);
        assert(spec_row(y) == spec_target_row(y, 0));
        assert(spec_flip_rows(rows, first, x, y)[j] == rows[j]);
        assert forall|i: int| 0 <= i < rest.len() implies #[trigger] spec_target_row(y2, i)
            != j by {
            lemma_wrap_inc_target(y, i);
            assert(spec_target_row(y, i + 1) != j);
        }
        lemma_draw_rows_frame(spec_flip_rows(rows, first, x, y), rest, x, y2, j);
    }
}

/// Flipping the leading sprite byte off again leaves exactly the rest of the
/// sprite composited.
proof fn lemma_flip_cancels_first(rows: Seq<u64>, first: u8, rest: Seq<u8>, x: u8, y: u8)
    requires
        rows.len() == 32,
    ensures
        spec_flip_rows(
            spec_draw_rows(spec_flip_rows(rows, first, x, y), rest, x, spec_wrap_inc(y)),
            first,
            x,
            y,
        ) == spec_draw_rows(rows, rest, x, spec_wrap_inc(y)),
{
    let flipped = spec_flip_rows(rows, first, x, y);
    lemma_flip_draw_commute(flipped, rest, x, spec_wrap_inc(y), first, x, y);
    lemma_flip_rows_involution(rows, first, x, y);
}

/// Drawing a sprite of at most 32 rows and then drawing it again at the same
/// coordinates reports a collision exactly when the sprite covers some pixel
/// that was not set on the original screen: those are the pixels the first
/// pass turned on, and they are all the second pass finds set under the
/// sprite.
pub proof fn lemma_draw_twice_collision(rows: Seq<u64>, sprite: Seq<u8>, x: u8, y: u8)
    requires
        rows.len() == 32,
        sprite.len() <= 32,
    ensures
        spec_draw_collides(spec_draw_rows(rows, sprite, x, y), sprite, x, y) <==> exists|i: int|
            0 <= i < sprite.len() && spec_mask(sprite[i], spec_col(x)) & !rows[#[trigger] spec_target_row(
                y,
                i,
            )] != 0,
    decreases sprite.len(),
{
    if sprite.len() > 0 {
        let first = sprite[0];
        let rest = sprite.skip(1);
        let y2 = spec_wrap_inc(y);
        let flipped = spec_flip_rows(rows, first, x, y);
        let drawn = spec_draw_rows(rows, sprite, x, y);
        let r0 = spec_row(y) as int;
        let m0 = spec_mask(first, spec_col(x));

        // The rest of the sprite lands strictly below row y (modulo 32), so
        // the composite leaves row y holding exactly the first byte's flip.
        assert forall|i: int| 0 <= i < rest.len() implies #[trigger] spec_target_row(y2, i)
            != r0 by {
            lemma_wrap_inc_target(y, i);
            lemma_target_rows_distinct(y, 0, i + 1);
            assert(spec_target_row(y, 0) == r0);
        }
        lemma_draw_rows_frame(flipped, rest, x, y2, r0);
        assert(drawn[r0] == rows[r0] ^ m0);
        let v0 = rows[r0];
        assert(((v0 ^ m0) & m0 != 0) == (m0 & !v0 != 0)) by (bit_vector);

        // Undoing the first byte on the composite leaves the rest drawn, so
        // the tail of the second pass is itself a draw-twice of the rest.
        lemma_flip_cancels_first(rows, first, rest, x, y);
        lemma_draw_twice_collision(rows, rest, x, y2);

        // Re-index the tail's witnesses: byte i of the rest is byte i + 1 of
        // the sprite.
        let tail_exists = exists|i: int|
            0 <= i < rest.len() && spec_mask(rest[i], spec_col(x)) & !rows[#[trigger] spec_target_row(
                y2,
                i,
            )] != 0;
        let full_exists = exists|i: int|
            0 <= i < sprite.len() && spec_mask(sprite[i], spec_col(x)) & !rows[#[trigger] spec_target_row(
                y,
                i,
            )] != 0;
        if tail_exists {
            let i = choose|i: int|
                0 <= i < rest.len() && spec_mask(rest[i], spec_col(x)) & !rows[#[trigger] spec_target_row(
                    y2,
                    i,
                )] != 0;
            lemma_wrap_inc_target(y, i);
            assert(spec_mask(sprite[i + 1], spec_col(x)) & !rows[spec_target_row(y, i + 1)] != 0);
            assert(full_exists);
        }
        if m0 & !v0 != 0 {
            assert(spec_target_row(y, 0) == r0);
            assert(spec_mask(sprite[0], spec_col(x)) & !rows[spec_target_row(y, 0)] != 0);
            assert(full_exists);
        }
        if full_exists && !(m0 & !v0 != 0) {
            let i = choose|i: int|
                0 <= i < sprite.len() && spec_mask(sprite[i], spec_col(x)) & !rows[#[trigger] spec_target_row(
                    y,
                    i,
                )] != 0;
            assert(i != 0);
            lemma_wrap_inc_target(y, i - 1);
            assert(spec_mask(rest[i - 1], spec_col(x)) & !rows[spec_target_row(y2, i - 1)] != 0);
            assert(tail_exists);
        }
    }
}

/// Flipping a pattern and then flipping it again collides exactly when the
/// pattern covers some pixel that was not set originally: the first flip
/// turned that pixel on, and only pixels the first flip turned on (rather
/// than off) are found set by the second.
pub proof fn lemma_reflip_collision(rows: Seq<u64>, vector: u8, x: u8, y: u8)
    requires
        rows.len() == 32,
    ensures
        spec_flip_collides(spec_flip_rows(rows, vector, x, y), vector, x, y) <==> spec_mask(
            vector,
            spec_col(x),
        ) & !rows[spec_row(y) as int] != 0,
{
    let r = spec_row(y) as int;
    let m = spec_mask(vector, spec_col(x));
    let v0 = rows[r];
    assert(((v0 ^ m) & m != 0) == (m & !v0 != 0)) by (bit_vector);
}

/// The state of one pixel.
#[derive(Debug, Clone, Copy, PartialEq, Eq, Structural)]
pub enum PixelState {
    On,
    Off,
}

/// What an XOR composite did: `UnsetBit` reports that at least one pixel
/// that was set beforehand is now unset (a sprite collision).
#[derive(Debug, Clone, Copy, PartialEq, Eq, Structural)]
pub enum FlipResult {
    UnsetBit,
    NoUnsetBit,
}

/// The bit-packed framebuffer.
#[derive(Clone, Debug)]
pub struct Screen {
    rows: Vec<u64>,
    changed: bool,
}

impl View for Screen {
    type V = ScreenModel;

    closed spec fn view(&self) -> ScreenModel {
        ScreenModel { rows: self.rows@, changed: self.changed }
    }
}

impl Screen {
    /// A screen always holds exactly 32 rows.
    pub open spec fn wf(&self) -> bool {
        self@.rows.len() == 32
    }

    /// A blank screen with the dirty flag cleared.
    pub fn new() -> (s: Screen)
        ensures
            s.wf(),
            s@.rows =~= spec_blank_rows(),
            !s@.changed,
    {
        let mut rows: Vec<u64> = Vec::new();
        let mut i: usize = 0;
        while i < 32
            invariant
                i <= 32,
                rows@.len() == i,
                forall|j: int| 0 <= j < i ==> rows@[j] == 0u64,
            decreases 32 - i,
        {
            rows.push(0);
            i = i + 1;
        }
        Screen { rows, changed: false }
    }

    /// Resets every pixel to unset and marks the framebuffer changed.
    pub fn clear(&mut self)
        requires
            old(self).wf(),
        ensures
            final(self).wf(),
            final(self)@.rows =~= spec_blank_rows(),
            final(self)@.changed,
    {
        let mut i: usize = 0;
        while i < 32
            invariant
                i <= 32,
                self.rows@.len() == 32,
                forall|j: int| 0 <= j < i ==> self.rows@[j] == 0u64,
            decreases 32 - i,
        {
            self.rows[i] = 0;
            i = i + 1;
        }
        self.changed = true;
    }

    /// Whether any mutating operation ran since the flag was last reset.
    pub fn is_changed(&self) -> (r: bool)
        ensures
            r == self@.changed,
    {
        self.changed
    }

    pub fn reset_changed_flag(&mut self)
        requires
            old(self).wf(),
        ensures
            final(self).wf(),
            final(self)@.rows == old(self)@.rows,
            !final(self)@.changed,
    {
        self.changed = false;
    }

    /// Sets the single pixel at (x, y).
    pub fn set_pixel(&mut self, x: u8, y: u8)
        requires
            old(self).wf(),
        ensures
            final(self).wf(),
            final(self)@.rows == spec_set_rows(old(self)@.rows, 0x80, x, y),
            final(self)@.changed,
    {
        self.set_vectored(0x80, x, y);
    }

    /// Unsets the single pixel at (x, y).
    pub fn unset_pixel(&mut self, x: u8, y: u8)
        requires
            old(self).wf(),
        ensures
            final(self).wf(),
            final(self)@.rows == spec_unset_rows(old(self)@.rows, 0x80, x, y),
            final(self)@.changed,
    {
        self.unset_vectored(0x80, x, y);
    }

    /// Flips the single pixel at (x, y); reports whether it was set before.
    pub fn flip_pixel(&mut self, x: u8, y: u8) -> (r: FlipResult)
        requires
            old(self).wf(),
        ensures
            final(self).wf(),
            final(self)@.rows == spec_flip_rows(old(self)@.rows, 0x80, x, y),
            final(self)@.changed,
            r == (if spec_flip_collides(old(self)@.rows, 0x80, x, y) {
                FlipResult::UnsetBit
            } else {
                FlipResult::NoUnsetBit
            }),
    {
        self.flip_vectored(0x80, x, y)
    }

    /// Reads the pixel at (x, y), after coordinate aliasing.
    pub fn get_pixel(&self, x: u8, y: u8) -> (r: PixelState)
        requires
            self.wf(),
        ensures
            r == (if spec_pixel(self@.rows, x, y) {
                PixelState::On
            } else {
                PixelState::Off
            }),
    {
        let (xc, yc) = Self::clamp(x, y);
        let mask = Self::generate_mask(0x80, xc);

        if (self.rows[yc as usize] & mask) == 0 {
            PixelState::Off
        } else {
            PixelState::On
        }
    }

    /// ORs an 8-bit row pattern into row `y` at column `x`.
    pub fn set_vectored(&mut self, vector: u8, x: u8, y: u8)
        requires
            old(self).wf(),
        ensures
            final(self).wf(),
            final(self)@.rows == spec_set_rows(old(self)@.rows, vector, x, y),
            final(self)@.changed,
    {
        let (xc, yc) = Self::clamp(x, y);
        let mask = Self::generate_mask(vector, xc);

        let row = self.rows[yc as usize];
        self.rows[yc as usize] = row | mask;
        self.changed = true;
    }

    /// Clears the bits of an 8-bit row pattern from row `y` at column `x`.
    pub fn unset_vectored(&mut self, vector: u8, x: u8, y: u8)
        requires
            old(self).wf(),
        ensures
            final(self).wf(),
            final(self)@.rows == spec_unset_rows(old(self)@.rows, vector, x, y),
            final(self)@.changed,
    {
        let (xc, yc) = Self::clamp(x, y);
        let mask = Self::generate_mask(vector, xc);

        let row = self.rows[yc as usize];
        self.rows[yc as usize] = row & !mask;
        self.changed = true;
    }

    /// XORs an 8-bit row pattern onto row `y` at column `x`; reports whether
    /// the XOR unset any pixel that was set before (computed from the
    /// pre-XOR state).
    pub fn flip_vectored(&mut self, vector: u8, x: u8, y: u8) -> (r: FlipResult)
        requires
            old(self).wf(),
        ensures
            final(self).wf(),
            final(self)@.rows == spec_flip_rows(old(self)@.rows, vector, x, y),
            final(self)@.changed,
            r == (if spec_flip_collides(old(self)@.rows, vector, x, y) {
                FlipResult::UnsetBit
            } else {
                FlipResult::NoUnsetBit
            }),
    {
        let (xc, yc) = Self::clamp(x, y);
        let mask = Self::generate_mask(vector, xc);

        let row = self.rows[yc as usize];
        let no_overlap = row & mask == 0;
        self.rows[yc as usize] = row ^ mask;
        self.changed = true;

        if no_overlap {
            FlipResult::NoUnsetBit
        } else {
            FlipResult::UnsetBit
        }
    }

    /// Reads the 8-bit slice of row `y` starting at column `x`. All eight
    /// columns must exist: `x` must alias to a column no greater than 56.
    pub fn get_vectored(&self, x: u8, y: u8) -> (r: u8)
        requires
            self.wf(),
            x % 64 <= 56,
        ensures
            r == spec_get_vectored(self@.rows, x, y),
    {
        let (xc, yc) = Self::clamp(x, y);
        let row = self.rows[yc as usize];
        let shifted = row >> ((56 - xc) as u64);
        proof {
            assert(shifted & 0xFFu64 <= 0xFF) by (bit_vector);
        }
        (shifted & 0xFFu64) as u8
    }

    /// Reads one whole row mask. Raw access for hosts and tests; bypasses
    /// coordinate aliasing.
    pub fn get_row(&self, y: u8) -> (r: u64)
        requires
            self.wf(),
            y < 32,
        ensures
            r == self@.rows[y as int],
    {
        self.rows[y as usize]
    }

    /// Overwrites one whole row mask without touching the dirty flag. Raw
    /// access for hosts and tests; bypasses coordinate aliasing and dirty
    /// tracking.
    pub fn set_row(&mut self, y: u8, row: u64)
        requires
            old(self).wf(),
            y < 32,
        ensures
            final(self).wf(),
            final(self)@.rows == old(self)@.rows.update(y as int, row),
            final(self)@.changed == old(self)@.changed,
    {
        self.rows[y as usize] = row;
    }

    /// A restartable pixel walk over all 2048 pixels in row-major order.
    pub fn iter(&self) -> (it: ScreenIter<'_>)
        requires
            self.wf(),
        ensures
            it.wf(),
            it.src() == *self,
            it.pos_x() == 0,
            it.pos_y() == 0,
    {
        ScreenIter { screen: self, x: 0, y: 0 }
    }

    /// Aliases arbitrary coordinates onto the framebuffer: x modulo 64,
    /// y modulo 32.
    fn clamp(x: u8, y: u8) -> (r: (u8, u8))
        ensures
            r.0 == spec_col(x),
            r.1 == spec_row(y),
            r.0 < 64,
            r.1 < 32,
    {
        proof {
            assert(x & 0x3F == x % 64 && y & 0x1F == y % 32) by (bit_vector);
        }
        (x & 0x3F, y & 0x1F)
    }

    /// Positions an 8-bit pattern within a 64-bit row mask so that bit 7 of
    /// `vector` lands on column `x`.
    pub fn generate_mask(vector: u8, x: u8) -> (r: u64)
        requires
            x < 64,
        ensures
            r == spec_mask(vector, x),
    {
        ((vector as u64) << 56u64) >> (x as u64)
    }
}

impl Default for Screen {
    /// A blank screen with the dirty flag cleared.
    fn default() -> (s: Screen)
        ensures
            s.wf(),
            s@.rows =~= spec_blank_rows(),
            !s@.changed,
    {
        Screen::new()
    }
}

/// A lazy walk over all pixels of a borrowed screen, row-major, yielding
/// (x, y, state) triples.
pub struct ScreenIter<'a> {
    screen: &'a Screen,
    x: u8,
    y: u8,
}

impl<'a> ScreenIter<'a> {
    /// The screen being walked.
    pub closed spec fn src(&self) -> Screen {
        *self.screen
    }

    /// The column the next yield starts from (64 right after a row ends).
    pub closed spec fn pos_x(&self) -> u8 {
        self.x
    }

    /// The row the next yield starts from.
    pub closed spec fn pos_y(&self) -> u8 {
        self.y
    }

    pub open spec fn wf(&self) -> bool {
        &&& self.src().wf()
        &&& self.pos_x() <= 64
        &&& self.pos_y() <= 32
        &&& (self.pos_y() == 32 ==> self.pos_x() < 64)
    }

    /// Yields the next (x, y, state) triple, or `None` once all 32 rows have
    /// been walked.
    pub fn next(&mut self) -> (r: Option<(u8, u8, PixelState)>)
        requires
            old(self).wf(),
        ensures
            final(self).wf(),
            final(self).src() == old(self).src(),
            ({
                let xn: u8 = if old(self).pos_x() >= 64 { 0 } else { old(self).pos_x() };
                let yn: u8 = if old(self).pos_x() >= 64 {
                    (old(self).pos_y() + 1) as u8
                } else {
                    old(self).pos_y()
                };
                if yn >= 32 {
                    r is None && final(self).pos_x() == xn && final(self).pos_y() == yn
                } else {
                    r == Some((xn, yn, (if spec_pixel(old(self).src()@.rows, xn, yn) {
                        PixelState::On
                    } else {
                        PixelState::Off
                    }))) && final(self).pos_x() == xn + 1 && final(self).pos_y() == yn
                }
            }),
    {
        if self.x >= 64 {
            self.x = 0;
            self.y = self.y + 1;
        }

        if self.y >= 32 {
            return None;
        }

        let x = self.x;
        let y = self.y;
        let pixel_state = self.screen.get_pixel(x, y);

        self.x = x + 1;

        Some((x, y, pixel_state))
    }
}

} // verus!
