//! Video display: a bitmap frame buffer with two resolutions.
use vstd::prelude::*;
use vstd::arithmetic::div_mod::{
    lemma_add_mod_noop, lemma_fundamental_div_mod, lemma_mod_add_multiples_vanish,
    lemma_mod_bound, lemma_mod_multiples_vanish, lemma_mod_pos_bound, lemma_small_mod,
    lemma_sub_mod_noop,
};
use crate::{OktoError, OktoErrorKind, OktoResult};

verus! {

/// Maximum height of the display.
pub const DISPLAY_HEIGHT: usize = 64;

/// Maximum width of the display.
pub const DISPLAY_WIDTH: usize = 128;

/// Maximum number of bytes in a sprite.
pub const MAX_SPRITE_BYTES: usize = 15;

/// Number of pixels encoded in each byte of sprite data.
pub const PIXELS_PER_BYTE: usize = 8;

/// Display state data.
pub struct Display {
    /// Frame buffer for the video display, one array per row.
    pub data: [[u8; DISPLAY_WIDTH]; DISPLAY_HEIGHT],
    /// Indicates whether or not the display is in high resolution mode.
    pub high_resolution: bool,
}

/// Mathematical model of the display: the frame buffer as rows of cells,
/// and the resolution mode.
pub struct DisplayState {
    /// The cells of the frame buffer: 64 rows of 128 cells.
    pub grid: Seq<Seq<u8>>,
    /// Whether the display is in high resolution mode.
    pub high_resolution: bool,
}

/// How far position `p` lies past `base` on an axis that wraps at `m`.
pub open spec fn wrapped_offset(m: int, base: int, p: int) -> int {
    (p - base) % m
}

/// Bit `column` of a sprite byte, counted from the most significant bit.
pub open spec fn sprite_bit(byte: u8, column: int) -> u8 {
    (byte >> ((7 - column) as u8)) & 1
}

/// Bit `column` of a sprite byte, counted from the most significant bit.
fn sprite_bit_at(byte: u8, column: usize) -> (bit: u8)
    requires
        column < 8,
    ensures
        bit == sprite_bit(byte, column as int),
        bit <= 1,
{
    let desired_bit: u8 = (PIXELS_PER_BYTE - column - 1) as u8;
    assert((byte >> desired_bit) & 1 <= 1) by (bit_vector);
    (byte >> desired_bit) & 1
}

impl DisplayState {
    /// The frame buffer has its fixed size.
    pub open spec fn wf(self) -> bool {
        &&& self.grid.len() == 64
        &&& forall|r: int| 0 <= r < 64 ==> (#[trigger] self.grid[r]).len() == 128
    }

    /// Every cell of the frame buffer holds a pixel: 0 or 1.
    pub open spec fn pixels_only(self) -> bool {
        &&& self.wf()
        &&& forall|r: int, c: int| 0 <= r < 64 && 0 <= c < 128 ==> #[trigger] self.grid[r][c] <= 1
    }

    /// The effective height: all rows in high resolution, half of them in
    /// low resolution.
    pub open spec fn height(self) -> int {
        if self.high_resolution {
            64
        } else {
            32
        }
    }

    /// The effective width: all columns in high resolution, half of them in
    /// low resolution.
    pub open spec fn width(self) -> int {
        if self.high_resolution {
            128
        } else {
            64
        }
    }

    /// A display in low resolution with every cell zero.
    pub open spec fn blank() -> DisplayState {
        DisplayState {
            grid: Seq::new(64, |r: int| Seq::new(128, |c: int| 0u8)),
            high_resolution: false,
        }
    }

    /// The display with the given resolution mode and the same cells.
    pub open spec fn with_resolution(self, high_resolution: bool) -> DisplayState {
        DisplayState { high_resolution, ..self }
    }

    /// The display with every cell inside the effective resolution zero.
    pub open spec fn cleared(self) -> DisplayState {
        DisplayState {
            grid: Seq::new(
                64,
                |r: int|
                    Seq::new(
                        128,
                        |c: int|
                            if r < self.height() && c < self.width() {
                                0u8
                            } else {
                                self.grid[r][c]
                            },
                    ),
            ),
            ..self
        }
    }

    /// The display with all rows of the frame buffer moved down by `lines`;
    /// the rows that come in at the top are zero.
    pub open spec fn scrolled_down(self, lines: int) -> DisplayState {
        DisplayState {
            grid: Seq::new(
                64,
                |r: int|
                    Seq::new(128, |c: int| if r >= lines { self.grid[r - lines][c] } else { 0u8 }),
            ),
            ..self
        }
    }

    /// The display with all columns of the frame buffer moved 4 cells to
    /// the left; the columns that come in at the right are zero.
    pub open spec fn scrolled_left(self) -> DisplayState {
        DisplayState {
            grid: Seq::new(
                64,
                |r: int| Seq::new(128, |c: int| if c < 124 { self.grid[r][c + 4] } else { 0u8 }),
            ),
            ..self
        }
    }

    /// The display with all columns of the frame buffer moved 4 cells to
    /// the right; the columns that come in at the left are zero.
    pub open spec fn scrolled_right(self) -> DisplayState {
        DisplayState {
            grid: Seq::new(
                64,
                |r: int| Seq::new(128, |c: int| if c >= 4 { self.grid[r][c - 4] } else { 0u8 }),
            ),
            ..self
        }
    }

    /// The sprite row that reaches frame buffer row `r` when a sprite is
    /// drawn with its top at `y`.
    pub open spec fn sprite_row(self, y: int, r: int) -> int {
        wrapped_offset(self.height(), y, r)
    }

    /// The sprite column that reaches frame buffer column `c` when a sprite
    /// is drawn with its left edge at `x`.
    pub open spec fn sprite_column(self, x: int, c: int) -> int {
        wrapped_offset(self.width(), x, c)
    }

    /// The cell in row `r` and column `c` after `sprite` has been drawn at
    /// `(x, y)`. A sprite covers the cells of the effective resolution whose
    /// sprite row is one of its bytes and whose sprite column is one of the
    /// 8 bits of that byte.
    pub open spec fn drawn_cell(self, x: int, y: int, sprite: Seq<u8>, r: int, c: int) -> u8 {
        let row = self.sprite_row(y, r);
        let column = self.sprite_column(x, c);
        if r < self.height() && c < self.width() && row < sprite.len() && column < 8 {
            self.grid[r][c] ^ sprite_bit(sprite[row], column)
        } else {
            self.grid[r][c]
        }
    }

    /// The display after `sprite` has been drawn at `(x, y)`: bit `column`
    /// of byte `row`, most significant bit first, is combined by exclusive
    /// or into the cell at column `(x + column) % width` of row
    /// `(y + row) % height`.
    pub open spec fn drawn(self, x: int, y: int, sprite: Seq<u8>) -> DisplayState {
        DisplayState {
            grid: Seq::new(
                64,
                |r: int| Seq::new(128, |c: int| self.drawn_cell(x, y, sprite, r, c)),
            ),
            ..self
        }
    }

    /// Bit `column` of byte `row` of `sprite`, drawn at `(x, y)`, is set and
    /// falls on a cell that holds 1.
    pub open spec fn erases_at(self, x: int, y: int, sprite: Seq<u8>, row: int, column: int)
        -> bool {
        &&& self.grid[(y + row) % self.height()][(x + column) % self.width()] == 1
        &&& sprite_bit(sprite[row], column) == 1
    }

    /// Drawing `sprite` at `(x, y)` clears a cell that holds 1.
    pub open spec fn erases(self, x: int, y: int, sprite: Seq<u8>) -> bool {
        exists|row: int, column: int|
            0 <= row < sprite.len() && 0 <= column < 8 && #[trigger] self.erases_at(
                x,
                y,
                sprite,
                row,
                column,
            )
    }

    /// The pixel in row `row` and column `column` of a 16x16 sprite, which
    /// is stored as 16 rows of two bytes each.
    pub open spec fn large_pixel(sprite: Seq<u8>, row: int, column: int) -> u8 {
        sprite_bit(sprite[2 * row + column / 8], column % 8)
    }

    /// The cell in row `r` and column `c` after the 16x16 sprite `sprite`
    /// has been drawn at `(x, y)`.
    pub open spec fn drawn_large_cell(self, x: int, y: int, sprite: Seq<u8>, r: int, c: int)
        -> u8 {
        let row = self.sprite_row(y, r);
        let column = self.sprite_column(x, c);
        if r < self.height() && c < self.width() && row < 16 && column < 16 {
            self.grid[r][c] ^ Self::large_pixel(sprite, row, column)
        } else {
            self.grid[r][c]
        }
    }

    /// The display after the 16x16 sprite `sprite` has been drawn at
    /// `(x, y)`: its pixel in row `row` and column `column` is combined by
    /// exclusive or into the cell at column `(x + column) % width` of row
    /// `(y + row) % height`.
    pub open spec fn drawn_large(self, x: int, y: int, sprite: Seq<u8>) -> DisplayState {
        DisplayState {
            grid: Seq::new(
                64,
                |r: int| Seq::new(128, |c: int| self.drawn_large_cell(x, y, sprite, r, c)),
            ),
            ..self
        }
    }

    /// The pixel in row `row` and column `column` of the 16x16 sprite
    /// `sprite`, drawn at `(x, y)`, is set and falls on a cell that holds 1.
    pub open spec fn erases_large_at(
        self,
        x: int,
        y: int,
        sprite: Seq<u8>,
        row: int,
        column: int,
    ) -> bool {
        &&& self.grid[(y + row) % self.height()][(x + column) % self.width()] == 1
        &&& Self::large_pixel(sprite, row, column) == 1
    }

    /// Drawing the 16x16 sprite `sprite` at `(x, y)` clears a cell that
    /// holds 1.
    pub open spec fn erases_large(self, x: int, y: int, sprite: Seq<u8>) -> bool {
        exists|row: int, column: int|
            0 <= row < 16 && 0 <= column < 16 && #[trigger] self.erases_large_at(
                x,
                y,
                sprite,
                row,
                column,
            )
    }

    /// The cell in row `r` and column `c` when of the 16x16 sprite the
    /// first `rows` rows, and of the next row the first `bytes` bytes, have
    /// been drawn.
    spec fn partly_large_cell(
        self,
        x: int,
        y: int,
        sprite: Seq<u8>,
        rows: int,
        bytes: int,
        r: int,
        c: int,
    ) -> u8 {
        let row = self.sprite_row(y, r);
        let column = self.sprite_column(x, c);
        if r < self.height() && c < self.width() && column < 16 && (row < rows || (row == rows
            && column < 8 * bytes)) {
            self.grid[r][c] ^ Self::large_pixel(sprite, row, column)
        } else {
            self.grid[r][c]
        }
    }

    /// A pixel in one of the first `rows` rows of the 16x16 sprite, or in
    /// one of the first `bytes` bytes of the next row, clears a cell that
    /// holds 1.
    spec fn partly_erases_large(
        self,
        x: int,
        y: int,
        sprite: Seq<u8>,
        rows: int,
        bytes: int,
    ) -> bool {
        exists|row: int, column: int|
            0 <= row && 0 <= column < 16 && (row < rows || (row == rows && column < 8 * bytes))
                && #[trigger] self.erases_large_at(x, y, sprite, row, column)
    }

    /// The cell in row `r` and column `c` when of the sprite the first
    /// `rows` bytes, and of the next byte the first `columns` bits, have
    /// been drawn.
    spec fn partly_drawn_cell(
        self,
        x: int,
        y: int,
        sprite: Seq<u8>,
        rows: int,
        columns: int,
        r: int,
        c: int,
    ) -> u8 {
        let row = self.sprite_row(y, r);
        let column = self.sprite_column(x, c);
        if r < self.height() && c < self.width() && column < 8 && (row < rows || (row == rows
            && column < columns)) {
            self.grid[r][c] ^ sprite_bit(sprite[row], column)
        } else {
            self.grid[r][c]
        }
    }

    /// One of the first `rows` bytes of the sprite, or one of the first
    /// `columns` bits of the next byte, clears a cell that holds 1.
    spec fn partly_erases(
        self,
        x: int,
        y: int,
        sprite: Seq<u8>,
        rows: int,
        columns: int,
    ) -> bool {
        exists|row: int, column: int|
            0 <= row && 0 <= column < 8 && (row < rows || (row == rows && column < columns))
                && #[trigger] self.erases_at(x, y, sprite, row, column)
    }
}

/// Facts about positions on an axis that wraps at `m`: where the position
/// `offset` past `base` lies, and that it is the only one in range that
/// lies `offset` past `base`.
proof fn lemma_wrap(m: int, base: int, offset: int)
    requires
        0 < m,
        0 <= base,
        0 <= offset < m,
    ensures
        (base + offset) % m == (base % m + offset) % m,
        0 <= (base + offset) % m < m,
        wrapped_offset(m, base, (base + offset) % m) == offset,
        forall|p: int|
            0 <= p < m && #[trigger] wrapped_offset(m, base, p) == offset ==> p == (base + offset)
                % m,
{
    let t = (base + offset) % m;
    let q = (base + offset) / m;
    lemma_small_mod(offset as nat, m as nat);
    lemma_add_mod_noop(base, offset, m);
    lemma_mod_pos_bound(base + offset, m);
    lemma_fundamental_div_mod(base + offset, m);
    assert(m * (-q) == -(m * q)) by (nonlinear_arith);
    assert(t - base == m * (-q) + offset);
    lemma_mod_multiples_vanish(-q, offset, m);
    assert forall|p: int|
        0 <= p < m && #[trigger] wrapped_offset(m, base, p) == offset implies p == t by {
        let k = (p - base) / m;
        lemma_fundamental_div_mod(p - base, m);
        assert(p == m * k + (base + offset));
        lemma_mod_multiples_vanish(k, base + offset, m);
        lemma_small_mod(p as nat, m as nat);
    }
}

/// How the offset of a position changes when the base moves `k` ahead on
/// an axis that wraps at `m`.
proof fn lemma_wrap_shift(m: int, base: int, k: int, p: int)
    requires
        0 < m,
        0 <= base,
        0 <= k < m,
    ensures
        0 <= wrapped_offset(m, base, p) < m,
        wrapped_offset(m, base % m + k, p) == if wrapped_offset(m, base, p) >= k {
            wrapped_offset(m, base, p) - k
        } else {
            wrapped_offset(m, base, p) - k + m
        },
{
    let o = (p - base) % m;
    let q = base / m;
    lemma_mod_bound(p - base, m);
    lemma_fundamental_div_mod(base, m);
    assert(p - (base % m + k) == m * q + (p - base - k));
    lemma_mod_multiples_vanish(q, p - base - k, m);
    lemma_sub_mod_noop(p - base, k, m);
    lemma_small_mod(k as nat, m as nat);
    if o >= k {
        lemma_small_mod((o - k) as nat, m as nat);
    } else {
        lemma_mod_add_multiples_vanish(o - k, m);
        lemma_small_mod((o - k + m) as nat, m as nat);
    }
}

impl DisplayState {
    /// Where bit `column` of sprite row `row` lands, and that no other bit
    /// of a sprite of at most 32 rows and 64 columns lands there.
    proof fn lemma_sprite_cell(self, x: int, y: int, row: int, column: int)
        requires
            0 <= x,
            0 <= y,
            0 <= row < 32,
            0 <= column < 64,
        ensures
            ({
                let r = (y + row) % self.height();
                let c = (x + column) % self.width();
                &&& r == (y % self.height() + row) % self.height()
                &&& c == (x % self.width() + column) % self.width()
                &&& 0 <= r < self.height()
                &&& 0 <= c < self.width()
                &&& self.sprite_row(y, r) == row
                &&& self.sprite_column(x, c) == column
            }),
            forall|r: int|
                0 <= r < self.height() && self.sprite_row(y, r) == row ==> r == (y + row)
                    % self.height(),
            forall|c: int|
                0 <= c < self.width() && self.sprite_column(x, c) == column ==> c == (x + column)
                    % self.width(),
    {
        lemma_wrap(self.height(), y, row);
        lemma_wrap(self.width(), x, column);
    }

    /// Drawing one more bit of the current sprite row changes the one cell
    /// that the bit lands on.
    proof fn lemma_next_bit(self, x: int, y: int, sprite: Seq<u8>, row: int, column: int)
        requires
            self.wf(),
            0 <= x,
            0 <= y,
            0 <= row < sprite.len() <= 32,
            0 <= column < 8,
        ensures
            ({
                let r0 = (y + row) % self.height();
                let c0 = (x + column) % self.width();
                let bit = sprite_bit(sprite[row], column);
                &&& forall|r: int, c: int|
                    0 <= r < 64 && 0 <= c < 128 ==> #[trigger] self.partly_drawn_cell(
                        x,
                        y,
                        sprite,
                        row,
                        column + 1,
                        r,
                        c,
                    ) == if r == r0 && c == c0 {
                        self.partly_drawn_cell(x, y, sprite, row, column, r, c) ^ bit
                    } else {
                        self.partly_drawn_cell(x, y, sprite, row, column, r, c)
                    }
                &&& self.partly_drawn_cell(x, y, sprite, row, column, r0, c0) == self.grid[r0][c0]
                &&& self.partly_erases(x, y, sprite, row, column + 1) == (self.partly_erases(
                    x,
                    y,
                    sprite,
                    row,
                    column,
                ) || (self.grid[r0][c0] == 1 && bit == 1))
            }),
    {
        self.lemma_sprite_cell(x, y, row, column);
        let r0 = (y + row) % self.height();
        let c0 = (x + column) % self.width();
        let bit = sprite_bit(sprite[row], column);
        if self.partly_erases(x, y, sprite, row, column + 1) {
            let (i, j) = choose|i: int, j: int|
                0 <= i && 0 <= j < 8 && (i < row || (i == row && j < column + 1))
                    && #[trigger] self.erases_at(x, y, sprite, i, j);
            if i == row && j == column {
                assert(self.grid[r0][c0] == 1 && bit == 1);
            } else {
                assert(self.erases_at(x, y, sprite, i, j));
                assert(self.partly_erases(x, y, sprite, row, column));
            }
        }
        if self.partly_erases(x, y, sprite, row, column) {
            let (i, j) = choose|i: int, j: int|
                0 <= i && 0 <= j < 8 && (i < row || (i == row && j < column))
                    && #[trigger] self.erases_at(x, y, sprite, i, j);
            assert(self.erases_at(x, y, sprite, i, j));
            assert(self.partly_erases(x, y, sprite, row, column + 1));
        }
        if self.grid[r0][c0] == 1 && bit == 1 {
            assert(self.erases_at(x, y, sprite, row, column));
            assert(self.partly_erases(x, y, sprite, row, column + 1));
        }
    }

    /// When all 8 bits of a sprite row have been drawn, the row is done.
    proof fn lemma_next_row(self, x: int, y: int, sprite: Seq<u8>, row: int)
        requires
            0 <= row,
        ensures
            forall|r: int, c: int|
                self.partly_drawn_cell(x, y, sprite, row, 8, r, c) == #[trigger] self.partly_drawn_cell(
                    x,
                    y,
                    sprite,
                    row + 1,
                    0,
                    r,
                    c,
                ),
            self.partly_erases(x, y, sprite, row, 8) == self.partly_erases(x, y, sprite, row + 1, 0),
    {
        if self.partly_erases(x, y, sprite, row, 8) {
            let (i, j) = choose|i: int, j: int|
                0 <= i && 0 <= j < 8 && (i < row || (i == row && j < 8))
                    && #[trigger] self.erases_at(x, y, sprite, i, j);
            assert(self.erases_at(x, y, sprite, i, j));
            assert(self.partly_erases(x, y, sprite, row + 1, 0));
        }
        if self.partly_erases(x, y, sprite, row + 1, 0) {
            let (i, j) = choose|i: int, j: int|
                0 <= i && 0 <= j < 8 && (i < row + 1 || (i == row + 1 && j < 0))
                    && #[trigger] self.erases_at(x, y, sprite, i, j);
            assert(self.erases_at(x, y, sprite, i, j));
            assert(self.partly_erases(x, y, sprite, row, 8));
        }
    }

    /// When all rows of a sprite have been drawn, the sprite is drawn.
    proof fn lemma_all_rows(self, x: int, y: int, sprite: Seq<u8>)
        ensures
            forall|r: int, c: int|
                0 <= r < 64 && 0 <= c < 128 ==> self.partly_drawn_cell(
                    x,
                    y,
                    sprite,
                    sprite.len() as int,
                    0,
                    r,
                    c,
                ) == #[trigger] self.drawn_cell(x, y, sprite, r, c),
            self.partly_erases(x, y, sprite, sprite.len() as int, 0) == self.erases(x, y, sprite),
    {
        if self.partly_erases(x, y, sprite, sprite.len() as int, 0) {
            let (i, j) = choose|i: int, j: int|
                0 <= i && 0 <= j < 8 && (i < sprite.len() || (i == sprite.len() && j < 0))
                    && #[trigger] self.erases_at(x, y, sprite, i, j);
            assert(self.erases_at(x, y, sprite, i, j));
            assert(self.erases(x, y, sprite));
        }
        if self.erases(x, y, sprite) {
            let (i, j) = choose|i: int, j: int|
                0 <= i < sprite.len() && 0 <= j < 8 && #[trigger] self.erases_at(
                    x,
                    y,
                    sprite,
                    i,
                    j,
                );
            assert(self.erases_at(x, y, sprite, i, j));
            assert(self.partly_erases(x, y, sprite, sprite.len() as int, 0));
        }
    }
}

impl DisplayState {
    /// Drawing the next byte of a 16x16 sprite as a sprite of its own, on a
    /// display that holds the part drawn so far, gives the part with that
    /// byte added.
    proof fn lemma_large_step(
        self,
        mid: DisplayState,
        x: int,
        y: int,
        sprite: Seq<u8>,
        row: int,
        byte_index: int,
    )
        requires
            0 <= x,
            0 <= y,
            0 <= row < 16,
            0 <= byte_index < 2,
            sprite.len() == 32,
            mid.high_resolution == self.high_resolution,
            forall|r: int, c: int|
                0 <= r < 64 && 0 <= c < 128 ==> #[trigger] mid.grid[r][c]
                    == self.partly_large_cell(x, y, sprite, row, byte_index, r, c),
        ensures
            ({
                let x1 = x % self.width() + 8 * byte_index;
                let y1 = y % self.height() + row;
                let one = seq![sprite[2 * row + byte_index]];
                &&& forall|r: int, c: int|
                    0 <= r < 64 && 0 <= c < 128 ==> #[trigger] mid.drawn_cell(x1, y1, one, r, c)
                        == self.partly_large_cell(x, y, sprite, row, byte_index + 1, r, c)
                &&& self.partly_erases_large(x, y, sprite, row, byte_index + 1) == (
                self.partly_erases_large(x, y, sprite, row, byte_index) || mid.erases(x1, y1, one))
            }),
    {
        let h = self.height();
        let w = self.width();
        let x1 = x % w + 8 * byte_index;
        let y1 = y % h + row;
        let one = seq![sprite[2 * row + byte_index]];
        assert forall|r: int, c: int| 0 <= r < 64 && 0 <= c < 128 implies #[trigger] mid.drawn_cell(
            x1,
            y1,
            one,
            r,
            c,
        ) == self.partly_large_cell(x, y, sprite, row, byte_index + 1, r, c) by {
            assert(mid.grid[r][c] == self.partly_large_cell(x, y, sprite, row, byte_index, r, c));
            self.lemma_large_step_cell(mid, x, y, sprite, row, byte_index, r, c);
        }
        if self.partly_erases_large(x, y, sprite, row, byte_index + 1) {
            let (i, j) = choose|i: int, j: int|
                0 <= i && 0 <= j < 16 && (i < row || (i == row && j < 8 * (byte_index + 1)))
                    && #[trigger] self.erases_large_at(x, y, sprite, i, j);
            if i == row && j >= 8 * byte_index {
                self.lemma_large_step_hit(mid, x, y, sprite, row, byte_index, j - 8 * byte_index);
                assert(mid.erases_at(x1, y1, one, 0, j - 8 * byte_index));
                assert(mid.erases(x1, y1, one));
            } else {
                assert(self.erases_large_at(x, y, sprite, i, j));
                assert(self.partly_erases_large(x, y, sprite, row, byte_index));
            }
        }
        if self.partly_erases_large(x, y, sprite, row, byte_index) {
            let (i, j) = choose|i: int, j: int|
                0 <= i && 0 <= j < 16 && (i < row || (i == row && j < 8 * byte_index))
                    && #[trigger] self.erases_large_at(x, y, sprite, i, j);
            assert(self.erases_large_at(x, y, sprite, i, j));
            assert(self.partly_erases_large(x, y, sprite, row, byte_index + 1));
        }
        if mid.erases(x1, y1, one) {
            let (i, j) = choose|i: int, j: int|
                0 <= i < one.len() && 0 <= j < 8 && #[trigger] mid.erases_at(x1, y1, one, i, j);
            self.lemma_large_step_hit(mid, x, y, sprite, row, byte_index, j);
            assert(self.erases_large_at(x, y, sprite, row, 8 * byte_index + j));
            assert(self.partly_erases_large(x, y, sprite, row, byte_index + 1));
        }
    }

    /// One cell of `lemma_large_step`.
    proof fn lemma_large_step_cell(
        self,
        mid: DisplayState,
        x: int,
        y: int,
        sprite: Seq<u8>,
        row: int,
        byte_index: int,
        r: int,
        c: int,
    )
        requires
            0 <= x,
            0 <= y,
            0 <= row < 16,
            0 <= byte_index < 2,
            sprite.len() == 32,
            0 <= r < 64,
            0 <= c < 128,
            mid.high_resolution == self.high_resolution,
            mid.grid[r][c] == self.partly_large_cell(x, y, sprite, row, byte_index, r, c),
        ensures
            mid.drawn_cell(
                x % self.width() + 8 * byte_index,
                y % self.height() + row,
                seq![sprite[2 * row + byte_index]],
                r,
                c,
            ) == self.partly_large_cell(x, y, sprite, row, byte_index + 1, r, c),
    {
        let h = self.height();
        let w = self.width();
        lemma_wrap_shift(h, y, row, r);
        lemma_wrap_shift(w, x, 8 * byte_index, c);
        let row_offset = wrapped_offset(h, y, r);
        let column_offset = wrapped_offset(w, x, c);
        let row_offset_1 = wrapped_offset(h, y % h + row, r);
        let column_offset_1 = wrapped_offset(w, x % w + 8 * byte_index, c);
        assert(h >= 32 && w >= 64);
        assert(row_offset_1 < 1 <==> row_offset == row);
        assert(column_offset_1 < 8 <==> 8 * byte_index <= column_offset < 8 * byte_index + 8);
        if row_offset == row && 8 * byte_index <= column_offset < 8 * byte_index + 8 {
            assert(row_offset_1 == 0);
            assert(column_offset_1 == column_offset - 8 * byte_index);
            assert(column_offset / 8 == byte_index);
            assert(column_offset % 8 == column_offset_1);
        }
    }

    /// One pixel of the next byte of a 16x16 sprite falls on the same cell
    /// whether it is drawn as part of the sprite or as bit of a sprite of
    /// one byte, and that cell is as it was before anything was drawn.
    proof fn lemma_large_step_hit(
        self,
        mid: DisplayState,
        x: int,
        y: int,
        sprite: Seq<u8>,
        row: int,
        byte_index: int,
        bit: int,
    )
        requires
            0 <= x,
            0 <= y,
            0 <= row < 16,
            0 <= byte_index < 2,
            0 <= bit < 8,
            sprite.len() == 32,
            mid.high_resolution == self.high_resolution,
            forall|r: int, c: int|
                0 <= r < 64 && 0 <= c < 128 ==> #[trigger] mid.grid[r][c]
                    == self.partly_large_cell(x, y, sprite, row, byte_index, r, c),
        ensures
            mid.erases_at(
                x % self.width() + 8 * byte_index,
                y % self.height() + row,
                seq![sprite[2 * row + byte_index]],
                0,
                bit,
            ) == self.erases_large_at(x, y, sprite, row, 8 * byte_index + bit),
    {
        let h = self.height();
        let w = self.width();
        let column = 8 * byte_index + bit;
        let r0 = (y + row) % h;
        let c0 = (x + column) % w;
        lemma_wrap(h, y, row);
        lemma_wrap(w, x, column);
        assert((y % h + row + 0) % h == r0);
        assert((x % w + 8 * byte_index + bit) % w == c0);
        assert(mid.grid[r0][c0] == self.partly_large_cell(x, y, sprite, row, byte_index, r0, c0));
        assert(self.sprite_row(y, r0) == row);
        assert(self.sprite_column(x, c0) == column);
        assert(mid.grid[r0][c0] == self.grid[r0][c0]);
        assert(column / 8 == byte_index);
        assert(column % 8 == bit);
    }

    /// When both bytes of a row of a 16x16 sprite have been drawn, the row
    /// is done.
    proof fn lemma_large_next_row(self, x: int, y: int, sprite: Seq<u8>, row: int)
        requires
            0 <= row,
        ensures
            forall|r: int, c: int|
                self.partly_large_cell(x, y, sprite, row, 2, r, c)
                    == #[trigger] self.partly_large_cell(x, y, sprite, row + 1, 0, r, c),
            self.partly_erases_large(x, y, sprite, row, 2) == self.partly_erases_large(
                x,
                y,
                sprite,
                row + 1,
                0,
            ),
    {
        if self.partly_erases_large(x, y, sprite, row, 2) {
            let (i, j) = choose|i: int, j: int|
                0 <= i && 0 <= j < 16 && (i < row || (i == row && j < 8 * 2))
                    && #[trigger] self.erases_large_at(x, y, sprite, i, j);
            assert(self.erases_large_at(x, y, sprite, i, j));
            assert(self.partly_erases_large(x, y, sprite, row + 1, 0));
        }
        if self.partly_erases_large(x, y, sprite, row + 1, 0) {
            let (i, j) = choose|i: int, j: int|
                0 <= i && 0 <= j < 16 && (i < row + 1 || (i == row + 1 && j < 8 * 0))
                    && #[trigger] self.erases_large_at(x, y, sprite, i, j);
            assert(self.erases_large_at(x, y, sprite, i, j));
            assert(self.partly_erases_large(x, y, sprite, row, 2));
        }
    }

    /// When all 16 rows of a 16x16 sprite have been drawn, the sprite is
    /// drawn.
    proof fn lemma_large_all_rows(self, x: int, y: int, sprite: Seq<u8>)
        ensures
            forall|r: int, c: int|
                0 <= r < 64 && 0 <= c < 128 ==> self.partly_large_cell(x, y, sprite, 16, 0, r, c)
                    == #[trigger] self.drawn_large_cell(x, y, sprite, r, c),
            self.partly_erases_large(x, y, sprite, 16, 0) == self.erases_large(x, y, sprite),
    {
        if self.partly_erases_large(x, y, sprite, 16, 0) {
            let (i, j) = choose|i: int, j: int|
                0 <= i && 0 <= j < 16 && (i < 16 || (i == 16 && j < 8 * 0))
                    && #[trigger] self.erases_large_at(x, y, sprite, i, j);
            assert(self.erases_large_at(x, y, sprite, i, j));
            assert(self.erases_large(x, y, sprite));
        }
        if self.erases_large(x, y, sprite) {
            let (i, j) = choose|i: int, j: int|
                0 <= i < 16 && 0 <= j < 16 && #[trigger] self.erases_large_at(x, y, sprite, i, j);
            assert(self.erases_large_at(x, y, sprite, i, j));
            assert(self.partly_erases_large(x, y, sprite, 16, 0));
        }
    }
}

/// A bit of a byte is 0 or 1.
proof fn lemma_sprite_bit_is_pixel(byte: u8, shift: u8)
    by (bit_vector)
    ensures
        (byte >> shift) & 1 <= 1,
{
}

/// Combining a pixel with a bit gives a pixel.
proof fn lemma_xor_pixels(cell: u8, bit: u8)
    by (bit_vector)
    requires
        cell <= 1,
        bit <= 1,
    ensures
        cell ^ bit <= 1,
{
}

/// Combining a cell twice with the same bit gives the cell back, and a set
/// bit turns an empty cell into a set one.
proof fn lemma_xor_twice(cell: u8, bit: u8)
    by (bit_vector)
    ensures
        (cell ^ bit) ^ bit == cell,
        0u8 ^ 1u8 == 1u8,
{
}

impl DisplayState {
    /// The cell on which bit `column` of byte `row` of a sprite falls holds,
    /// once the sprite is drawn, what it held before combined with that bit.
    pub proof fn lemma_drawn_at(self, x: int, y: int, sprite: Seq<u8>, row: int, column: int)
        requires
            self.wf(),
            0 <= x,
            0 <= y,
            0 <= row < sprite.len() <= 15,
            0 <= column < 8,
        ensures
            ({
                let r = (y + row) % self.height();
                let c = (x + column) % self.width();
                &&& 0 <= r < self.height()
                &&& 0 <= c < self.width()
                &&& self.drawn(x, y, sprite).grid[r][c] == self.grid[r][c] ^ sprite_bit(
                    sprite[row],
                    column,
                )
            }),
    {
        self.lemma_sprite_cell(x, y, row, column);
    }

    /// Drawing keeps every cell a pixel: on a display whose cells hold 0 or
    /// 1, the cells hold 0 or 1 after a sprite has been drawn.
    pub proof fn lemma_draw_keeps_pixels(self, x: int, y: int, sprite: Seq<u8>)
        requires
            self.pixels_only(),
        ensures
            self.drawn(x, y, sprite).pixels_only(),
            self.drawn_large(x, y, sprite).pixels_only(),
    {
        let small = self.drawn(x, y, sprite);
        let large = self.drawn_large(x, y, sprite);
        assert forall|r: int, c: int| 0 <= r < 64 && 0 <= c < 128 implies #[trigger] small.grid[r][c]
            <= 1 by {
            let row = self.sprite_row(y, r);
            let column = self.sprite_column(x, c);
            assert(self.grid[r][c] <= 1);
            if 0 <= column < 8 {
                lemma_sprite_bit_is_pixel(sprite[row], (7 - column) as u8);
                lemma_xor_pixels(self.grid[r][c], sprite_bit(sprite[row], column));
            }
        }
        assert forall|r: int, c: int| 0 <= r < 64 && 0 <= c < 128 implies #[trigger] large.grid[r][c]
            <= 1 by {
            let row = self.sprite_row(y, r);
            let column = self.sprite_column(x, c);
            assert(self.grid[r][c] <= 1);
            if 0 <= column < 16 {
                lemma_sprite_bit_is_pixel(sprite[2 * row + column / 8], (7 - column % 8) as u8);
                lemma_xor_pixels(self.grid[r][c], Self::large_pixel(sprite, row, column));
            }
        }
    }

    /// Drawing a sprite changes no cell outside the effective resolution.
    pub proof fn lemma_draw_stays_inside(self, x: int, y: int, sprite: Seq<u8>, r: int, c: int)
        requires
            0 <= r < 64,
            0 <= c < 128,
            r >= self.height() || c >= self.width(),
        ensures
            self.drawn(x, y, sprite).grid[r][c] == self.grid[r][c],
            self.drawn_large(x, y, sprite).grid[r][c] == self.grid[r][c],
    {
    }

    /// Drawing the same sprite twice at the same place gives the display
    /// back as it was, and the second drawing erases every pixel that the
    /// first one set.
    pub proof fn lemma_redraw_restores(self, x: int, y: int, sprite: Seq<u8>)
        requires
            self.wf(),
            0 <= x,
            0 <= y,
            sprite.len() <= 15,
        ensures
            self.drawn(x, y, sprite).drawn(x, y, sprite) == self,
            forall|row: int, column: int|
                0 <= row < sprite.len() && 0 <= column < 8 && sprite_bit(sprite[row], column) == 1
                    && self.grid[(y + row) % self.height()][(x + column) % self.width()] == 0
                    ==> #[trigger] self.drawn(x, y, sprite).erases_at(x, y, sprite, row, column),
            (exists|row: int, column: int|
                0 <= row < sprite.len() && 0 <= column < 8 && sprite_bit(sprite[row], column) == 1
                    && #[trigger] self.grid[(y + row) % self.height()][(x + column)
                    % self.width()] == 0) ==> self.drawn(x, y, sprite).erases(x, y, sprite),
    {
        let once = self.drawn(x, y, sprite);
        let twice = once.drawn(x, y, sprite);
        assert forall|r: int, c: int| 0 <= r < 64 && 0 <= c < 128 implies twice.grid[r][c]
            == self.grid[r][c] by {
            let bit = sprite_bit(sprite[self.sprite_row(y, r)], self.sprite_column(x, c));
            lemma_xor_twice(self.grid[r][c], bit);
        }
        assert(twice.grid =~~= self.grid);
        assert forall|row: int, column: int|
            0 <= row < sprite.len() && 0 <= column < 8 && sprite_bit(sprite[row], column) == 1
                && self.grid[(y + row) % self.height()][(x + column) % self.width()]
                == 0 implies #[trigger] once.erases_at(x, y, sprite, row, column) by {
            self.lemma_drawn_at(x, y, sprite, row, column);
            lemma_xor_twice(0, 1);
        }
        if exists|row: int, column: int|
            0 <= row < sprite.len() && 0 <= column < 8 && sprite_bit(sprite[row], column) == 1
                && #[trigger] self.grid[(y + row) % self.height()][(x + column) % self.width()]
                == 0 {
            let (row, column) = choose|row: int, column: int|
                0 <= row < sprite.len() && 0 <= column < 8 && sprite_bit(sprite[row], column) == 1
                    && #[trigger] self.grid[(y + row) % self.height()][(x + column)
                    % self.width()] == 0;
            assert(once.erases_at(x, y, sprite, row, column));
        }
    }
}

impl View for Display {
    type V = DisplayState;

    open spec fn view(&self) -> DisplayState {
        DisplayState {
            grid: Seq::new(64, |r: int| self.data@[r]@),
            high_resolution: self.high_resolution,
        }
    }
}

impl Display {
    /// Initialize a new display. The display is initially in low resolution
    /// mode (64x32) and the frame buffer is initialized to all zero values.
    pub fn new() -> (display: Self)
        ensures
            display@ == DisplayState::blank(),
    {
        let display = Self { data: [[0u8; 128]; 64], high_resolution: false };
        assert(display@.grid =~~= DisplayState::blank().grid);
        display
    }

    /// Clear the frame buffer within the effective resolution.
    pub fn clear(&mut self)
        ensures
            final(self)@ == old(self)@.cleared(),
    {
        let height = self.height();
        let width = self.width();
        let mut row: usize = 0;
        while row < height
            invariant
                row <= height == old(self)@.height(),
                width == old(self)@.width(),
                self.high_resolution == old(self).high_resolution,
                forall|r: int, c: int|
                    0 <= r < 64 && 0 <= c < 128 ==> self.data@[r]@[c] == if r < row && c < width {
                        0u8
                    } else {
                        old(self).data@[r]@[c]
                    },
            decreases height - row,
        {
            let mut column: usize = 0;
            while column < width
                invariant
                    row < height == old(self)@.height(),
                    column <= width == old(self)@.width(),
                    self.high_resolution == old(self).high_resolution,
                    forall|r: int, c: int|
                        0 <= r < 64 && 0 <= c < 128 ==> self.data@[r]@[c] == if (r < row && c
                            < width) || (r == row && c < column) {
                            0u8
                        } else {
                            old(self).data@[r]@[c]
                        },
                decreases width - column,
            {
                self.data[row][column] = 0;
                column += 1;
            }
            row += 1;
        }
        assert(self@.grid =~~= old(self)@.cleared().grid);
    }

    /// Returns the current effective height of the display given its mode.
    pub fn height(&self) -> (height: usize)
        ensures
            height == self@.height(),
    {
        if self.high_resolution {
            DISPLAY_HEIGHT
        } else {
            DISPLAY_HEIGHT / 2
        }
    }

    /// Returns the current effective width of the display given its mode.
    pub fn width(&self) -> (width: usize)
        ensures
            width == self@.width(),
    {
        if self.high_resolution {
            DISPLAY_WIDTH
        } else {
            DISPLAY_WIDTH / 2
        }
    }

    /// Draw sprite data onto the screen at the given coordinates, wrapping
    /// at the edges of the effective resolution. Returns a value indicating
    /// whether or not any pixels were erased during the rendering process. A
    /// sprite of more than 15 bytes is refused and nothing is drawn.
    pub fn draw(&mut self, x: usize, y: usize, sprite_data: &[u8]) -> (result: OktoResult<bool>)
        ensures
            sprite_data@.len() <= 15 ==> result == Ok::<bool, OktoError>(
                old(self)@.erases(x as int, y as int, sprite_data@),
            ) && final(self)@ == old(self)@.drawn(x as int, y as int, sprite_data@),
            sprite_data@.len() > 15 ==> result is Err && result->Err_0.kind
                == OktoErrorKind::InvalidSprite && *final(self) == *old(self),
    {
        if sprite_data.len() > MAX_SPRITE_BYTES {
            return Err(OktoError::new(OktoErrorKind::InvalidSprite));
        }
        let ghost before = self@;
        let ghost sprite = sprite_data@;
        let height = self.height();
        let width = self.width();
        let left = x % width;
        let top = y % height;
        let mut pixels_erased = false;
        let mut row: usize = 0;
        while row < sprite_data.len()
            invariant
                row <= sprite_data@.len() <= 15,
                sprite == sprite_data@,
                before == old(self)@,
                self.high_resolution == before.high_resolution,
                height == before.height(),
                width == before.width(),
                left == x % width,
                top == y % height,
                forall|r: int, c: int|
                    0 <= r < 64 && 0 <= c < 128 ==> #[trigger] self.data@[r]@[c]
                        == before.partly_drawn_cell(x as int, y as int, sprite, row as int, 0, r, c),
                pixels_erased == before.partly_erases(x as int, y as int, sprite, row as int, 0),
            decreases sprite_data@.len() - row,
        {
            let ycoord = (top + row) % height;
            let mut column: usize = 0;
            while column < PIXELS_PER_BYTE
                invariant
                    row < sprite_data@.len() <= 15,
                    column <= 8,
                    sprite == sprite_data@,
                    before == old(self)@,
                    self.high_resolution == before.high_resolution,
                    height == before.height(),
                    width == before.width(),
                    left == x % width,
                    top == y % height,
                    ycoord == (top + row) % (height as int),
                    forall|r: int, c: int|
                        0 <= r < 64 && 0 <= c < 128 ==> #[trigger] self.data@[r]@[c]
                            == before.partly_drawn_cell(
                            x as int,
                            y as int,
                            sprite,
                            row as int,
                            column as int,
                            r,
                            c,
                        ),
                    pixels_erased == before.partly_erases(
                        x as int,
                        y as int,
                        sprite,
                        row as int,
                        column as int,
                    ),
                decreases 8 - column,
            {
                let pixel_data = sprite_bit_at(sprite_data[row], column);
                let xcoord = (left + column) % width;
                proof {
                    before.lemma_sprite_cell(x as int, y as int, row as int, column as int);
                }
                // If we will end up erasing a set pixel, report it.
                if self.data[ycoord][xcoord] == 1 && pixel_data == 1 {
                    pixels_erased = true;
                }
                self.data[ycoord][xcoord] ^= pixel_data;
                proof {
                    before.lemma_next_bit(x as int, y as int, sprite, row as int, column as int);
                }
                column += 1;
            }
            proof {
                before.lemma_next_row(x as int, y as int, sprite, row as int);
            }
            row += 1;
        }
        proof {
            before.lemma_all_rows(x as int, y as int, sprite);
            assert(self@.grid =~~= before.drawn(x as int, y as int, sprite).grid);
        }
        Ok(pixels_erased)
    }

    /// Draw a 16x16 sprite, given as 16 rows of two bytes each, onto the
    /// screen at the given coordinates. Each byte is drawn as a sprite of
    /// one row. Returns whether any pixels were erased. Sprite data of any
    /// other size than 32 bytes is refused and nothing is drawn.
    pub fn draw_large(&mut self, x: usize, y: usize, sprite_data: &[u8]) -> (result: OktoResult<
        bool,
    >)
        ensures
            sprite_data@.len() == 32 ==> result == Ok::<bool, OktoError>(
                old(self)@.erases_large(x as int, y as int, sprite_data@),
            ) && final(self)@ == old(self)@.drawn_large(x as int, y as int, sprite_data@),
            sprite_data@.len() != 32 ==> result is Err && result->Err_0.kind
                == OktoErrorKind::AddressOutOfRange && *final(self) == *old(self),
    {
        if sprite_data.len() != 32 {
            return Err(OktoError::new(OktoErrorKind::AddressOutOfRange));
        }
        let ghost before = self@;
        let ghost sprite = sprite_data@;
        let left = x % self.width();
        let top = y % self.height();
        let mut pixels_erased = false;
        let mut yoffset: usize = 0;
        while yoffset < 16
            invariant
                yoffset <= 16,
                sprite_data@.len() == 32,
                sprite == sprite_data@,
                before == old(self)@,
                self.high_resolution == before.high_resolution,
                left == x % (before.width() as usize),
                top == y % (before.height() as usize),
                forall|r: int, c: int|
                    0 <= r < 64 && 0 <= c < 128 ==> #[trigger] self.data@[r]@[c]
                        == before.partly_large_cell(
                        x as int,
                        y as int,
                        sprite,
                        yoffset as int,
                        0,
                        r,
                        c,
                    ),
                pixels_erased == before.partly_erases_large(
                    x as int,
                    y as int,
                    sprite,
                    yoffset as int,
                    0,
                ),
            decreases 16 - yoffset,
        {
            let mut xoffset: usize = 0;
            while xoffset < 2
                invariant
                    yoffset < 16,
                    xoffset <= 2,
                    sprite_data@.len() == 32,
                    sprite == sprite_data@,
                    before == old(self)@,
                    self.high_resolution == before.high_resolution,
                    left == x % (before.width() as usize),
                    top == y % (before.height() as usize),
                    forall|r: int, c: int|
                        0 <= r < 64 && 0 <= c < 128 ==> #[trigger] self.data@[r]@[c]
                            == before.partly_large_cell(
                            x as int,
                            y as int,
                            sprite,
                            yoffset as int,
                            xoffset as int,
                            r,
                            c,
                        ),
                    pixels_erased == before.partly_erases_large(
                        x as int,
                        y as int,
                        sprite,
                        yoffset as int,
                        xoffset as int,
                    ),
                decreases 2 - xoffset,
            {
                let ghost mid = self@;
                let byte = [sprite_data[(yoffset * 2) + xoffset]];
                proof {
                    assert(byte@ =~= seq![sprite[2 * yoffset + xoffset]]);
                    assert forall|r: int, c: int|
                        0 <= r < 64 && 0 <= c < 128 implies #[trigger] mid.grid[r][c]
                        == before.partly_large_cell(
                        x as int,
                        y as int,
                        sprite,
                        yoffset as int,
                        xoffset as int,
                        r,
                        c,
                    ) by {
                        assert(mid.grid[r][c] == self.data@[r]@[c]);
                    }
                    before.lemma_large_step(
                        mid,
                        x as int,
                        y as int,
                        sprite,
                        yoffset as int,
                        xoffset as int,
                    );
                }
                match self.draw(left + (xoffset * 8), top + yoffset, &byte) {
                    Ok(erased) => {
                        pixels_erased = pixels_erased || erased;
                    },
                    Err(error) => {
                        return Err(error);
                    },
                }
                proof {
                    assert forall|r: int, c: int|
                        0 <= r < 64 && 0 <= c < 128 implies #[trigger] self.data@[r]@[c]
                        == before.partly_large_cell(
                        x as int,
                        y as int,
                        sprite,
                        yoffset as int,
                        xoffset + 1,
                        r,
                        c,
                    ) by {
                        assert(self@.grid[r][c] == self.data@[r]@[c]);
                        assert(self@.grid[r][c] == mid.drawn_cell(
                            left + (xoffset * 8),
                            top + yoffset,
                            byte@,
                            r,
                            c,
                        ));
                    }
                }
                xoffset += 1;
            }
            proof {
                before.lemma_large_next_row(x as int, y as int, sprite, yoffset as int);
            }
            yoffset += 1;
        }
        proof {
            before.lemma_large_all_rows(x as int, y as int, sprite);
            assert(self@.grid =~~= before.drawn_large(x as int, y as int, sprite).grid);
        }
        Ok(pixels_erased)
    }

    /// Shift the contents of the frame buffer down the given number of
    /// lines. The lines that come in at the top are filled with zeros.
    pub fn scroll_down(&mut self, num_lines: usize)
        ensures
            final(self)@ == old(self)@.scrolled_down(num_lines as int),
    {
        let mut new_buffer = [[0u8; 128]; 64];
        let mut height: usize = num_lines;
        while height < DISPLAY_HEIGHT
            invariant
                num_lines <= height,
                forall|r: int, c: int|
                    0 <= r < 64 && 0 <= c < 128 ==> new_buffer@[r]@[c] == if num_lines <= r
                        < height {
                        self.data@[r - num_lines]@[c]
                    } else {
                        0u8
                    },
            decreases 64 - height,
        {
            let mut width: usize = 0;
            while width < DISPLAY_WIDTH
                invariant
                    num_lines <= height < 64,
                    width <= 128,
                    forall|r: int, c: int|
                        0 <= r < 64 && 0 <= c < 128 ==> new_buffer@[r]@[c] == if (num_lines
                            <= r < height) || (r == height && c < width) {
                            self.data@[r - num_lines]@[c]
                        } else {
                            0u8
                        },
                decreases 128 - width,
            {
                new_buffer[height][width] = self.data[height - num_lines][width];
                width += 1;
            }
            height += 1;
        }
        self.data = new_buffer;
        assert(self@.grid =~~= old(self)@.scrolled_down(num_lines as int).grid);
    }

    /// Scroll the contents of the frame buffer 4 pixels to the left.
    pub fn scroll_left(&mut self)
        ensures
            final(self)@ == old(self)@.scrolled_left(),
    {
        let mut new_buffer = [[0u8; 128]; 64];
        let mut height: usize = 0;
        while height < DISPLAY_HEIGHT
            invariant
                height <= 64,
                forall|r: int, c: int|
                    0 <= r < 64 && 0 <= c < 128 ==> new_buffer@[r]@[c] == if r < height && c
                        < 124 {
                        self.data@[r]@[c + 4]
                    } else {
                        0u8
                    },
            decreases 64 - height,
        {
            let mut width: usize = 0;
            while width < DISPLAY_WIDTH - 4
                invariant
                    height < 64,
                    width <= 124,
                    forall|r: int, c: int|
                        0 <= r < 64 && 0 <= c < 128 ==> new_buffer@[r]@[c] == if (r < height
                            && c < 124) || (r == height && c < width) {
                            self.data@[r]@[c + 4]
                        } else {
                            0u8
                        },
                decreases 124 - width,
            {
                new_buffer[height][width] = self.data[height][width + 4];
                width += 1;
            }
            height += 1;
        }
        self.data = new_buffer;
        assert(self@.grid =~~= old(self)@.scrolled_left().grid);
    }

    /// Scroll the contents of the frame buffer 4 pixels to the right.
    pub fn scroll_right(&mut self)
        ensures
            final(self)@ == old(self)@.scrolled_right(),
    {
        let mut new_buffer = [[0u8; 128]; 64];
        let mut height: usize = 0;
        while height < DISPLAY_HEIGHT
            invariant
                height <= 64,
                forall|r: int, c: int|
                    0 <= r < 64 && 0 <= c < 128 ==> new_buffer@[r]@[c] == if r < height && c
                        >= 4 {
                        self.data@[r]@[c - 4]
                    } else {
                        0u8
                    },
            decreases 64 - height,
        {
            let mut width: usize = 4;
            while width < DISPLAY_WIDTH
                invariant
                    height < 64,
                    4 <= width <= 128,
                    forall|r: int, c: int|
                        0 <= r < 64 && 0 <= c < 128 ==> new_buffer@[r]@[c] == if (r < height
                            && c >= 4) || (r == height && 4 <= c < width) {
                            self.data@[r]@[c - 4]
                        } else {
                            0u8
                        },
                decreases 128 - width,
            {
                new_buffer[height][width] = self.data[height][width - 4];
                width += 1;
            }
            height += 1;
        }
        self.data = new_buffer;
        assert(self@.grid =~~= old(self)@.scrolled_right().grid);
    }
}

} // verus!
