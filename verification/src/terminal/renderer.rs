use crate::ascii::color::{color_writable, fg_escape, push_fg_escape, ColorMode};
use crate::ascii::mapper::{AsciiCell, AsciiFrame};
use crate::text::{decimal, push_char, push_decimal};
use vstd::prelude::*;

verus! {

/// The escape sequence that resets colors.
pub open spec fn reset_seq() -> Seq<char> {
    seq!['\x1b', '[', '0', 'm']
}

/// The color of a cell.
pub open spec fn color_of(c: AsciiCell) -> (u8, u8, u8) {
    (c.r, c.g, c.b)
}

/// Whether every cell's color can be written in `mode`.
pub open spec fn cells_writable(cells: Seq<AsciiCell>, mode: ColorMode) -> bool {
    forall|i: int| 0 <= i < cells.len() ==> color_writable(mode, #[trigger] cells[i].r, cells[i].g, cells[i].b)
}

/// The colored text of `cells`: a color escape before each cell whose color differs from the
/// previous cell's (`last` is the color already in effect), then the glyph.
pub open spec fn colored_cells(cells: Seq<AsciiCell>, mode: ColorMode, last: Option<(u8, u8, u8)>) -> Seq<char>
    decreases cells.len(),
{
    if cells.len() == 0 {
        Seq::empty()
    } else {
        let c = cells[0];
        let esc = if last != Some(color_of(c)) {
            fg_escape(mode, c.r, c.g, c.b)
        } else {
            Seq::empty()
        };
        esc.push(c.glyph as char) + colored_cells(cells.drop_first(), mode, Some(color_of(c)))
    }
}

/// The glyphs of `cells`, as characters.
pub open spec fn plain_cells(cells: Seq<AsciiCell>) -> Seq<char> {
    cells.map_values(|c: AsciiCell| c.glyph as char)
}

/// The text of one row: the glyphs alone without color, else the colored cells and a reset.
pub open spec fn row_text(cells: Seq<AsciiCell>, mode: ColorMode) -> Seq<char> {
    if mode == ColorMode::NoColor {
        plain_cells(cells)
    } else {
        colored_cells(cells, mode, None) + reset_seq()
    }
}

/// The text of one row of cells.
pub fn build_row(cells: &[AsciiCell], color_mode: ColorMode) -> (out: String)
    requires
        cells_writable(cells@, color_mode),
    ensures
        out@ == row_text(cells@, color_mode),
{
    if color_mode == ColorMode::NoColor {
        let mut out = String::new();
        let mut i: usize = 0;
        while i < cells.len()
            invariant
                i <= cells@.len(),
                out@ == plain_cells(cells@.take(i as int)),
            decreases cells@.len() - i,
        {
            push_char(&mut out, cells[i].glyph as char);
            assert(plain_cells(cells@.take(i + 1)) =~= plain_cells(cells@.take(i as int)).push(
                cells@[i as int].glyph as char,
            ));
            i = i + 1;
        }
        assert(cells@.take(i as int) =~= cells@);
        return out;
    }
    let mut out = String::new();
    let mut last_color: Option<(u8, u8, u8)> = None;
    let mut i: usize = 0;
    assert(cells@.skip(0) =~= cells@);
    while i < cells.len()
        invariant
            i <= cells@.len(),
            cells_writable(cells@, color_mode),
            out@ + colored_cells(cells@.skip(i as int), color_mode, last_color) == colored_cells(
                cells@,
                color_mode,
                None,
            ),
        decreases cells@.len() - i,
    {
        let cell = cells[i];
        let ghost before = out@;
        let ghost rest = cells@.skip(i as int);
        assert(rest[0] == cell);
        assert(rest.drop_first() =~= cells@.skip(i + 1));
        let changed = match last_color {
            Some((lr, lg, lb)) => lr != cell.r || lg != cell.g || lb != cell.b,
            None => true,
        };
        assert(changed == (last_color != Some(color_of(cell))));
        if changed {
            push_fg_escape(&mut out, color_mode, cell.r, cell.g, cell.b);
            last_color = Some((cell.r, cell.g, cell.b));
        }
        push_char(&mut out, cell.glyph as char);
        proof {
            let esc = if changed {
                fg_escape(color_mode, cell.r, cell.g, cell.b)
            } else {
                Seq::<char>::empty()
            };
            assert(out@ =~= before + esc.push(cell.glyph as char));
            assert(last_color == Some(color_of(cell)));
        }
        i = i + 1;
    }
    assert(cells@.skip(i as int) =~= Seq::<AsciiCell>::empty());
    out.append("\x1b[0m");
    proof {
        reveal_strlit("\x1b[0m");
    }
    out
}

/// The text written for cell `i` of a colored row: an escape for its own color when it is the
/// first cell or its color differs in any channel from the cell before it, then its glyph.
pub open spec fn cell_piece(cells: Seq<AsciiCell>, mode: ColorMode, i: int) -> Seq<char> {
    let c = cells[i];
    let new_color = i == 0 || cells[i - 1].r != c.r || cells[i - 1].g != c.g || cells[i - 1].b
        != c.b;
    let esc = if new_color {
        fg_escape(mode, c.r, c.g, c.b)
    } else {
        Seq::empty()
    };
    esc.push(c.glyph as char)
}

/// The pieces of the first `n` cells, one after another.
pub open spec fn cell_pieces(cells: Seq<AsciiCell>, mode: ColorMode, n: nat) -> Seq<char>
    decreases n,
{
    if n == 0 {
        Seq::empty()
    } else {
        cell_pieces(cells, mode, (n - 1) as nat) + cell_piece(cells, mode, n - 1)
    }
}

proof fn lemma_colored_cells_as_pieces(cells: Seq<AsciiCell>, mode: ColorMode, n: nat)
    requires
        n <= cells.len(),
    ensures
        colored_cells(cells, mode, None) == cell_pieces(cells, mode, n) + colored_cells(
            cells.skip(n as int),
            mode,
            if n == 0 {
                None
            } else {
                Some(color_of(cells[n - 1]))
            },
        ),
    decreases n,
{
    if n == 0 {
        assert(cells.skip(0) =~= cells);
        assert(cell_pieces(cells, mode, 0) + colored_cells(cells, mode, None) =~= colored_cells(
            cells,
            mode,
            None,
        ));
    } else {
        let m = (n - 1) as nat;
        lemma_colored_cells_as_pieces(cells, mode, m);
        let rest = cells.skip(m as int);
        let last = if m == 0 {
            None
        } else {
            Some(color_of(cells[m - 1]))
        };
        assert(rest[0] == cells[m as int]);
        assert(rest.drop_first() =~= cells.skip(n as int));
        let c = cells[m as int];
        assert((last != Some(color_of(c))) == (m == 0 || cells[m - 1].r != c.r || cells[m - 1].g
            != c.g || cells[m - 1].b != c.b));
        assert(colored_cells(rest, mode, last) == cell_piece(cells, mode, m as int) + colored_cells(
            cells.skip(n as int),
            mode,
            Some(color_of(c)),
        ));
        assert(cell_pieces(cells, mode, m) + colored_cells(rest, mode, last) =~= cell_pieces(
            cells,
            mode,
            n,
        ) + colored_cells(cells.skip(n as int), mode, Some(color_of(c))));
    }
}

/// A colored row writes, for each cell in order, an escape for the cell's own color whenever
/// it is the first cell or differs in any of red, green or blue from the cell before, then the
/// cell's glyph, and ends with a color reset; a row without color is the glyphs alone. So the
/// color in effect when each glyph is written is that cell's own color.
pub proof fn law_row_escapes_on_every_color_change(cells: Seq<AsciiCell>, mode: ColorMode)
    ensures
        mode != ColorMode::NoColor ==> row_text(cells, mode) == cell_pieces(cells, mode, cells.len())
            + reset_seq(),
        mode == ColorMode::NoColor ==> row_text(cells, mode).len() == cells.len()
            && forall|i: int| 0 <= i < cells.len() ==> #[trigger] row_text(cells, mode)[i] == cells[i].glyph as char,
{
    lemma_colored_cells_as_pieces(cells, mode, cells.len());
    assert(cells.skip(cells.len() as int) =~= Seq::<AsciiCell>::empty());
    assert(cell_pieces(cells, mode, cells.len()) + Seq::<char>::empty() =~= cell_pieces(
        cells,
        mode,
        cells.len(),
    ));
}

/// The cells of row `y` of a frame.
pub open spec fn frame_row(frame: &AsciiFrame, y: int) -> Seq<AsciiCell> {
    frame.cells@.subrange(y * frame.width, y * frame.width + frame.width)
}

/// The text of every row of a frame.
pub fn build_rows(frame: &AsciiFrame, color_mode: ColorMode) -> (rows: Vec<String>)
    requires
        frame.wf(),
        cells_writable(frame.cells@, color_mode),
    ensures
        rows@.len() == frame.height,
        forall|y: int| 0 <= y < frame.height ==> #[trigger] rows@[y]@ == row_text(frame_row(frame, y), color_mode),
{
    let mut rows: Vec<String> = Vec::new();
    let mut y: u16 = 0;
    while y < frame.height
        invariant
            y <= frame.height,
            frame.wf(),
            cells_writable(frame.cells@, color_mode),
            rows@.len() == y,
            forall|j: int| 0 <= j < y ==> #[trigger] rows@[j]@ == row_text(frame_row(frame, j), color_mode),
        decreases frame.height - y,
    {
        assert(y * frame.width + frame.width <= frame.width * frame.height) by (nonlinear_arith)
            requires
                y < frame.height,
                frame.width >= 0,
        ;
        let cells = frame.row(y);
        proof {
            assert forall|i: int| 0 <= i < cells@.len() implies color_writable(
                color_mode,
                #[trigger] cells@[i].r,
                cells@[i].g,
                cells@[i].b,
            ) by {
                assert(0 <= y * frame.width) by (nonlinear_arith)
                    requires
                        y >= 0,
                        frame.width >= 0,
                ;
                assert(cells@[i] == frame.cells@[y * frame.width + i]);
            }
        }
        rows.push(build_row(cells, color_mode));
        y = y + 1;
    }
    rows
}

/// The escape sequence that moves the cursor to the start of terminal line `n`.
pub open spec fn cursor_to_line(n: nat) -> Seq<char> {
    seq!['\x1b', '['] + decimal(n) + seq![';', '1', 'H']
}

/// The text that redraws line `n` with `row`.
pub open spec fn line_update(n: nat, row: Seq<char>) -> Seq<char> {
    cursor_to_line(n) + row + reset_seq() + seq!['\x1b', '[', 'K']
}

/// The text that redraws those of the first `count` rows that differ from what is on screen.
pub open spec fn changed_rows(on_screen: Seq<Seq<char>>, rows: Seq<Seq<char>>, count: nat) -> Seq<char>
    decreases count,
{
    if count == 0 {
        Seq::empty()
    } else {
        let i = count - 1;
        let part = if on_screen[i] != rows[i] {
            line_update(count, rows[i])
        } else {
            Seq::empty()
        };
        changed_rows(on_screen, rows, (count - 1) as nat) + part
    }
}

/// `n` empty rows.
pub open spec fn blank_rows(n: nat) -> Seq<Seq<char>> {
    Seq::new(n, |i: int| Seq::<char>::empty())
}

/// What the terminal shows, as the renderer remembers it.
pub struct ScreenModel {
    pub rows: Seq<Seq<char>>,
    pub width: u16,
    pub height: u16,
}

/// The text written for a frame whose rows are `rows`, and the screen after it.
pub open spec fn frame_update(before: ScreenModel, width: u16, height: u16, rows: Seq<Seq<char>>, status: Seq<char>) -> (Seq<char>, ScreenModel) {
    let resized = before.width != width || before.height != height;
    let on_screen = if resized {
        blank_rows(height as nat)
    } else {
        before.rows
    };
    let clear = if resized {
        seq!['\x1b', '[', '2', 'J']
    } else {
        Seq::empty()
    };
    let text = clear + changed_rows(on_screen, rows, rows.len()) + cursor_to_line((height + 1) as nat)
        + status + seq!['\x1b', '[', 'K'];
    (text, ScreenModel { rows, width, height })
}

/// Draws frames on a terminal, redrawing only the rows that changed since the last frame.
pub struct TerminalRenderer {
    prev_rows: Vec<String>,
    prev_width: u16,
    prev_height: u16,
}

impl View for TerminalRenderer {
    type V = ScreenModel;

    closed spec fn view(&self) -> ScreenModel {
        ScreenModel {
            rows: self.prev_rows@.map_values(|s: String| s@),
            width: self.prev_width,
            height: self.prev_height,
        }
    }
}

impl TerminalRenderer {
    /// The renderer keeps one remembered row per line of the last frame.
    pub open spec fn wf(&self) -> bool {
        self@.rows.len() == self@.height
    }

    /// A renderer that has drawn nothing yet.
    pub fn new() -> (r: TerminalRenderer)
        ensures
            r.wf(),
            r@.rows.len() == 0,
            r@.width == 0,
            r@.height == 0,
    {
        TerminalRenderer { prev_rows: Vec::new(), prev_width: 0, prev_height: 0 }
    }

    /// The text that draws `frame` with `status_line` below it: a screen clear when the frame's
    /// size changed, the rows that differ from the screen, then the status line.
    pub fn render(&mut self, frame: &AsciiFrame, color_mode: ColorMode, status_line: &str) -> (out: String)
        requires
            old(self).wf(),
            frame.wf(),
            cells_writable(frame.cells@, color_mode),
        ensures
            final(self).wf(),
            ({
                let rows = Seq::new(
                    frame.height as nat,
                    |y: int| row_text(frame_row(frame, y), color_mode),
                );
                let (text, after) = frame_update(old(self)@, frame.width, frame.height, rows, status_line@);
                out@ == text && final(self)@ == after
            }),
    {
        let rows = build_rows(frame, color_mode);
        let ghost rows_view = Seq::new(
            frame.height as nat,
            |y: int| row_text(frame_row(frame, y), color_mode),
        );
        assert(rows@.map_values(|s: String| s@) =~= rows_view);
        let mut out = String::new();
        let resized = self.prev_width != frame.width || self.prev_height != frame.height;
        if resized {
            out.append("\x1b[2J");
            proof {
                reveal_strlit("\x1b[2J");
            }
            let mut blank: Vec<String> = Vec::new();
            let mut k: u16 = 0;
            while k < frame.height
                invariant
                    k <= frame.height,
                    blank@.len() == k,
                    forall|i: int| 0 <= i < k ==> #[trigger] blank@[i]@ == Seq::<char>::empty(),
                decreases frame.height - k,
            {
                blank.push(String::new());
                k = k + 1;
            }
            assert(blank@.map_values(|s: String| s@) =~= blank_rows(frame.height as nat));
            self.prev_rows = blank;
            self.prev_width = frame.width;
            self.prev_height = frame.height;
        }
        let ghost on_screen = self.prev_rows@.map_values(|s: String| s@);
        let ghost start = out@;
        let mut idx: usize = 0;
        while idx < rows.len()
            invariant
                idx <= rows@.len(),
                rows@.len() == frame.height,
                self.prev_rows@.len() == frame.height,
                on_screen == self.prev_rows@.map_values(|s: String| s@),
                rows@.map_values(|s: String| s@) == rows_view,
                out@ == start + changed_rows(on_screen, rows_view, idx as nat),
            decreases rows@.len() - idx,
        {
            let ghost before = out@;
            if self.prev_rows[idx] != rows[idx] {
                out.append("\x1b[");
                push_decimal(&mut out, idx as u64 + 1);
                out.append(";1H");
                out.append(rows[idx].as_str());
                out.append("\x1b[0m\x1b[K");
                proof {
                    reveal_strlit("\x1b[");
                    reveal_strlit(";1H");
                    reveal_strlit("\x1b[0m\x1b[K");
                    assert(out@ =~= before + line_update((idx + 1) as nat, rows_view[idx as int]));
                }
            }
            proof {
                assert(on_screen[idx as int] == self.prev_rows@[idx as int]@);
                assert(rows_view[idx as int] == rows@[idx as int]@);
                assert(out@ =~= start + changed_rows(on_screen, rows_view, (idx + 1) as nat));
            }
            idx = idx + 1;
        }
        out.append("\x1b[");
        push_decimal(&mut out, frame.height as u64 + 1);
        out.append(";1H");
        out.append(status_line);
        out.append("\x1b[K");
        proof {
            reveal_strlit("\x1b[");
            reveal_strlit(";1H");
            reveal_strlit("\x1b[K");
        }
        self.prev_rows = rows;
        self.prev_width = frame.width;
        self.prev_height = frame.height;
        out
    }

    /// The text written when drawing stops: a color reset.
    pub fn finish(&self) -> (out: String)
        ensures
            out@ == reset_seq(),
    {
        let mut out = String::new();
        out.append("\x1b[0m");
        proof {
            reveal_strlit("\x1b[0m");
        }
        out
    }
}


proof fn lemma_no_changed_rows(rows: Seq<Seq<char>>, count: nat)
    requires
        count <= rows.len(),
    ensures
        changed_rows(rows, rows, count) == Seq::<char>::empty(),
    decreases count,
{
    if count > 0 {
        lemma_no_changed_rows(rows, (count - 1) as nat);
        assert(changed_rows(rows, rows, (count - 1) as nat) + Seq::<char>::empty() =~= Seq::<
            char,
        >::empty());
    }
}

/// Drawing a frame the same size as the screen redraws only its rows that differ from the
/// screen: the same frame drawn twice in a row writes nothing but the status line the second
/// time, and leaves the remembered screen as it was.
pub proof fn law_unchanged_frame_redraws_only_status(
    before: ScreenModel,
    width: u16,
    height: u16,
    rows: Seq<Seq<char>>,
    status1: Seq<char>,
    status2: Seq<char>,
)
    requires
        rows.len() == height,
    ensures
        ({
            let (_, after) = frame_update(before, width, height, rows, status1);
            let (text, again) = frame_update(after, width, height, rows, status2);
            &&& text == cursor_to_line((height + 1) as nat) + status2 + seq!['\x1b', '[', 'K']
            &&& again == after
        }),
{
    lemma_no_changed_rows(rows, rows.len());
    let (_, after) = frame_update(before, width, height, rows, status1);
    let (text, again) = frame_update(after, width, height, rows, status2);
    assert(text =~= cursor_to_line((height + 1) as nat) + status2 + seq!['\x1b', '[', 'K']);
}

/// A frame of a new size clears the screen first and then draws every row that is not empty.
pub proof fn law_resize_clears_screen(
    before: ScreenModel,
    width: u16,
    height: u16,
    rows: Seq<Seq<char>>,
    status: Seq<char>,
)
    requires
        before.width != width || before.height != height,
        rows.len() == height,
    ensures
        ({
            let (text, after) = frame_update(before, width, height, rows, status);
            &&& text.take(4) == seq!['\x1b', '[', '2', 'J']
            &&& after.rows == rows
            &&& after.width == width
            &&& after.height == height
        }),
{
    let (text, after) = frame_update(before, width, height, rows, status);
    let clear = seq!['\x1b', '[', '2', 'J'];
    let tail = changed_rows(blank_rows(height as nat), rows, rows.len()) + cursor_to_line(
        (height + 1) as nat,
    ) + status + seq!['\x1b', '[', 'K'];
    assert(text =~= clear + tail);
    assert((clear + tail).take(4) =~= clear);
}

} // verus!
