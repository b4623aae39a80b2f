//! Settings that every new terminal session starts from, the rows a
//! terminal shows, and the working directory that a shell reports through
//! OSC 7.

use vstd::prelude::*;
use vstd::utf8::{decode_utf8, valid_utf8};
use crate::bytes::{find_subsequence, first_occurrence, lemma_first_occurrence_from, occurs_at};
use crate::terminal_contracts::TerminalRowState;

verus! {

pub const DEFAULT_TERMINAL_SCROLLBACK_LINES: usize = 10000;
pub const DEFAULT_TERMINAL_ROWS: usize = 24;
pub const DEFAULT_TERMINAL_COLS: usize = 80;
pub const DEFAULT_TERMINAL_CELL_WIDTH_PX: u32 = 8;
pub const DEFAULT_TERMINAL_CELL_HEIGHT_PX: u32 = 16;
pub const DEFAULT_TERMINAL_DPI: u32 = 96;

#[derive(Debug, Clone, Copy, PartialEq, Eq, Structural)]
pub enum ThemeMode {
    Dark,
    Light,
}

#[derive(Debug, Clone, Copy, PartialEq, Eq, Structural)]
pub enum ThemeVariant {
    PremiumDefault,
    LegacyHackerGreen,
}

/// The size of a terminal viewport in pixels, and its resolution.
#[derive(Debug, Clone, Copy, PartialEq, Eq, Structural)]
pub struct TerminalViewportMetrics {
    pub pixel_width: u32,
    pub pixel_height: u32,
    pub dpi: u32,
}

/// `n` cells of `cell_px` pixels, saturated in `usize` and then cut to `u32`.
pub open spec fn cells_to_px(n: usize, cell_px: u32) -> u32 {
    (if n * cell_px > usize::MAX { usize::MAX as int } else { n * cell_px }) as u32
}

fn cells_to_px_exec(n: usize, cell_px: u32) -> (r: u32)
    ensures
        r == cells_to_px(n, cell_px),
{
    let px: usize = match n.checked_mul(cell_px as usize) {
        Some(p) => p,
        None => usize::MAX,
    };
    px as u32
}

impl TerminalViewportMetrics {
    pub fn new(pixel_width: u32, pixel_height: u32, dpi: u32) -> (r: Self)
        ensures
            r == (TerminalViewportMetrics { pixel_width, pixel_height, dpi }),
    {
        TerminalViewportMetrics { pixel_width, pixel_height, dpi }
    }

    /// The metrics of a `rows` by `cols` viewport of default-sized cells at the default resolution.
    pub fn fallback(rows: usize, cols: usize) -> (r: Self)
        ensures
            r == (TerminalViewportMetrics {
                pixel_width: cells_to_px(cols, DEFAULT_TERMINAL_CELL_WIDTH_PX),
                pixel_height: cells_to_px(rows, DEFAULT_TERMINAL_CELL_HEIGHT_PX),
                dpi: DEFAULT_TERMINAL_DPI,
            }),
    {
        TerminalViewportMetrics {
            pixel_width: cells_to_px_exec(cols, DEFAULT_TERMINAL_CELL_WIDTH_PX),
            pixel_height: cells_to_px_exec(rows, DEFAULT_TERMINAL_CELL_HEIGHT_PX),
            dpi: DEFAULT_TERMINAL_DPI,
        }
    }
}

/// The settings that new terminal sessions start from.
#[derive(Debug, Clone)]
pub struct TerminalRuntimeDefaults {
    scrollback_lines: usize,
    theme_mode: ThemeMode,
    theme_variant: ThemeVariant,
    rows: usize,
    cols: usize,
    metrics: TerminalViewportMetrics,
}

pub open spec fn at_least_one(n: usize) -> usize {
    if n >= 1 { n } else { 1 }
}

fn at_least_one_exec(n: usize) -> (r: usize)
    ensures
        r == at_least_one(n),
{
    if n >= 1 { n } else { 1 }
}

impl TerminalRuntimeDefaults {
    pub closed spec fn scrollback_spec(&self) -> usize {
        at_least_one(self.scrollback_lines)
    }

    pub closed spec fn theme_spec(&self) -> (ThemeMode, ThemeVariant) {
        (self.theme_mode, self.theme_variant)
    }

    pub closed spec fn viewport_spec(&self) -> (usize, usize, TerminalViewportMetrics) {
        (self.rows, self.cols, self.metrics)
    }

    /// Defaults with `scrollback_lines` lines of scrollback (at least one), the
    /// dark premium theme, and a 24 by 80 viewport of default-sized cells.
    pub fn new(scrollback_lines: usize) -> (r: Self)
        ensures
            r.scrollback_spec() == at_least_one(scrollback_lines),
            r.theme_spec() == (ThemeMode::Dark, ThemeVariant::PremiumDefault),
            r.viewport_spec() == (DEFAULT_TERMINAL_ROWS, DEFAULT_TERMINAL_COLS, TerminalViewportMetrics {
                pixel_width: cells_to_px(DEFAULT_TERMINAL_COLS, DEFAULT_TERMINAL_CELL_WIDTH_PX),
                pixel_height: cells_to_px(DEFAULT_TERMINAL_ROWS, DEFAULT_TERMINAL_CELL_HEIGHT_PX),
                dpi: DEFAULT_TERMINAL_DPI,
            }),
    {
        TerminalRuntimeDefaults {
            scrollback_lines: at_least_one_exec(scrollback_lines),
            theme_mode: ThemeMode::Dark,
            theme_variant: ThemeVariant::PremiumDefault,
            rows: DEFAULT_TERMINAL_ROWS,
            cols: DEFAULT_TERMINAL_COLS,
            metrics: TerminalViewportMetrics::fallback(DEFAULT_TERMINAL_ROWS, DEFAULT_TERMINAL_COLS),
        }
    }

    pub fn scrollback_lines(&self) -> (r: usize)
        ensures
            r == self.scrollback_spec(),
    {
        at_least_one_exec(self.scrollback_lines)
    }

    pub fn set_scrollback_lines(&mut self, scrollback_lines: usize)
        ensures
            final(self).scrollback_spec() == at_least_one(scrollback_lines),
            final(self).theme_spec() == old(self).theme_spec(),
            final(self).viewport_spec() == old(self).viewport_spec(),
    {
        self.scrollback_lines = at_least_one_exec(scrollback_lines);
    }

    pub fn theme_mode(&self) -> (r: ThemeMode)
        ensures
            r == self.theme_spec().0,
    {
        self.theme_mode
    }

    pub fn theme_variant(&self) -> (r: ThemeVariant)
        ensures
            r == self.theme_spec().1,
    {
        self.theme_variant
    }

    pub fn set_theme(&mut self, mode: ThemeMode, variant: ThemeVariant)
        ensures
            final(self).theme_spec() == (mode, variant),
            final(self).scrollback_spec() == old(self).scrollback_spec(),
            final(self).viewport_spec() == old(self).viewport_spec(),
    {
        self.theme_mode = mode;
        self.theme_variant = variant;
    }

    pub fn viewport(&self) -> (r: (usize, usize, TerminalViewportMetrics))
        ensures
            r == self.viewport_spec(),
    {
        (self.rows, self.cols, self.metrics)
    }

    pub fn viewport_rows(&self) -> (r: usize)
        ensures
            r == self.viewport_spec().0,
    {
        self.viewport().0
    }

    pub fn viewport_cols(&self) -> (r: usize)
        ensures
            r == self.viewport_spec().1,
    {
        self.viewport().1
    }

    pub fn viewport_metrics(&self) -> (r: TerminalViewportMetrics)
        ensures
            r == self.viewport_spec().2,
    {
        self.viewport().2
    }

    pub fn viewport_pixel_width(&self) -> (r: u32)
        ensures
            r == self.viewport_spec().2.pixel_width,
    {
        self.viewport_metrics().pixel_width
    }

    pub fn viewport_pixel_height(&self) -> (r: u32)
        ensures
            r == self.viewport_spec().2.pixel_height,
    {
        self.viewport_metrics().pixel_height
    }

    pub fn viewport_dpi(&self) -> (r: u32)
        ensures
            r == self.viewport_spec().2.dpi,
    {
        self.viewport_metrics().dpi
    }

    /// Records a viewport of `rows` by `cols` cells (each at least one) with the given metrics.
    pub fn set_viewport_metrics(&mut self, rows: usize, cols: usize, viewport: TerminalViewportMetrics)
        ensures
            final(self).viewport_spec() == (at_least_one(rows), at_least_one(cols), viewport),
            final(self).scrollback_spec() == old(self).scrollback_spec(),
            final(self).theme_spec() == old(self).theme_spec(),
    {
        self.rows = at_least_one_exec(rows);
        self.cols = at_least_one_exec(cols);
        self.metrics = TerminalViewportMetrics::new(viewport.pixel_width, viewport.pixel_height, viewport.dpi);
    }

    /// Records a viewport of `rows` by `cols` cells; a pixel size of zero is
    /// taken to be that many default-sized cells. The resolution is kept.
    pub fn set_viewport_size(&mut self, rows: usize, cols: usize, pixel_width: u32, pixel_height: u32)
        ensures
            ({
                let rows1 = at_least_one(rows);
                let cols1 = at_least_one(cols);
                final(self).viewport_spec() == (rows1, cols1, TerminalViewportMetrics {
                    pixel_width: if pixel_width == 0 { cells_to_px(cols1, DEFAULT_TERMINAL_CELL_WIDTH_PX) } else { pixel_width },
                    pixel_height: if pixel_height == 0 { cells_to_px(rows1, DEFAULT_TERMINAL_CELL_HEIGHT_PX) } else { pixel_height },
                    dpi: old(self).viewport_spec().2.dpi,
                })
            }),
            final(self).scrollback_spec() == old(self).scrollback_spec(),
            final(self).theme_spec() == old(self).theme_spec(),
    {
        let rows = at_least_one_exec(rows);
        let cols = at_least_one_exec(cols);
        let pixel_width = if pixel_width == 0 {
            cells_to_px_exec(cols, DEFAULT_TERMINAL_CELL_WIDTH_PX)
        } else {
            pixel_width
        };
        let pixel_height = if pixel_height == 0 {
            cells_to_px_exec(rows, DEFAULT_TERMINAL_CELL_HEIGHT_PX)
        } else {
            pixel_height
        };
        let dpi = self.viewport_dpi();
        self.set_viewport_metrics(rows, cols, TerminalViewportMetrics::new(pixel_width, pixel_height, dpi));
    }
}

impl Default for TerminalRuntimeDefaults {
    fn default() -> (r: Self)
        ensures
            r.scrollback_spec() == DEFAULT_TERMINAL_SCROLLBACK_LINES,
            r.theme_spec() == (ThemeMode::Dark, ThemeVariant::PremiumDefault),
            r.viewport_spec() == (DEFAULT_TERMINAL_ROWS, DEFAULT_TERMINAL_COLS, TerminalViewportMetrics {
                pixel_width: cells_to_px(DEFAULT_TERMINAL_COLS, DEFAULT_TERMINAL_CELL_WIDTH_PX),
                pixel_height: cells_to_px(DEFAULT_TERMINAL_ROWS, DEFAULT_TERMINAL_CELL_HEIGHT_PX),
                dpi: DEFAULT_TERMINAL_DPI,
            }),
    {
        TerminalRuntimeDefaults::new(DEFAULT_TERMINAL_SCROLLBACK_LINES)
    }
}

// ---------------------------------------------------------------------------
// Visible lines
// ---------------------------------------------------------------------------

pub open spec fn row_texts(rows: Seq<TerminalRowState>) -> Seq<Seq<char>> {
    rows.map_values(|r: TerminalRowState| r.text@)
}

/// How many of the first lines are empty.
pub open spec fn leading_empty_lines(lines: Seq<Seq<char>>) -> nat
    decreases lines.len(),
{
    if lines.len() > 0 && lines[0].len() == 0 {
        1 + leading_empty_lines(lines.drop_first())
    } else {
        0
    }
}

/// How many of the last lines are empty.
pub open spec fn trailing_empty_lines(lines: Seq<Seq<char>>) -> nat
    decreases lines.len(),
{
    if lines.len() > 0 && lines.last().len() == 0 {
        1 + trailing_empty_lines(lines.drop_last())
    } else {
        0
    }
}

/// `lines` without the empty lines before the first and after the last non-empty one.
pub open spec fn trim_outer_empty_lines(lines: Seq<Seq<char>>) -> Seq<Seq<char>> {
    let inner = lines.skip(leading_empty_lines(lines) as int);
    inner.take(inner.len() - trailing_empty_lines(inner))
}

proof fn lemma_leading_empty_lines(lines: Seq<Seq<char>>, k: int)
    requires
        0 <= k <= lines.len(),
        forall|j: int| 0 <= j < k ==> (#[trigger] lines[j]).len() == 0,
        k == lines.len() || lines[k].len() != 0,
    ensures
        leading_empty_lines(lines) == k,
    decreases k,
{
    if k > 0 {
        assert forall|j: int| 0 <= j < k - 1 implies (#[trigger] lines.drop_first()[j]).len() == 0 by {
            assert(lines.drop_first()[j] == lines[j + 1]);
        }
        if k < lines.len() {
            assert(lines.drop_first()[k - 1] == lines[k]);
        }
        lemma_leading_empty_lines(lines.drop_first(), k - 1);
    }
}

proof fn lemma_trailing_empty_lines(lines: Seq<Seq<char>>, k: int)
    requires
        0 <= k <= lines.len(),
        forall|j: int| lines.len() - k <= j < lines.len() ==> (#[trigger] lines[j]).len() == 0,
        k == lines.len() || lines[lines.len() - k - 1].len() != 0,
    ensures
        trailing_empty_lines(lines) == k,
    decreases k,
{
    if k > 0 {
        let d = lines.drop_last();
        assert forall|j: int| d.len() - (k - 1) <= j < d.len() implies (#[trigger] d[j]).len() == 0 by {
            assert(d[j] == lines[j]);
        }
        if k < lines.len() {
            assert(d[d.len() - (k - 1) - 1] == lines[lines.len() - k - 1]);
        }
        lemma_trailing_empty_lines(d, k - 1);
    }
}

pub open spec fn strings_view(v: Seq<String>) -> Seq<Seq<char>> {
    v.map_values(|s: String| s@)
}

/// The texts of the rows without the empty rows above the first and below
/// the last row that shows something.
pub fn visible_lines_from_rows(rows: &[TerminalRowState]) -> (r: Vec<String>)
    ensures
        strings_view(r@) == trim_outer_empty_lines(row_texts(rows@)),
{
    let ghost lines = row_texts(rows@);
    let n = rows.len();
    let mut first: usize = 0;
    while first < n && rows[first].text.as_str().unicode_len() == 0
        invariant
            n == rows@.len(),
            first <= n,
            lines == row_texts(rows@),
            forall|j: int| 0 <= j < first ==> (#[trigger] lines[j]).len() == 0,
        decreases n - first,
    {
        first = first + 1;
    }
    proof { lemma_leading_empty_lines(lines, first as int); }
    let ghost inner = lines.skip(first as int);
    let mut last: usize = n;
    while last > first && rows[last - 1].text.as_str().unicode_len() == 0
        invariant
            n == rows@.len(),
            first <= last <= n,
            lines == row_texts(rows@),
            inner == lines.skip(first as int),
            forall|j: int| last <= j < n ==> (#[trigger] lines[j]).len() == 0,
        decreases last - first,
    {
        last = last - 1;
    }
    proof {
        assert forall|j: int| inner.len() - (n - last) <= j < inner.len() implies (#[trigger] inner[j]).len() == 0 by {
            assert(inner[j] == lines[j + first]);
        }
        if n - last < inner.len() {
            assert(inner[inner.len() - (n - last) - 1] == lines[last - 1]);
        }
        lemma_trailing_empty_lines(inner, (n - last) as int);
    }
    let mut out: Vec<String> = Vec::new();
    let mut i = first;
    while i < last
        invariant
            n == rows@.len(),
            first <= i <= last <= n,
            lines == row_texts(rows@),
            strings_view(out@) == lines.subrange(first as int, i as int),
        decreases last - i,
    {
        let ghost before = out@;
        out.push(rows[i].text.clone());
        assert(lines[i as int] == rows@[i as int].text@);
        assert(strings_view(out@) =~= strings_view(before).push(lines[i as int]));
        assert(strings_view(out@) =~= lines.subrange(first as int, i + 1));
        i = i + 1;
    }
    assert(lines.subrange(first as int, last as int) =~= inner.take(inner.len() - (n - last)));
    out
}

/// The environment variables that a session asks the server to set.
pub fn negotiated_terminal_environment() -> (r: [(&'static str, &'static str); 1])
    ensures
        r@.len() == 1,
        r@[0].0@ == "COLORTERM"@,
        r@[0].1@ == "truecolor"@,
{
    [("COLORTERM", "truecolor")]
}

// ---------------------------------------------------------------------------
// OSC 7
// ---------------------------------------------------------------------------

/// `std::str::from_utf8(bytes).ok()`, as an owned string: text exactly when
/// the bytes are valid UTF-8, and then their decoding.
#[verifier::external_body]
pub fn utf8_decode(bytes: &[u8]) -> (r: Option<String>)
    ensures
        r is Some <==> valid_utf8(bytes@),
        r matches Some(s) ==> s@ == decode_utf8(bytes@),
{
    match std::str::from_utf8(bytes) {
        Ok(s) => Some(s.to_string()),
        Err(_) => None,
    }
}

/// `ESC ] 7 ; file://`.
pub open spec fn osc7_file_prefix() -> Seq<u8> {
    seq![0x1bu8, 0x5d, 0x37, 0x3b, 0x66, 0x69, 0x6c, 0x65, 0x3a, 0x2f, 0x2f]
}

pub open spec fn hex_digit_value(b: u8) -> Option<u8> {
    if 0x30 <= b <= 0x39 {
        Some((b - 0x30) as u8)
    } else if 0x61 <= b <= 0x66 {
        Some((b - 0x61 + 10) as u8)
    } else if 0x41 <= b <= 0x46 {
        Some((b - 0x41 + 10) as u8)
    } else {
        None
    }
}

pub fn hex_value(b: u8) -> (r: Option<u8>)
    ensures
        r == hex_digit_value(b),
{
    if 0x30 <= b && b <= 0x39 {
        Some(b - 0x30)
    } else if 0x61 <= b && b <= 0x66 {
        Some(b - 0x61 + 10)
    } else if 0x41 <= b && b <= 0x46 {
        Some(b - 0x41 + 10)
    } else {
        None
    }
}

/// `b` with each `%XX` replaced by the byte it names; `None` when a `%` is
/// not followed by two hex digits.
pub open spec fn percent_decoded(b: Seq<u8>) -> Option<Seq<u8>>
    decreases b.len(),
{
    if b.len() == 0 {
        Some(Seq::empty())
    } else if b[0] == 0x25 {
        if b.len() < 3 || hex_digit_value(b[1]) is None || hex_digit_value(b[2]) is None {
            None
        } else {
            match percent_decoded(b.skip(3)) {
                Some(rest) => Some(seq![(hex_digit_value(b[1])->0 * 16 + hex_digit_value(b[2])->0) as u8] + rest),
                None => None,
            }
        }
    } else {
        match percent_decoded(b.drop_first()) {
            Some(rest) => Some(seq![b[0]] + rest),
            None => None,
        }
    }
}

/// A path without any `%` escape decodes to itself.
pub proof fn lemma_unescaped_path_decodes_to_itself(b: Seq<u8>)
    requires
        forall|j: int| 0 <= j < b.len() ==> b[j] != 0x25,
    ensures
        percent_decoded(b) == Some(b),
    decreases b.len(),
{
    if b.len() > 0 {
        lemma_unescaped_path_decodes_to_itself(b.drop_first());
        assert(seq![b[0]] + b.drop_first() =~= b);
    }
}

pub open spec fn prepend_decoded(acc: Seq<u8>, rest: Option<Seq<u8>>) -> Option<Seq<u8>> {
    match rest {
        Some(r) => Some(acc + r),
        None => None,
    }
}

pub fn percent_decode_bytes(b: &[u8]) -> (r: Option<Vec<u8>>)
    ensures
        match r {
            Some(v) => percent_decoded(b@) == Some(v@),
            None => percent_decoded(b@) is None,
        },
{
    let n = b.len();
    let mut out: Vec<u8> = Vec::new();
    let mut i: usize = 0;
    assert(b@.skip(0) =~= b@);
    while i < n
        invariant
            n == b@.len(),
            i <= n,
            percent_decoded(b@) == prepend_decoded(out@, percent_decoded(b@.skip(i as int))),
        decreases n - i,
    {
        let ghost s = b@.skip(i as int);
        if b[i] == 0x25 {
            if n - i < 3 {
                return None;
            }
            let high = match hex_value(b[i + 1]) {
                Some(h) => h,
                None => return None,
            };
            let low = match hex_value(b[i + 2]) {
                Some(l) => l,
                None => return None,
            };
            let value: u8 = high * 16 + low;
            let ghost before = out@;
            out.push(value);
            assert(s.skip(3) =~= b@.skip(i + 3));
            assert(out@ =~= before + seq![value]);
            proof {
                match percent_decoded(s.skip(3)) {
                    Some(rest) => {
                        assert(before + (seq![value] + rest) =~= out@ + rest);
                    },
                    None => {},
                }
            }
            i = i + 3;
        } else {
            let ghost before = out@;
            out.push(b[i]);
            assert(s.drop_first() =~= b@.skip(i + 1));
            proof {
                match percent_decoded(s.drop_first()) {
                    Some(rest) => {
                        assert(before + (seq![s[0]] + rest) =~= out@ + rest);
                    },
                    None => {},
                }
            }
            i = i + 1;
        }
    }
    assert(b@.skip(i as int) =~= Seq::<u8>::empty());
    assert(out@ + Seq::<u8>::empty() =~= out@);
    Some(out)
}

/// The end of the OSC 7 payload that starts at `start`: the first `BEL`
/// after it, or when there is none, the first `ESC \`.
pub open spec fn osc7_payload_end(b: Seq<u8>, start: int) -> Option<int> {
    let rest = b.skip(start);
    match first_occurrence(rest, seq![0x07u8]) {
        Some(k) => Some(start + k),
        None => match first_occurrence(rest, seq![0x1bu8, 0x5c]) {
            Some(k) => Some(start + k),
            None => None,
        },
    }
}

/// The directory that the first OSC 7 sequence in `b` reports: the path
/// part of its `file://` URL, percent-decoded; only a valid UTF-8 absolute
/// path counts.
pub open spec fn osc7_reported_directory(b: Seq<u8>) -> Option<Seq<char>> {
    match first_occurrence(b, osc7_file_prefix()) {
        None => None,
        Some(start) => {
            let payload_start = start + osc7_file_prefix().len();
            match osc7_payload_end(b, payload_start) {
                None => None,
                Some(end) => {
                    let payload = b.subrange(payload_start, end);
                    if !valid_utf8(payload) {
                        None
                    } else {
                        match first_occurrence(payload, seq![0x2fu8]) {
                            None => None,
                            Some(slash) => match percent_decoded(payload.skip(slash)) {
                                None => None,
                                Some(decoded) => if valid_utf8(decoded) && decoded.len() > 0 && decoded[0] == 0x2f {
                                    Some(decode_utf8(decoded))
                                } else {
                                    None
                                },
                            },
                        }
                    }
                },
            }
        },
    }
}

pub fn extract_current_working_directory_from_osc7(bytes: &[u8]) -> (r: Option<String>)
    ensures
        match r {
            Some(s) => osc7_reported_directory(bytes@) == Some(s@),
            None => osc7_reported_directory(bytes@) is None,
        },
{
    let n = bytes.len();
    let prefix: Vec<u8> = vec![0x1b, 0x5d, 0x37, 0x3b, 0x66, 0x69, 0x6c, 0x65, 0x3a, 0x2f, 0x2f];
    assert(prefix@ =~= osc7_file_prefix());
    let start = match find_subsequence(bytes, prefix.as_slice()) {
        Some(s) => s,
        None => return None,
    };
    proof { lemma_first_occurrence_from(bytes@, osc7_file_prefix(), 0); }
    assert(occurs_at(bytes@, osc7_file_prefix(), start as int));
    let payload_start = start + 11;
    let rest = vstd::slice::slice_subrange(bytes, payload_start, n);
    assert(rest@ =~= bytes@.skip(payload_start as int));
    let bel: Vec<u8> = vec![0x07];
    assert(bel@ =~= seq![0x07u8]);
    let st: Vec<u8> = vec![0x1b, 0x5c];
    assert(st@ =~= seq![0x1bu8, 0x5c]);
    let offset = match find_subsequence(rest, bel.as_slice()) {
        Some(k) => k,
        None => match find_subsequence(rest, st.as_slice()) {
            Some(k) => k,
            None => return None,
        },
    };
    proof {
        lemma_first_occurrence_from(rest@, seq![0x07u8], 0);
        lemma_first_occurrence_from(rest@, seq![0x1bu8, 0x5c], 0);
    }
    let payload_end = payload_start + offset;
    let payload = vstd::slice::slice_subrange(bytes, payload_start, payload_end);
    if utf8_decode(payload).is_none() {
        return None;
    }
    let slash: Vec<u8> = vec![0x2f];
    assert(slash@ =~= seq![0x2fu8]);
    let path_start = match find_subsequence(payload, slash.as_slice()) {
        Some(k) => k,
        None => return None,
    };
    proof { lemma_first_occurrence_from(payload@, seq![0x2fu8], 0); }
    let path = vstd::slice::slice_subrange(payload, path_start, payload.len());
    assert(path@ =~= payload@.skip(path_start as int));
    let decoded = match percent_decode_bytes(path) {
        Some(d) => d,
        None => return None,
    };
    if decoded.len() == 0 || decoded[0] != 0x2f {
        return None;
    }
    utf8_decode(decoded.as_slice())
}

} // verus!
