//! Tiling patterns: how windows are laid out in an area (master-stack,
//! grid, columns), with gaps and margins, and their validation.
//!
//! The main area's share of the width is kept in thousandths: 600 stands
//! for 0.6. A layout is computed in integer screen coordinates; an area and
//! its gaps must fit the coordinate space, as the arithmetic of the layout
//! would otherwise overflow.

use vstd::prelude::*;
use crate::ids::new_id;
use crate::text::{is_blank, str_is_blank, owned, push_str, push_decimal, push_char, decimal, digit_char};

verus! {

/// Algorithm types for window layout.
#[derive(Debug, Clone, Copy, PartialEq, Eq, Structural)]
pub enum LayoutAlgorithm {
    MasterStack,
    Grid,
    Columns,
    Custom,
}

/// How a pattern adapts to new windows.
#[derive(Debug, Clone, Copy, PartialEq, Eq, Structural)]
pub enum ResizeBehavior {
    /// Reduce window sizes to fit new windows
    Shrink,
    /// Stack new windows in overflow area
    Stack,
    /// Allow windows to extend beyond visible area
    Overflow,
}

/// A window tiling pattern.
#[derive(Debug, Clone)]
pub struct TilingPattern {
    /// Unique identifier
    pub id: u128,
    /// Pattern name (e.g., "Two Column", "Master-Stack", "Grid")
    pub name: String,
    /// Algorithm type for layout calculation
    pub layout_algorithm: LayoutAlgorithm,
    /// Share of the width for the main window, in thousandths (600 is 0.6)
    pub main_area_ratio: u32,
    /// Pixel gap between windows
    pub gap_size: u32,
    /// Pixel margin around windows
    pub window_margin: u32,
    /// Maximum windows before pattern adjustment
    pub max_windows: u32,
    /// How pattern adapts to new windows
    pub resize_behavior: ResizeBehavior,
}

/// Rectangle representing window position and size.
#[derive(Debug, Clone, Copy, PartialEq, Eq, Structural)]
pub struct WindowRect {
    pub x: i32,
    pub y: i32,
    pub width: u32,
    pub height: u32,
}

/// Computed layout for windows within a pattern.
#[derive(Debug, Clone)]
pub struct ComputedLayout {
    pub window_rects: Vec<WindowRect>,
    pub main_area: WindowRect,
    pub overflow_area: Option<WindowRect>,
}

/// Errors that can occur with tiling patterns.
#[derive(Debug, Clone, PartialEq, Eq)]
pub enum TilingPatternError {
    /// The ratio, in thousandths
    InvalidMainAreaRatio(u32),
    InvalidMaxWindows(u32),
    EmptyName,
    InvalidScreenArea,
    LayoutComputationFailed(String),
}

/// A ratio given in thousandths, written as a decimal number without
/// trailing zeros (600 is `0.6`, 50 is `0.05`, 1000 is `1`).
pub open spec fn ratio_text(p: nat) -> Seq<char> {
    let f = (p % 1000) as int;
    decimal(p / 1000) + if f == 0 {
        Seq::empty()
    } else if f % 100 == 0 {
        seq!['.', digit_char(f / 100)]
    } else if f % 10 == 0 {
        seq!['.', digit_char(f / 100), digit_char((f / 10) % 10)]
    } else {
        seq!['.', digit_char(f / 100), digit_char((f / 10) % 10), digit_char(f % 10)]
    }
}

/// Writes a ratio given in thousandths as a decimal number.
pub fn push_ratio(out: &mut String, p: u32)
    ensures
        final(out)@ == old(out)@ + ratio_text(p as nat),
{
    push_decimal(out, (p / 1000) as u64);
    let f = p % 1000;
    let ghost base = out@;
    if f != 0 {
        push_char(out, '.');
        push_char(out, digit(f / 100));
        if f % 100 != 0 {
            push_char(out, digit((f / 10) % 10));
            if f % 10 != 0 {
                push_char(out, digit(f % 10));
            }
        }
    }
    assert(out@ =~= old(out)@ + ratio_text(p as nat));
}

fn digit(d: u32) -> (c: char)
    requires
        d < 10,
    ensures
        c == digit_char(d as int),
{
    if d == 0 {
        '0'
    } else if d == 1 {
        '1'
    } else if d == 2 {
        '2'
    } else if d == 3 {
        '3'
    } else if d == 4 {
        '4'
    } else if d == 5 {
        '5'
    } else if d == 6 {
        '6'
    } else if d == 7 {
        '7'
    } else if d == 8 {
        '8'
    } else {
        '9'
    }
}

/// The message of a tiling pattern error.
pub open spec fn tiling_error_message(e: TilingPatternError) -> Seq<char> {
    match e {
        TilingPatternError::InvalidMainAreaRatio(r) => "Invalid main area ratio: "@ + ratio_text(r as nat)
            + ". Must be between 0.1 and 0.9"@,
        TilingPatternError::InvalidMaxWindows(n) => "Invalid max windows: "@ + decimal(n as nat)
            + ". Must be greater than 0"@,
        TilingPatternError::EmptyName => "Pattern name cannot be empty"@,
        TilingPatternError::InvalidScreenArea => "Invalid screen area dimensions"@,
        TilingPatternError::LayoutComputationFailed(m) => "Layout computation failed: "@ + m@,
    }
}

impl TilingPatternError {
    /// The human-readable message of this error.
    pub fn message(&self) -> (m: String)
        ensures
            m@ == tiling_error_message(*self),
    {
        match self {
            TilingPatternError::InvalidMainAreaRatio(r) => {
                let mut m = owned("Invalid main area ratio: ");
                push_ratio(&mut m, *r);
                push_str(&mut m, ". Must be between 0.1 and 0.9");
                m
            },
            TilingPatternError::InvalidMaxWindows(n) => {
                let mut m = owned("Invalid max windows: ");
                push_decimal(&mut m, *n as u64);
                push_str(&mut m, ". Must be greater than 0");
                m
            },
            TilingPatternError::EmptyName => owned("Pattern name cannot be empty"),
            TilingPatternError::InvalidScreenArea => owned("Invalid screen area dimensions"),
            TilingPatternError::LayoutComputationFailed(s) => {
                let mut m = owned("Layout computation failed: ");
                push_str(&mut m, s.as_str());
                m
            },
        }
    }
}

/// Whether a ratio in thousandths lies in the allowed range 0.1 to 0.9.
pub open spec fn ratio_ok(r: u32) -> bool {
    100 <= r <= 900
}

/// The first check a pattern fails, if any: the ratio's range, a positive
/// window limit, a name that is not blank.
pub open spec fn pattern_problem(p: TilingPattern) -> Option<TilingPatternError> {
    if !ratio_ok(p.main_area_ratio) {
        Some(TilingPatternError::InvalidMainAreaRatio(p.main_area_ratio))
    } else if p.max_windows == 0 {
        Some(TilingPatternError::InvalidMaxWindows(p.max_windows))
    } else if is_blank(p.name@) {
        Some(TilingPatternError::EmptyName)
    } else {
        None
    }
}

/// The smallest `c` from `c` up whose square reaches `n`.
pub open spec fn ceil_sqrt_from(n: nat, c: nat) -> nat
    decreases n - c,
{
    if c >= n || c * c >= n {
        c
    } else {
        ceil_sqrt_from(n, c + 1)
    }
}

/// The smallest number whose square is at least `n`.
pub open spec fn ceil_sqrt(n: nat) -> nat {
    ceil_sqrt_from(n, 0)
}

/// The grid's columns for `n` windows: the ceiling of the square root.
pub open spec fn grid_cols(n: nat) -> nat {
    ceil_sqrt(n)
}

/// The grid's rows for `n` windows: enough rows of `grid_cols(n)` windows.
pub open spec fn grid_rows(n: nat) -> nat {
    if grid_cols(n) == 0 {
        0
    } else {
        ((n + grid_cols(n) - 1) as nat / grid_cols(n)) as nat
    }
}

/// The rectangle with the given position and size.
pub open spec fn rect(x: int, y: int, w: int, h: int) -> WindowRect {
    WindowRect { x: x as i32, y: y as i32, width: w as u32, height: h as u32 }
}

/// Whether a rectangle lies within the integer screen coordinates.
pub open spec fn area_fits(a: WindowRect) -> bool {
    a.x + a.width <= i32::MAX && a.y + a.height <= i32::MAX && a.width <= i32::MAX && a.height
        <= i32::MAX
}

/// The area inside the margin.
pub open spec fn inner_area(a: WindowRect, m: u32) -> WindowRect {
    rect(a.x + m, a.y + m, a.width - 2 * m, a.height - 2 * m)
}

/// The main window's width in a master-stack layout.
pub open spec fn main_width(w: int, ratio: u32) -> int {
    w * ratio / 1000
}

/// The stack windows' height in a master-stack layout of `n` stack windows.
pub open spec fn stack_height(h: int, n: int, gap: int) -> int {
    (h - (n - 1) * gap) / n
}

/// The master-stack layout of `count` windows in an area: one window alone
/// takes the area; else the main window takes its share of the width and
/// the others are stacked to its right, a gap apart.
pub open spec fn master_stack_rects(a: WindowRect, count: nat, ratio: u32, gap: u32) -> Seq<WindowRect> {
    if count == 1 {
        seq![a]
    } else {
        let mw = main_width(a.width as int, ratio);
        let n = count - 1;
        let sh = stack_height(a.height as int, n, gap as int);
        seq![rect(a.x as int, a.y as int, mw, a.height as int)] + Seq::new(
            n as nat,
            |i: int| rect(a.x + mw + gap, a.y + i * (sh + gap), a.width - mw - gap, sh),
        )
    }
}

/// The grid layout of `count` windows: rows of `grid_cols` cells of equal
/// size, a gap apart, filled row by row.
pub open spec fn grid_rects(a: WindowRect, count: nat, gap: u32) -> Seq<WindowRect> {
    let cols = grid_cols(count) as int;
    let rows = grid_rows(count) as int;
    let ww = (a.width - (cols - 1) * gap) / cols;
    let wh = (a.height - (rows - 1) * gap) / rows;
    Seq::new(
        count,
        |i: int| rect(a.x + (i % cols) * (ww + gap), a.y + (i / cols) * (wh + gap), ww, wh),
    )
}

/// The columns layout of `count` windows: columns of equal width, a gap
/// apart, each of the area's height.
pub open spec fn columns_rects(a: WindowRect, count: nat, gap: u32) -> Seq<WindowRect> {
    let ww = (a.width - (count - 1) * gap) / count as int;
    Seq::new(count, |i: int| rect(a.x + i * (ww + gap), a.y as int, ww, a.height as int))
}

/// The rectangles of a pattern's layout of `count` windows in the area
/// inside its margin.
pub open spec fn layout_rects(p: TilingPattern, screen: WindowRect, count: nat) -> Seq<WindowRect> {
    let a = inner_area(screen, p.window_margin);
    match p.layout_algorithm {
        LayoutAlgorithm::MasterStack => master_stack_rects(a, count, p.main_area_ratio, p.gap_size),
        LayoutAlgorithm::Columns => columns_rects(a, count, p.gap_size),
        _ => grid_rects(a, count, p.gap_size),
    }
}

/// Whether the gaps of a layout fit the area, so that its arithmetic stays
/// within range: the main window and a gap fit the width, and the gaps
/// between stacked windows, rows or columns fit the height or width.
pub open spec fn gaps_fit(p: TilingPattern, a: WindowRect, count: nat) -> bool {
    match p.layout_algorithm {
        LayoutAlgorithm::MasterStack => count == 1 || (main_width(a.width as int, p.main_area_ratio)
            + p.gap_size <= a.width && (count - 2) * p.gap_size <= a.height),
        LayoutAlgorithm::Columns => (count - 1) * p.gap_size <= a.width && (a.width - (count - 1)
            * p.gap_size) / count as int + p.gap_size <= u32::MAX,
        _ => grid_fits(a, count, p.gap_size),
    }
}

/// Whether the gaps of a grid fit the area, and a cell and a gap fit an
/// offset.
pub open spec fn grid_fits(a: WindowRect, count: nat, gap: u32) -> bool {
    let cols = grid_cols(count) as int;
    let rows = grid_rows(count) as int;
    &&& (cols - 1) * gap <= a.width
    &&& (rows - 1) * gap <= a.height
    &&& (a.width - (cols - 1) * gap) / cols + gap <= u32::MAX
    &&& (a.height - (rows - 1) * gap) / rows + gap <= u32::MAX
}

/// Whether a layout of `count` windows can be computed for the screen area:
/// the area fits the coordinate space, the margins fit the area, and the
/// gaps fit the area inside the margins.
pub open spec fn layout_fits(p: TilingPattern, screen: WindowRect, count: nat) -> bool {
    &&& area_fits(screen)
    &&& count < 0x1_0000_0000
    &&& count > 0 ==> {
        &&& 2 * p.window_margin <= screen.width
        &&& 2 * p.window_margin <= screen.height
        &&& gaps_fit(p, inner_area(screen, p.window_margin), count)
    }
}

impl TilingPattern {
    /// A pattern with the given identifier; the ratio must be in range and
    /// the window limit positive.
    pub fn new_with(
        id: u128,
        name: String,
        layout_algorithm: LayoutAlgorithm,
        main_area_ratio: u32,
        gap_size: u32,
        window_margin: u32,
        max_windows: u32,
        resize_behavior: ResizeBehavior,
    ) -> (r: Result<Self, TilingPatternError>)
        ensures
            !ratio_ok(main_area_ratio) ==> r == Err::<Self, TilingPatternError>(
                TilingPatternError::InvalidMainAreaRatio(main_area_ratio),
            ),
            ratio_ok(main_area_ratio) && max_windows == 0 ==> r == Err::<Self, TilingPatternError>(
                TilingPatternError::InvalidMaxWindows(max_windows),
            ),
            ratio_ok(main_area_ratio) && max_windows > 0 ==> r == Ok::<Self, TilingPatternError>(
                TilingPattern {
                    id,
                    name,
                    layout_algorithm,
                    main_area_ratio,
                    gap_size,
                    window_margin,
                    max_windows,
                    resize_behavior,
                },
            ),
    {
        if !(100 <= main_area_ratio && main_area_ratio <= 900) {
            return Err(TilingPatternError::InvalidMainAreaRatio(main_area_ratio));
        }
        if max_windows == 0 {
            return Err(TilingPatternError::InvalidMaxWindows(max_windows));
        }
        Ok(TilingPattern {
            id,
            name,
            layout_algorithm,
            main_area_ratio,
            gap_size,
            window_margin,
            max_windows,
            resize_behavior,
        })
    }

    /// A pattern with a fresh identifier; the ratio must be in range and the
    /// window limit positive.
    pub fn new(
        name: String,
        layout_algorithm: LayoutAlgorithm,
        main_area_ratio: u32,
        gap_size: u32,
        window_margin: u32,
        max_windows: u32,
        resize_behavior: ResizeBehavior,
    ) -> (r: Result<Self, TilingPatternError>)
        ensures
            !ratio_ok(main_area_ratio) ==> r == Err::<Self, TilingPatternError>(
                TilingPatternError::InvalidMainAreaRatio(main_area_ratio),
            ),
            ratio_ok(main_area_ratio) && max_windows == 0 ==> r == Err::<Self, TilingPatternError>(
                TilingPatternError::InvalidMaxWindows(max_windows),
            ),
            ratio_ok(main_area_ratio) && max_windows > 0 ==> (r matches Ok(p) && p == TilingPattern {
                id: p.id,
                name,
                layout_algorithm,
                main_area_ratio,
                gap_size,
                window_margin,
                max_windows,
                resize_behavior,
            }),
    {
        Self::new_with(
            new_id(),
            name,
            layout_algorithm,
            main_area_ratio,
            gap_size,
            window_margin,
            max_windows,
            resize_behavior,
        )
    }

    /// Checks the pattern: the ratio's range, a positive window limit and a
    /// name that is not blank, in that order.
    pub fn validate(&self) -> (r: Result<(), TilingPatternError>)
        ensures
            r == match pattern_problem(*self) {
                Some(e) => Err::<(), TilingPatternError>(e),
                None => Ok(()),
            },
    {
        if !(100 <= self.main_area_ratio && self.main_area_ratio <= 900) {
            return Err(TilingPatternError::InvalidMainAreaRatio(self.main_area_ratio));
        }
        if self.max_windows == 0 {
            return Err(TilingPatternError::InvalidMaxWindows(self.max_windows));
        }
        if str_is_blank(self.name.as_str()) {
            return Err(TilingPatternError::EmptyName);
        }
        Ok(())
    }
}

impl Default for TilingPattern {
    fn default() -> (p: Self)
        ensures
            p.name@ == "Default"@,
            p.layout_algorithm == LayoutAlgorithm::MasterStack,
            p.main_area_ratio == 600,
            p.gap_size == 10,
            p.window_margin == 10,
            p.max_windows == 10,
            p.resize_behavior == ResizeBehavior::Shrink,
    {
        TilingPattern {
            id: new_id(),
            name: owned("Default"),
            layout_algorithm: LayoutAlgorithm::MasterStack,
            main_area_ratio: 600,
            gap_size: 10,
            window_margin: 10,
            max_windows: 10,
            resize_behavior: ResizeBehavior::Shrink,
        }
    }
}

/// Offsets of a row of `n` cells of size `(total - (n - 1) * gap) / n`,
/// a gap apart, stay within the total.
proof fn lemma_cell_offset(total: int, n: int, gap: int, cell: int, i: int)
    requires
        n >= 1,
        gap >= 0,
        total >= (n - 1) * gap,
        cell == (total - (n - 1) * gap) / n,
        0 <= i < n,
    ensures
        0 <= cell,
        0 <= i * (cell + gap),
        i * (cell + gap) + cell <= total,
{
    let rest = total - (n - 1) * gap;
    assert(rest >= 0);
    assert(0 <= cell) by (nonlinear_arith)
        requires
            rest >= 0,
            n >= 1,
            cell == rest / n,
    ;
    assert(n * cell <= rest) by (nonlinear_arith)
        requires
            rest >= 0,
            n >= 1,
            cell == rest / n,
    ;
    assert(i * (cell + gap) + cell <= total) by (nonlinear_arith)
        requires
            0 <= i < n,
            n * cell <= rest,
            rest == total - (n - 1) * gap,
            cell >= 0,
            gap >= 0,
    ;
    assert(0 <= i * (cell + gap)) by (nonlinear_arith)
        requires
            0 <= i,
            cell >= 0,
            gap >= 0,
    ;
}

proof fn lemma_ceil_sqrt_from(n: nat, c: nat)
    requires
        c <= n,
    ensures
        c <= ceil_sqrt_from(n, c) <= n,
        ceil_sqrt_from(n, c) * ceil_sqrt_from(n, c) >= n,
    decreases n - c,
{
    if c >= n || c * c >= n {
        if c >= n {
            assert(c * c >= n) by (nonlinear_arith)
                requires
                    c >= n,
                    c <= n,
            ;
        }
    } else {
        lemma_ceil_sqrt_from(n, c + 1);
    }
}

/// The grid's columns for a positive window count: at least one, at most
/// the count, and their square covers the count.
proof fn lemma_grid_dims(n: nat)
    requires
        n >= 1,
    ensures
        1 <= grid_cols(n) <= n,
        grid_cols(n) * grid_rows(n) >= n,
        grid_rows(n) >= 1,
        grid_rows(n) <= n,
{
    lemma_ceil_sqrt_from(n, 0);
    assert(ceil_sqrt_from(n, 0) == ceil_sqrt_from(n, 1));
    lemma_ceil_sqrt_from(n, 1);
    let c = grid_cols(n) as int;
    let r = grid_rows(n) as int;
    assert(r == (n + c - 1) / c);
    assert(c * r >= n) by (nonlinear_arith)
        requires
            c >= 1,
            r == (n + c - 1) / c,
            n >= 1,
    ;
    assert(1 <= r <= n) by (nonlinear_arith)
        requires
            c >= 1,
            c <= n,
            r == (n + c - 1) / c,
            n >= 1,
    ;
}

/// A window of a grid sits in one of its rows.
proof fn lemma_grid_row(i: int, n: int, c: int, r: int)
    requires
        0 <= i < n,
        c >= 1,
        c * r >= n,
    ensures
        0 <= i / c < r,
        0 <= i % c < c,
{
    assert(0 <= i / c < r) by (nonlinear_arith)
        requires
            0 <= i < n,
            c >= 1,
            c * r >= n,
    ;
}

fn ceil_sqrt_exec(n: u64) -> (c: u64)
    requires
        n < 0x1_0000_0000,
    ensures
        c == ceil_sqrt(n as nat),
{
    let mut c: u64 = 0;
    loop
        invariant
            c <= n < 0x1_0000_0000,
            ceil_sqrt_from(n as nat, c as nat) == ceil_sqrt(n as nat),
        ensures
            c == ceil_sqrt(n as nat),
        decreases n - c,
    {
        if c >= n {
            break;
        }
        assert(c * c < 0x1_0000_0000_0000_0000) by (nonlinear_arith)
            requires
                c < 0x1_0000_0000,
        ;
        if c * c >= n {
            break;
        }
        c = c + 1;
    }
    c
}

/// The master-stack rectangles of `count` windows in an area.
pub fn master_stack_layout(area: WindowRect, count: usize, ratio: u32, gap: u32) -> (r: Vec<WindowRect>)
    requires
        1 <= count < 0x1_0000_0000,
        area_fits(area),
        count == 1 || (main_width(area.width as int, ratio) + gap <= area.width && (count - 2) * gap
            <= area.height),
    ensures
        r@ == master_stack_rects(area, count as nat, ratio, gap),
{
    if count == 1 {
        let v = vec![area];
        assert(v@ =~= seq![area]);
        return v;
    }
    let mw: u32 = ((area.width as u64 * ratio as u64) / 1000) as u32;
    let sw: u32 = area.width - mw - gap;
    let n: u32 = (count - 1) as u32;
    let sh: u32 = (area.height - (n - 1) * gap) / n;
    let ghost spec_rects = master_stack_rects(area, count as nat, ratio, gap);
    let mut v: Vec<WindowRect> = Vec::new();
    v.push(WindowRect { x: area.x, y: area.y, width: mw, height: area.height });
    let mut i: u32 = 0;
    while i < n
        invariant
            1 <= n,
            n == count - 1,
            i <= n,
            area_fits(area),
            mw == main_width(area.width as int, ratio),
            mw + gap <= area.width,
            sw == area.width - mw - gap,
            (n - 1) * gap <= area.height,
            sh == stack_height(area.height as int, n as int, gap as int),
            spec_rects == master_stack_rects(area, count as nat, ratio, gap),
            v@ == spec_rects.take(i + 1),
        decreases n - i,
    {
        proof {
            lemma_cell_offset(area.height as int, n as int, gap as int, sh as int, i as int);
        }
        let yoff: u32 = i * (sh + gap);
        let rc = WindowRect { x: area.x + mw as i32 + gap as i32, y: area.y + yoff as i32, width: sw, height: sh };
        v.push(rc);
        i = i + 1;
        assert(v@ =~= spec_rects.take(i + 1));
    }
    assert(spec_rects.len() == count);
    assert(v@ =~= spec_rects);
    v
}

/// The grid rectangles of `count` windows in an area.
pub fn grid_layout(area: WindowRect, count: usize, gap: u32) -> (r: Vec<WindowRect>)
    requires
        1 <= count < 0x1_0000_0000,
        area_fits(area),
        grid_fits(area, count as nat, gap),
    ensures
        r@ == grid_rects(area, count as nat, gap),
{
    proof {
        lemma_grid_dims(count as nat);
    }
    let cols: u32 = ceil_sqrt_exec(count as u64) as u32;
    let n: u32 = count as u32;
    let rows: u32 = ((n as u64 + cols as u64 - 1) / cols as u64) as u32;
    let ww: u32 = (area.width - (cols - 1) * gap) / cols;
    let wh: u32 = (area.height - (rows - 1) * gap) / rows;
    let ghost spec_rects = grid_rects(area, count as nat, gap);
    let mut v: Vec<WindowRect> = Vec::new();
    let mut i: u32 = 0;
    while i < n
        invariant
            n == count,
            i <= n,
            area_fits(area),
            cols == grid_cols(count as nat),
            rows == grid_rows(count as nat),
            1 <= cols,
            1 <= rows,
            cols * rows >= n,
            (cols - 1) * gap <= area.width,
            (rows - 1) * gap <= area.height,
            ww == (area.width - (cols - 1) * gap) / cols as int,
            wh == (area.height - (rows - 1) * gap) / rows as int,
            ww + gap <= u32::MAX,
            wh + gap <= u32::MAX,
            spec_rects == grid_rects(area, count as nat, gap),
            v@ == spec_rects.take(i as int),
        decreases n - i,
    {
        let row: u32 = i / cols;
        let col: u32 = i % cols;
        proof {
            lemma_grid_row(i as int, n as int, cols as int, rows as int);
            lemma_cell_offset(area.width as int, cols as int, gap as int, ww as int, col as int);
            lemma_cell_offset(area.height as int, rows as int, gap as int, wh as int, row as int);
        }
        let xoff: u32 = col * (ww + gap);
        let yoff: u32 = row * (wh + gap);
        v.push(WindowRect { x: area.x + xoff as i32, y: area.y + yoff as i32, width: ww, height: wh });
        i = i + 1;
        assert(v@ =~= spec_rects.take(i as int));
    }
    assert(v@ =~= spec_rects);
    v
}

/// The column rectangles of `count` windows in an area.
pub fn columns_layout(area: WindowRect, count: usize, gap: u32) -> (r: Vec<WindowRect>)
    requires
        1 <= count < 0x1_0000_0000,
        area_fits(area),
        (count - 1) * gap <= area.width,
        (area.width - (count - 1) * gap) / count as int + gap <= u32::MAX,
    ensures
        r@ == columns_rects(area, count as nat, gap),
{
    let n: u32 = count as u32;
    let ww: u32 = (area.width - (n - 1) * gap) / n;
    let ghost spec_rects = columns_rects(area, count as nat, gap);
    let mut v: Vec<WindowRect> = Vec::new();
    let mut i: u32 = 0;
    while i < n
        invariant
            n == count,
            1 <= n,
            i <= n,
            area_fits(area),
            (n - 1) * gap <= area.width,
            ww == (area.width - (n - 1) * gap) / n as int,
            ww + gap <= u32::MAX,
            spec_rects == columns_rects(area, count as nat, gap),
            v@ == spec_rects.take(i as int),
        decreases n - i,
    {
        proof {
            lemma_cell_offset(area.width as int, n as int, gap as int, ww as int, i as int);
        }
        let xoff: u32 = i * (ww + gap);
        v.push(WindowRect { x: area.x + xoff as i32, y: area.y, width: ww, height: area.height });
        i = i + 1;
        assert(v@ =~= spec_rects.take(i as int));
    }
    assert(v@ =~= spec_rects);
    v
}

impl TilingPattern {
    /// An equal copy of this pattern.
    pub fn duplicate(&self) -> (r: Self)
        ensures
            r == *self,
    {
        TilingPattern {
            id: self.id,
            name: self.name.clone(),
            layout_algorithm: self.layout_algorithm,
            main_area_ratio: self.main_area_ratio,
            gap_size: self.gap_size,
            window_margin: self.window_margin,
            max_windows: self.max_windows,
            resize_behavior: self.resize_behavior,
        }
    }
}

impl TilingPattern {
    /// The layout of `window_count` windows in the screen area: the area
    /// inside the margin, laid out by the pattern's algorithm (a custom
    /// layout is a grid). No windows leave the whole area as the main area.
    pub fn compute_layout(&self, screen_area: &WindowRect, window_count: usize) -> (r: Result<ComputedLayout, TilingPatternError>)
        requires
            layout_fits(*self, *screen_area, window_count as nat),
        ensures
            window_count == 0 ==> (r matches Ok(l) && l.window_rects@.len() == 0 && l.main_area
                == *screen_area && l.overflow_area is None),
            window_count > 0 ==> (r matches Ok(l) && l.window_rects@ == layout_rects(
                *self,
                *screen_area,
                window_count as nat,
            ) && l.main_area == inner_area(*screen_area, self.window_margin) && l.overflow_area is None),
    {
        if window_count == 0 {
            return Ok(ComputedLayout { window_rects: Vec::new(), main_area: *screen_area, overflow_area: None });
        }
        let m = self.window_margin;
        let area = WindowRect {
            x: screen_area.x + m as i32,
            y: screen_area.y + m as i32,
            width: screen_area.width - 2 * m,
            height: screen_area.height - 2 * m,
        };
        assert(area == inner_area(*screen_area, m));
        let rects = match self.layout_algorithm {
            LayoutAlgorithm::MasterStack => master_stack_layout(area, window_count, self.main_area_ratio, self.gap_size),
            LayoutAlgorithm::Columns => columns_layout(area, window_count, self.gap_size),
            _ => grid_layout(area, window_count, self.gap_size),
        };
        Ok(ComputedLayout { window_rects: rects, main_area: area, overflow_area: None })
    }
}

/// Whether a rectangle lies within an area.
pub open spec fn rect_within(r: WindowRect, a: WindowRect) -> bool {
    &&& a.x <= r.x
    &&& a.y <= r.y
    &&& r.x + r.width <= a.x + a.width
    &&& r.y + r.height <= a.y + a.height
}

/// A layout places one rectangle per window, each within the area inside
/// the pattern's margin.
pub proof fn law_layout_within_area(p: TilingPattern, screen: WindowRect, count: nat)
    requires
        layout_fits(p, screen, count),
        count > 0,
    ensures
        layout_rects(p, screen, count).len() == count,
        forall|i: int| 0 <= i < count ==> rect_within(#[trigger] layout_rects(p, screen, count)[i], inner_area(screen, p.window_margin)),
{
    let a = inner_area(screen, p.window_margin);
    let rs = layout_rects(p, screen, count);
    match p.layout_algorithm {
        LayoutAlgorithm::MasterStack => {
            if count > 1 {
                let mw = main_width(a.width as int, p.main_area_ratio);
                let n = count - 1;
                let sh = stack_height(a.height as int, n as int, p.gap_size as int);
                assert(mw >= 0) by (nonlinear_arith)
                    requires
                        mw == a.width * p.main_area_ratio / 1000,
                        a.width >= 0,
                        p.main_area_ratio >= 0,
                ;
                assert forall|i: int| 0 <= i < count implies rect_within(#[trigger] rs[i], a) by {
                    if i > 0 {
                        lemma_cell_offset(a.height as int, n as int, p.gap_size as int, sh, i - 1);
                    }
                }
            }
        },
        LayoutAlgorithm::Columns => {
            let ww = (a.width - (count - 1) * p.gap_size) / count as int;
            assert forall|i: int| 0 <= i < count implies rect_within(#[trigger] rs[i], a) by {
                lemma_cell_offset(a.width as int, count as int, p.gap_size as int, ww, i);
            }
        },
        _ => {
            lemma_grid_dims(count);
            let cols = grid_cols(count) as int;
            let rows = grid_rows(count) as int;
            let ww = (a.width - (cols - 1) * p.gap_size) / cols;
            let wh = (a.height - (rows - 1) * p.gap_size) / rows;
            assert forall|i: int| 0 <= i < count implies rect_within(#[trigger] rs[i], a) by {
                lemma_grid_row(i, count as int, cols, rows);
                lemma_cell_offset(a.width as int, cols, p.gap_size as int, ww, i % cols);
                lemma_cell_offset(a.height as int, rows, p.gap_size as int, wh, i / cols);
            }
        },
    }
}

} // verus!
