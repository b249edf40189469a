//! The splash screen: a picture shown at start and while the client is idle.
//!
//! A splash has weighted variants; going idle rolls a number below the
//! total weight and shows the variant in whose band the roll falls.  The
//! picture of the shown variant is scaled to the terminal and turned into
//! half-block cells: each cell stands for two pixels above one another.
use vstd::prelude::*;
use vstd::set_lib::*;

verus! {

/// A picture as rows of RGBA pixels, four bytes each, left to right and
/// top to bottom.
#[derive(Debug)]
pub struct SplashImage {
    pub width: u32,
    pub height: u32,
    pub rgba: Vec<u8>,
}

impl SplashImage {
    pub open spec fn wf(&self) -> bool {
        self.rgba@.len() == self.width as int * self.height as int * 4
    }

    /// A fully transparent black picture of the given size.
    pub fn blank(width: u32, height: u32) -> (r: SplashImage)
        requires
            width as int * height as int * 4 <= usize::MAX,
        ensures
            r.wf(),
            r.width == width,
            r.height == height,
            forall|i: int| 0 <= i < r.rgba@.len() ==> r.rgba@[i] == 0,
    {
        assert(width as int * height as int <= usize::MAX) by (nonlinear_arith)
            requires width as int * height as int * 4 <= usize::MAX;
        let size: usize = width as usize * height as usize * 4;
        let mut rgba: Vec<u8> = Vec::new();
        while rgba.len() < size
            invariant
                rgba@.len() <= size,
                forall|i: int| 0 <= i < rgba@.len() ==> rgba@[i] == 0,
            decreases size - rgba@.len(),
        {
            rgba.push(0);
        }
        SplashImage { width, height, rgba }
    }
}

/// One picture the splash can show, with its relative weight.
#[derive(Debug)]
pub struct SplashVariant {
    pub name: &'static str,
    pub image: SplashImage,
    pub weight: u32,
}

/// The total weight of the variants before index `i`.
pub open spec fn weight_before(variants: Seq<SplashVariant>, i: int) -> int
    decreases i,
{
    if i <= 0 {
        0
    } else {
        weight_before(variants, i - 1) + variants[i - 1].weight
    }
}

pub open spec fn total_weight(variants: Seq<SplashVariant>) -> int {
    weight_before(variants, variants.len() as int)
}

/// Variant `i` has weight, and every variant after it has none.
pub open spec fn last_selectable(variants: Seq<SplashVariant>, i: int) -> bool {
    &&& 0 <= i < variants.len()
    &&& variants[i].weight > 0
    &&& forall|j: int| i < j < variants.len() ==> (#[trigger] variants[j]).weight == 0
}

/// The roll selects variant `i`: a roll below the total weight falls in
/// the band of its variant; a larger roll selects the last variant that
/// has weight.
pub open spec fn roll_selects(variants: Seq<SplashVariant>, roll: int, i: int) -> bool {
    &&& 0 <= i < variants.len()
    &&& if roll < total_weight(variants) {
        weight_before(variants, i) <= roll < weight_before(variants, i + 1)
    } else {
        last_selectable(variants, i)
    }
}

pub open spec fn has_selectable(variants: Seq<SplashVariant>) -> bool {
    exists|i: int| 0 <= i < variants.len() && (#[trigger] variants[i]).weight > 0
}

proof fn lemma_weight_before_monotone(variants: Seq<SplashVariant>, i: int, j: int)
    requires
        0 <= i <= j,
    ensures
        0 <= weight_before(variants, i) <= weight_before(variants, j),
    decreases j - i,
{
    if i < j {
        lemma_weight_before_monotone(variants, i, j - 1);
    } else {
        lemma_weight_before_nonneg(variants, i);
    }
}

proof fn lemma_weight_before_nonneg(variants: Seq<SplashVariant>, i: int)
    ensures
        weight_before(variants, i) >= 0,
    decreases i,
{
    if i > 0 {
        lemma_weight_before_nonneg(variants, i - 1);
    }
}

/// The variant that a roll selects.
pub fn select_variant_for_roll(variants: &[SplashVariant], roll: u32) -> (index: usize)
    requires
        has_selectable(variants@),
    ensures
        roll_selects(variants@, roll as int, index as int),
        variants@[index as int].weight > 0,
{
    let mut remaining: u32 = roll;
    let mut index: usize = 0;
    while index < variants.len()
        invariant
            index <= variants@.len(),
            weight_before(variants@, index as int) <= roll,
            remaining == roll - weight_before(variants@, index as int),
        decreases variants@.len() - index,
    {
        let weight = variants[index].weight;
        if remaining < weight {
            proof {
                lemma_weight_before_monotone(variants@, index as int + 1, variants@.len() as int);
            }
            return index;
        }
        remaining = remaining - weight;
        index = index + 1;
    }
    let mut back: usize = variants.len();
    while back > 0
        invariant
            back <= variants@.len(),
            roll >= total_weight(variants@),
            forall|j: int| back <= j < variants@.len() ==> (#[trigger] variants@[j]).weight == 0,
        decreases back,
    {
        back = back - 1;
        if variants[back].weight > 0 {
            return back;
        }
    }
    proof {
        let w = choose|i: int| 0 <= i < variants@.len() && (#[trigger] variants@[i]).weight > 0;
        assert(variants@[w].weight == 0);
    }
    0
}

/// A roll selects at most one variant.
pub proof fn roll_selects_one_variant(variants: Seq<SplashVariant>, roll: int, i: int, j: int)
    requires
        roll_selects(variants, roll, i),
        roll_selects(variants, roll, j),
    ensures
        i == j,
{
    if roll < total_weight(variants) {
        if i < j {
            lemma_weight_before_monotone(variants, i + 1, j);
        } else if j < i {
            lemma_weight_before_monotone(variants, j + 1, i);
        }
    }
}

/// Of the rolls below the total weight, a variant is selected by exactly
/// as many as its weight: each variant is shown in proportion to it.
pub proof fn selection_frequency_is_weight(variants: Seq<SplashVariant>, i: int)
    requires
        0 <= i < variants.len(),
    ensures
        Set::new(|roll: int| 0 <= roll < total_weight(variants) && roll_selects(variants, roll, i)).finite(),
        Set::new(|roll: int| 0 <= roll < total_weight(variants) && roll_selects(variants, roll, i)).len()
            == variants[i].weight,
{
    let lo = weight_before(variants, i);
    let hi = weight_before(variants, i + 1);
    lemma_weight_before_monotone(variants, 0, i);
    lemma_weight_before_monotone(variants, i + 1, variants.len() as int);
    let rolls = Set::new(|roll: int| 0 <= roll < total_weight(variants) && roll_selects(variants, roll, i));
    assert(rolls =~= set_int_range(lo, hi));
    lemma_int_range(lo, hi);
}

/// What the image crate decodes from an encoded picture, as width, height
/// and RGBA bytes; `None` where it cannot decode the bytes.
pub uninterp spec fn image_decoded(bytes: Seq<u8>) -> Option<(u32, u32, Seq<u8>)>;

/// The RGBA bytes of a picture scaled by the image crate to `columns` by
/// `rows` pixels with nearest-neighbour sampling.
pub uninterp spec fn nearest_resized(width: u32, height: u32, rgba: Seq<u8>, columns: u32, rows: u32) -> Seq<u8>;

/// `image::load_from_memory`, converted to RGBA bytes with `to_rgba8` and
/// `into_raw`.  Claimed: the result is the decoding named by
/// `image_decoded`, and its buffer holds four bytes for each pixel (the
/// decoder and the conversion allocate exactly that much).
#[verifier::external_body]
fn decode_image(bytes: &[u8]) -> (r: Option<SplashImage>)
    ensures
        match (r, image_decoded(bytes@)) {
            (Some(img), Some(d)) => img.width == d.0 && img.height == d.1 && img.rgba@ == d.2,
            (None, None) => true,
            _ => false,
        },
        r matches Some(img) ==> img.wf(),
{
    let rgba = image::load_from_memory(bytes).ok()?.to_rgba8();
    Some(SplashImage { width: rgba.width(), height: rgba.height(), rgba: rgba.into_raw() })
}

/// `DynamicImage::resize_exact` with `FilterType::Nearest` on the picture,
/// converted back to RGBA bytes.  Claimed: the result is the scaling named
/// by `nearest_resized`, with four bytes for each of the `columns` by
/// `rows` pixels (`imageops::resize` allocates a buffer of that size).
#[verifier::external_body]
fn resize_nearest(image: &SplashImage, columns: u32, rows: u32) -> (r: Vec<u8>)
    requires
        image.wf(),
        columns > 0,
        rows > 0,
        columns as int * rows as int * 4 <= usize::MAX,
    ensures
        r@ == nearest_resized(image.width, image.height, image.rgba@, columns, rows),
        r@.len() == columns as int * rows as int * 4,
{
    let filter = image::imageops::FilterType::Nearest;
    match image::RgbaImage::from_raw(image.width, image.height, image.rgba.clone()) {
        Some(b) => image::DynamicImage::ImageRgba8(b).resize_exact(columns, rows, filter).to_rgba8().into_raw(),
        None => Vec::new(),
    }
}

/// `rand::random_range(0..bound)`.  Claimed: the number is below `bound`;
/// nothing is said of which one it is.
#[verifier::external_body]
fn random_below(bound: u32) -> (r: u32)
    requires
        bound > 0,
    ensures
        r < bound,
{
    rand::random_range(0..bound)
}

/// The glyph of a terminal cell that shows two pixels.
#[derive(Clone, Copy, Debug, PartialEq, Eq, Structural)]
pub enum Glyph {
    /// Neither pixel shows: a space.
    Blank,
    /// The upper half block.
    UpperHalf,
    /// The lower half block.
    LowerHalf,
}

/// A colour of a cell.
#[derive(Clone, Copy, Debug, PartialEq, Eq, Structural)]
pub enum CellColor {
    Rgb(u8, u8, u8),
    /// The terminal's own colour.
    Reset,
}

/// One terminal cell of the picture.
#[derive(Clone, Copy, Debug, PartialEq, Eq, Structural)]
pub struct Cell {
    pub glyph: Glyph,
    pub fg: Option<CellColor>,
    pub bg: Option<CellColor>,
}

/// The pixel at column `x` and row `y` of RGBA bytes `width` pixels wide.
pub open spec fn pixel_at(rgba: Seq<u8>, width: int, x: int, y: int) -> (u8, u8, u8, u8) {
    let i = (y * width + x) * 4;
    (rgba[i], rgba[i + 1], rgba[i + 2], rgba[i + 3])
}

/// A pixel shows when it is at least half opaque.
pub open spec fn visible(p: (u8, u8, u8, u8)) -> bool {
    p.3 >= 128
}

pub open spec fn color_of(p: (u8, u8, u8, u8)) -> CellColor {
    CellColor::Rgb(p.0, p.1, p.2)
}

/// The cell for a pixel above another.
pub open spec fn cell_for(top: (u8, u8, u8, u8), bottom: (u8, u8, u8, u8)) -> Cell {
    if !visible(top) && !visible(bottom) {
        Cell { glyph: Glyph::Blank, fg: None, bg: None }
    } else if !visible(bottom) {
        Cell { glyph: Glyph::UpperHalf, fg: Some(color_of(top)), bg: Some(CellColor::Reset) }
    } else if !visible(top) {
        Cell { glyph: Glyph::LowerHalf, fg: Some(color_of(bottom)), bg: Some(CellColor::Reset) }
    } else {
        Cell { glyph: Glyph::UpperHalf, fg: Some(color_of(top)), bg: Some(color_of(bottom)) }
    }
}

/// The cells for RGBA bytes `columns` pixels wide and `2 * rows` high:
/// cell `(r, c)` shows pixel rows `2r` and `2r + 1` of column `c`.
pub open spec fn cells_of(rgba: Seq<u8>, columns: int, rows: int) -> Seq<Seq<Cell>> {
    Seq::new(
        rows as nat,
        |r: int|
            Seq::new(
                columns as nat,
                |c: int| cell_for(pixel_at(rgba, columns, c, 2 * r), pixel_at(rgba, columns, c, 2 * r + 1)),
            ),
    )
}

/// The cells of a picture scaled to `columns` by `rows` cells.
pub open spec fn picture_cells(image: SplashImage, columns: int, rows: int) -> Seq<Seq<Cell>> {
    cells_of(
        nearest_resized(image.width, image.height, image.rgba@, columns as u32, (2 * rows) as u32),
        columns,
        rows,
    )
}

pub open spec fn lines_view(lines: Seq<Vec<Cell>>) -> Seq<Seq<Cell>> {
    lines.map_values(|l: Vec<Cell>| l@)
}

/// The cell for two pixels.
pub fn cell_from_pixels(top: (u8, u8, u8, u8), bottom: (u8, u8, u8, u8)) -> (r: Cell)
    ensures
        r == cell_for(top, bottom),
{
    let top_visible = top.3 >= 128;
    let bottom_visible = bottom.3 >= 128;
    if !top_visible && !bottom_visible {
        Cell { glyph: Glyph::Blank, fg: None, bg: None }
    } else if !bottom_visible {
        Cell {
            glyph: Glyph::UpperHalf,
            fg: Some(CellColor::Rgb(top.0, top.1, top.2)),
            bg: Some(CellColor::Reset),
        }
    } else if !top_visible {
        Cell {
            glyph: Glyph::LowerHalf,
            fg: Some(CellColor::Rgb(bottom.0, bottom.1, bottom.2)),
            bg: Some(CellColor::Reset),
        }
    } else {
        Cell {
            glyph: Glyph::UpperHalf,
            fg: Some(CellColor::Rgb(top.0, top.1, top.2)),
            bg: Some(CellColor::Rgb(bottom.0, bottom.1, bottom.2)),
        }
    }
}

proof fn lemma_pixel_offsets(row: int, rows: int, column: int, columns: int)
    by (nonlinear_arith)
    requires
        0 <= row < rows,
        0 <= column < columns,
    ensures
        (2 * row * columns + column) * 4 == 2 * row * (columns * 4) + column * 4,
        ((2 * row + 1) * columns + column) * 4 == 2 * row * (columns * 4) + column * 4 + columns
            * 4,
        2 * row * (columns * 4) + column * 4 + columns * 4 + 3 < 2 * rows * (columns * 4),
        2 * (row + 1) * (columns * 4) == 2 * row * (columns * 4) + 2 * (columns * 4),
        2 * (row + 1) * (columns * 4) <= 2 * rows * (columns * 4),
{
}

/// The picture scaled to `columns` by `rows` cells.
pub fn converted_lines(image: &SplashImage, columns: u32, rows: u32) -> (r: Vec<Vec<Cell>>)
    requires
        image.wf(),
        columns > 0,
        rows > 0,
        columns as int * rows as int * 8 <= usize::MAX,
        rows as int * 2 <= u32::MAX,
    ensures
        lines_view(r@) == picture_cells(*image, columns as int, rows as int),
{
    let doubled: u32 = rows * 2;
    assert(columns as int * doubled as int * 4 == columns as int * rows as int * 8) by (nonlinear_arith)
        requires doubled == rows * 2;
    let buffer = resize_nearest(image, columns, doubled);
    let ghost rgba = buffer@;
    let ghost want = picture_cells(*image, columns as int, rows as int);
    assert(want == cells_of(rgba, columns as int, rows as int));
    assert(rgba.len() == 2 * rows * (columns * 4) && columns * 4 <= rgba.len()) by (nonlinear_arith)
        requires
            rgba.len() == columns as int * doubled as int * 4,
            doubled == rows * 2,
            rows > 0,
    ;
    let stride: usize = columns as usize * 4;
    assert(2 * 0 * (columns * 4) == 0) by (nonlinear_arith);
    let mut lines: Vec<Vec<Cell>> = Vec::new();
    let mut row: u32 = 0;
    let mut row_start: usize = 0;
    while row < rows
        invariant
            row <= rows,
            columns > 0,
            stride == columns * 4,
            buffer@ == rgba,
            2 * rows * (columns * 4) <= usize::MAX,
            rgba.len() == 2 * rows * (columns * 4),
            row_start == 2 * row * (columns * 4),
            lines@.len() == row,
            want == cells_of(rgba, columns as int, rows as int),
            forall|r: int| 0 <= r < row ==> (#[trigger] lines@[r])@ == want[r],
        decreases rows - row,
    {
        let mut line: Vec<Cell> = Vec::new();
        let mut column: u32 = 0;
        let mut top: usize = row_start;
        while column < columns
            invariant
                row < rows,
                column <= columns,
                stride == columns * 4,
                buffer@ == rgba,
                2 * rows * (columns * 4) <= usize::MAX,
                rgba.len() == 2 * rows * (columns * 4),
                row_start == 2 * row * (columns * 4),
                top == row_start + column * 4,
                line@.len() == column,
                want == cells_of(rgba, columns as int, rows as int),
                forall|c: int| 0 <= c < column ==> (#[trigger] line@[c]) == want[row as int][c],
            decreases columns - column,
        {
            proof {
                lemma_pixel_offsets(row as int, rows as int, column as int, columns as int);
            }
            let bottom = top + stride;
            let cell = cell_from_pixels(
                (buffer[top], buffer[top + 1], buffer[top + 2], buffer[top + 3]),
                (buffer[bottom], buffer[bottom + 1], buffer[bottom + 2], buffer[bottom + 3]),
            );
            line.push(cell);
            top = top + 4;
            column = column + 1;
        }
        assert(line@ =~= want[row as int]);
        proof {
            lemma_pixel_offsets(row as int, rows as int, 0, columns as int);
        }
        lines.push(line);
        row_start = row_start + 2 * stride;
        row = row + 1;
    }
    assert(lines_view(lines@) =~= want);
    lines
}

/// A copy of the cells.
fn copy_lines(lines: &Vec<Vec<Cell>>) -> (r: Vec<Vec<Cell>>)
    ensures
        lines_view(r@) == lines_view(lines@),
{
    let mut out: Vec<Vec<Cell>> = Vec::new();
    let mut i: usize = 0;
    while i < lines.len()
        invariant
            i <= lines@.len(),
            out@.len() == i,
            forall|r: int| 0 <= r < i ==> (#[trigger] out@[r])@ == lines@[r]@,
        decreases lines@.len() - i,
    {
        let line = &lines[i];
        let mut copy: Vec<Cell> = Vec::new();
        let mut j: usize = 0;
        while j < line.len()
            invariant
                j <= line@.len(),
                copy@ == line@.take(j as int),
            decreases line@.len() - j,
        {
            copy.push(line[j]);
            j = j + 1;
            assert(copy@ =~= line@.take(j as int));
        }
        assert(copy@ =~= line@);
        out.push(copy);
        i = i + 1;
    }
    assert(lines_view(out@) =~= lines_view(lines@));
    out
}

/// Where a span of `size` starts when centred in `extent` from `start`.
pub fn centered_origin(start: u16, extent: u16, size: u16) -> (r: u16)
    requires
        size <= extent,
        start + (extent - size) / 2 <= u16::MAX,
    ensures
        r == start + (extent - size) / 2,
{
    start + (extent - size) / 2
}

/// The cells last rendered, with the size they were rendered at.
#[derive(Debug)]
pub struct RenderedSplash {
    pub columns: u16,
    pub rows: u16,
    pub lines: Vec<Vec<Cell>>,
}

/// The splash screen: its variants, the one shown, and the cells last
/// rendered of it.
#[derive(Debug)]
pub struct Splash {
    variants: Vec<SplashVariant>,
    selected_variant: usize,
    rendered: Option<RenderedSplash>,
}

pub open spec fn images_wf(variants: Seq<SplashVariant>) -> bool {
    forall|i: int| 0 <= i < variants.len() ==> (#[trigger] variants[i]).image.wf()
}

impl Splash {
    pub closed spec fn variants(&self) -> Seq<SplashVariant> {
        self.variants@
    }

    pub closed spec fn selected(&self) -> int {
        self.selected_variant as int
    }

    /// The size and cells of the last rendering, if it is still valid.
    pub closed spec fn cached(&self) -> Option<(u16, u16, Seq<Seq<Cell>>)> {
        match self.rendered {
            Some(c) => Some((c.columns, c.rows, lines_view(c.lines@))),
            None => None,
        }
    }

    pub open spec fn shown_image(&self) -> SplashImage {
        self.variants()[self.selected()].image
    }

    pub open spec fn wf(&self) -> bool {
        &&& self.variants().len() > 0
        &&& 0 < total_weight(self.variants()) <= u32::MAX
        &&& 0 <= self.selected() < self.variants().len()
        &&& images_wf(self.variants())
        &&& self.cached() matches Some(c) ==> c.0 > 0 && c.1 > 0 && c.2 == picture_cells(
            self.shown_image(),
            c.0 as int,
            c.1 as int,
        )
    }

    /// A splash of the given variants, showing the first.  Refused when
    /// there is none, or when their weights add up to nothing or to more
    /// than a `u32` holds.
    pub fn from_variants(variants: Vec<SplashVariant>) -> (r: Result<Splash, String>)
        requires
            images_wf(variants@),
        ensures
            match r {
                Ok(s) => {
                    &&& variants@.len() > 0
                    &&& 0 < total_weight(variants@) <= u32::MAX
                    &&& s.wf()
                    &&& s.variants() == variants@
                    &&& s.selected() == 0
                    &&& s.cached() is None
                },
                Err(e) => if variants@.len() == 0 {
                    e@ == "embedded splash configuration contains no variants"@
                } else {
                    &&& total_weight(variants@) == 0 || total_weight(variants@) > u32::MAX
                    &&& e@ == "embedded splash configuration has no selectable weight"@
                },
            },
    {
        if variants.len() == 0 {
            return Err(crate::text::to_owned_string("embedded splash configuration contains no variants"));
        }
        let mut total: u32 = 0;
        let mut i: usize = 0;
        while i < variants.len()
            invariant
                i <= variants@.len(),
                total == weight_before(variants@, i as int),
            decreases variants@.len() - i,
        {
            match total.checked_add(variants[i].weight) {
                Some(sum) => total = sum,
                None => {
                    proof {
                        lemma_weight_before_monotone(variants@, i as int + 1, variants@.len() as int);
                    }
                    return Err(crate::text::to_owned_string("embedded splash configuration has no selectable weight"));
                },
            }
            i = i + 1;
        }
        if total == 0 {
            return Err(crate::text::to_owned_string("embedded splash configuration has no selectable weight"));
        }
        Ok(Splash { variants, selected_variant: 0, rendered: None })
    }

    /// The splash of the client: the logo, shown nine times in ten, and
    /// the Mario picture, shown the tenth time.  Fails when a picture
    /// cannot be decoded.
    pub fn new(logo: &[u8], mario: &[u8]) -> (r: Result<Splash, String>)
        ensures
            match r {
                Ok(s) => {
                    &&& image_decoded(logo@) matches Some(l)
                    &&& image_decoded(mario@) matches Some(m)
                    &&& s.wf()
                    &&& s.variants().len() == 2
                    &&& s.variants()[0].name@ == "default"@
                    &&& s.variants()[0].weight == 90
                    &&& s.variants()[0].image.width == l.0
                    &&& s.variants()[0].image.height == l.1
                    &&& s.variants()[0].image.rgba@ == l.2
                    &&& s.variants()[1].name@ == "mario"@
                    &&& s.variants()[1].weight == 10
                    &&& s.variants()[1].image.width == m.0
                    &&& s.variants()[1].image.height == m.1
                    &&& s.variants()[1].image.rgba@ == m.2
                    &&& s.selected() == 0
                    &&& s.cached() is None
                },
                Err(e) => if image_decoded(logo@) is None {
                    e@ == "failed to decode embedded default splash logo"@
                } else {
                    &&& image_decoded(mario@) is None
                    &&& e@ == "failed to decode embedded Mario splash image"@
                },
            },
    {
        let logo_image = match decode_image(logo) {
            Some(image) => image,
            None => {
                return Err(crate::text::to_owned_string("failed to decode embedded default splash logo"));
            },
        };
        let mario_image = match decode_image(mario) {
            Some(image) => image,
            None => {
                return Err(crate::text::to_owned_string("failed to decode embedded Mario splash image"));
            },
        };
        let mut variants: Vec<SplashVariant> = Vec::new();
        variants.push(SplashVariant { name: "default", image: logo_image, weight: 90 });
        variants.push(SplashVariant { name: "mario", image: mario_image, weight: 10 });
        assert(total_weight(variants@) == 100) by {
            assert(weight_before(variants@, 0) == 0);
            assert(variants@[0].weight == 90);
            assert(weight_before(variants@, 1) == 90);
        }
        Splash::from_variants(variants)
    }

    /// The total weight of the variants.
    pub fn weight_sum(&self) -> (r: u32)
        requires
            self.wf(),
        ensures
            r == total_weight(self.variants()),
    {
        let mut total: u32 = 0;
        let mut i: usize = 0;
        while i < self.variants.len()
            invariant
                i <= self.variants@.len(),
                total == weight_before(self.variants@, i as int),
                total_weight(self.variants@) <= u32::MAX,
            decreases self.variants@.len() - i,
        {
            proof {
                lemma_weight_before_monotone(self.variants@, i as int + 1, self.variants@.len() as int);
            }
            total = total + self.variants[i].weight;
            i = i + 1;
        }
        total
    }

    /// Shows the variant that `roll` selects.
    pub fn begin_idle_with_roll(&mut self, roll: u32)
        requires
            old(self).wf(),
            roll < total_weight(old(self).variants()),
        ensures
            final(self).wf(),
            final(self).variants() == old(self).variants(),
            roll_selects(old(self).variants(), roll as int, final(self).selected()),
            final(self).cached() is None,
    {
        proof {
            lemma_some_roll_selects(self.variants@, roll as int);
        }
        let index = select_variant_for_roll(self.variants.as_slice(), roll);
        self.selected_variant = index;
        self.rendered = None;
    }

    /// Rolls for the variant to show while idle.
    pub fn begin_idle(&mut self)
        requires
            old(self).wf(),
        ensures
            final(self).wf(),
            final(self).variants() == old(self).variants(),
            exists|roll: int|
                0 <= roll < total_weight(old(self).variants()) && roll_selects(
                    old(self).variants(),
                    roll,
                    final(self).selected(),
                ),
            final(self).variants()[final(self).selected()].weight > 0,
            final(self).cached() is None,
    {
        let total = self.weight_sum();
        let roll = random_below(total);
        self.begin_idle_with_roll(roll);
        proof {
            lemma_weight_before_monotone(self.variants@, self.selected() + 1, self.variants@.len() as int);
            lemma_weight_before_monotone(self.variants@, self.selected(), self.selected() + 1);
        }
    }

    /// Shows the next variant, after the last the first.
    pub fn next_variant(&mut self)
        requires
            old(self).wf(),
        ensures
            final(self).wf(),
            final(self).variants() == old(self).variants(),
            final(self).selected() == if old(self).selected() + 1 == old(self).variants().len() {
                0
            } else {
                old(self).selected() + 1
            },
            final(self).cached() is None,
    {
        let count = self.variants.len();
        let next = self.selected_variant + 1;
        self.selected_variant = if next == count { 0 } else { next };
        self.rendered = None;
    }

    /// The width and height in pixels of the picture shown.
    pub fn shown_size(&self) -> (r: (u32, u32))
        requires
            self.wf(),
        ensures
            r == (self.shown_image().width, self.shown_image().height),
    {
        let image = &self.variants[self.selected_variant].image;
        (image.width, image.height)
    }

    /// The name of the variant shown.
    pub fn selected_name(&self) -> (r: &'static str)
        requires
            self.wf(),
        ensures
            r@ == self.variants()[self.selected()].name@,
    {
        self.variants[self.selected_variant].name
    }

    /// The cells of the shown picture scaled to `columns` by `rows`
    /// cells; nothing when either is zero.  The cells are kept and given
    /// again while the size stays the same.
    pub fn render(&mut self, columns: u16, rows: u16) -> (r: Vec<Vec<Cell>>)
        requires
            old(self).wf(),
            columns as int * rows as int * 8 <= usize::MAX,
        ensures
            final(self).wf(),
            final(self).variants() == old(self).variants(),
            final(self).selected() == old(self).selected(),
            columns == 0 || rows == 0 ==> r@.len() == 0 && final(self).cached() == old(self).cached(),
            columns > 0 && rows > 0 ==> {
                &&& lines_view(r@) == picture_cells(old(self).shown_image(), columns as int, rows as int)
                &&& final(self).cached() == Some(
                    (columns, rows, picture_cells(old(self).shown_image(), columns as int, rows as int)),
                )
            },
    {
        if columns == 0 || rows == 0 {
            return Vec::new();
        }
        let stale = match &self.rendered {
            Some(c) => c.columns != columns || c.rows != rows,
            None => true,
        };
        if stale {
            proof {
                assert(self.variants@[self.selected()].image.wf());
            }
            let lines = converted_lines(
                &self.variants[self.selected_variant].image,
                columns as u32,
                rows as u32,
            );
            self.rendered = Some(RenderedSplash { columns, rows, lines });
        }
        match &self.rendered {
            Some(c) => copy_lines(&c.lines),
            None => Vec::new(),
        }
    }
}

proof fn lemma_some_roll_selects(variants: Seq<SplashVariant>, roll: int)
    requires
        0 <= roll < total_weight(variants),
    ensures
        has_selectable(variants),
{
    lemma_band_exists(variants, roll, variants.len() as int);
}

proof fn lemma_band_exists(variants: Seq<SplashVariant>, roll: int, k: int)
    requires
        0 <= roll < weight_before(variants, k),
        0 <= k <= variants.len(),
    ensures
        has_selectable(variants),
    decreases k,
{
    lemma_weight_before_nonneg(variants, k - 1);
    if roll < weight_before(variants, k - 1) {
        lemma_band_exists(variants, roll, k - 1);
    } else {
        assert(variants[k - 1].weight > 0);
    }
}

} // verus!
