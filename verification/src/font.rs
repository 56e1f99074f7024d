//! Where the characters of a text go when it is drawn with a bitmap font.
//!
//! A bitmap font is an image of characters of one size, row after row,
//! starting with the space character.

use vstd::prelude::*;
use vstd::string::StrSliceExecFns;

verus! {

/// A rectangle of pixels, by its upper left corner and its size.
#[derive(Clone, Copy, Debug, PartialEq, Eq, Structural)]
pub struct Rect {
    pub x: i32,
    pub y: i32,
    pub width: u32,
    pub height: u32,
}

/// One character to draw: the part of the font's image that shows it, and
/// the place on the canvas where it goes.
#[derive(Clone, Copy, Debug, PartialEq, Eq, Structural)]
pub struct Glyph {
    pub source: Rect,
    pub target: Rect,
}

/// The bytes that `character` takes in UTF-8.
pub open spec fn utf8_len(character: char) -> int {
    if (character as u32) < 0x80 {
        1
    } else if (character as u32) < 0x800 {
        2
    } else if (character as u32) < 0x10000 {
        3
    } else {
        4
    }
}

/// The bytes that the first `count` characters of `text` take in UTF-8: the
/// position of the character after them.
pub open spec fn byte_offset(text: Seq<char>, count: int) -> int
    decreases count,
{
    if count <= 0 || count > text.len() {
        0
    } else {
        byte_offset(text, count - 1) + utf8_len(text[count - 1])
    }
}

/// The lines of `text`, as `str::lines` gives them.
pub uninterp spec fn lines_of(text: Seq<char>) -> Seq<Seq<char>>;

/// `str::char_indices`, collected: the characters of the text in their
/// order, each with the position of its first byte.
#[verifier::external_body]
fn char_positions(text: &str) -> (indices: Vec<(usize, char)>)
    ensures
        indices@.len() == text@.len(),
        forall|i: int|
            0 <= i < indices@.len() ==> (#[trigger] indices@[i]).1 == text@[i] && indices@[i].0
                == byte_offset(text@, i),
{
    text.char_indices().collect()
}

/// `str::lines`, collected: the lines of the text, without their endings.
#[verifier::external_body]
fn text_lines(text: &str) -> (lines: Vec<String>)
    ensures
        lines@.len() == lines_of(text@).len(),
        forall|i: int| 0 <= i < lines@.len() ==> (#[trigger] lines@[i])@ == lines_of(text@)[i],
{
    text.lines().map(String::from).collect()
}

/// The size of one character and the width of the font's image that whole
/// characters fill.
#[derive(Clone, Copy, Debug, PartialEq, Eq, Structural)]
pub struct Metrics {
    pub char_width: u32,
    pub char_height: u32,
    pub row_width: u32,
}

/// Where the pen stands: the lines begun before, and the position in the
/// text at which the present line began.
#[derive(Clone, Copy, Debug, PartialEq, Eq, Structural)]
pub struct Pen {
    pub line: u32,
    pub line_start: usize,
}

impl Metrics {
    /// How far into the font's image `character` stands, in pixels along
    /// the rows laid end to end: the image begins with the space character.
    pub open spec fn offset(self, character: char) -> int {
        (character as u32 - 32) * self.char_width
    }

    /// The left edge of `character` in the font's image.
    pub open spec fn source_x(self, character: char) -> int {
        self.offset(character) % (self.row_width as int)
    }

    /// The upper edge of `character` in the font's image.
    pub open spec fn source_y(self, character: char) -> int {
        self.offset(character) / (self.row_width as int) * self.char_height
    }

    /// The left edge on the canvas of the character at `position` in the
    /// text: as many character widths right of `point` as the character
    /// stands after the beginning of its line, counted in bytes.
    pub open spec fn target_x(self, pen: Pen, position: usize, point: (i32, i32)) -> int {
        (position - pen.line_start) * self.char_width + point.0
    }

    /// The upper edge on the canvas of a character on the pen's line: as
    /// many character heights below `point` as there are lines before.
    pub open spec fn target_y(self, pen: Pen, point: (i32, i32)) -> int {
        pen.line * self.char_height + point.1
    }

    /// Whether `character`, drawn at `position` in the text with the pen at
    /// `pen`, has a glyph: the font's image holds at least one character in
    /// a row, the character is no control character, and its places in the
    /// image and on the canvas are within the range of `i32`.
    pub open spec fn has_glyph(self, pen: Pen, position: usize, character: char, point: (i32, i32)) -> bool {
        &&& self.row_width > 0
        &&& character as u32 >= 32
        &&& position >= pen.line_start
        &&& self.offset(character) <= u32::MAX
        &&& self.source_x(character) <= i32::MAX
        &&& self.source_y(character) <= i32::MAX
        &&& (position - pen.line_start) * self.char_width <= i32::MAX
        &&& pen.line * self.char_height <= i32::MAX
        &&& self.target_x(pen, position, point) <= i32::MAX
        &&& self.target_y(pen, point) <= i32::MAX
    }

    /// The glyph of `character`, drawn at `position` in the text with the
    /// pen at `pen` and the text's upper left corner at `point`.
    pub open spec fn glyph(self, pen: Pen, position: usize, character: char, point: (i32, i32)) -> Glyph {
        Glyph {
            source: Rect {
                x: self.source_x(character) as i32,
                y: self.source_y(character) as i32,
                width: self.char_width,
                height: self.char_height,
            },
            target: Rect {
                x: self.target_x(pen, position, point) as i32,
                y: self.target_y(pen, point) as i32,
                width: self.char_width,
                height: self.char_height,
            },
        }
    }

    /// The glyph of one character, where it has one.
    pub fn glyph_for(&self, pen: Pen, position: usize, character: char, point: (i32, i32)) -> (glyph:
        Option<Glyph>)
        ensures
            glyph == if self.has_glyph(pen, position, character, point) {
                Some(self.glyph(pen, position, character, point))
            } else {
                None
            },
    {
        let code = character as u32;
        if self.row_width == 0 || code < 32 || position < pen.line_start {
            return None;
        }
        let offset: u32 = match (code - 32).checked_mul(self.char_width) {
            Some(product) => product,
            None => {
                return None;
            },
        };
        let source_x: u32 = offset % self.row_width;
        let source_y: u32 = match (offset / self.row_width).checked_mul(self.char_height) {
            Some(product) => product,
            None => {
                return None;
            },
        };
        proof {
            assert(source_x <= offset) by (nonlinear_arith)
                requires
                    source_x == offset % self.row_width,
                    self.row_width > 0,
            ;
        }
        let column: usize = position - pen.line_start;
        let across: u32 = if self.char_width == 0 {
            assert(column * self.char_width == 0) by (nonlinear_arith)
                requires
                    self.char_width == 0,
            ;
            0
        } else if column > 0x7fff_ffff {
            assert(column * self.char_width > i32::MAX) by (nonlinear_arith)
                requires
                    column > 0x7fff_ffff,
                    self.char_width >= 1,
            ;
            return None;
        } else {
            match (column as u32).checked_mul(self.char_width) {
                Some(product) => product,
                None => {
                    return None;
                },
            }
        };
        let down: u32 = match pen.line.checked_mul(self.char_height) {
            Some(product) => product,
            None => {
                return None;
            },
        };
        if source_x > 0x7fff_ffff || source_y > 0x7fff_ffff || across > 0x7fff_ffff || down
            > 0x7fff_ffff {
            return None;
        }
        let target_x: i32 = match (across as i32).checked_add(point.0) {
            Some(sum) => sum,
            None => {
                return None;
            },
        };
        let target_y: i32 = match (down as i32).checked_add(point.1) {
            Some(sum) => sum,
            None => {
                return None;
            },
        };
        Some(
            Glyph {
                source: Rect {
                    x: source_x as i32,
                    y: source_y as i32,
                    width: self.char_width,
                    height: self.char_height,
                },
                target: Rect {
                    x: target_x,
                    y: target_y,
                    width: self.char_width,
                    height: self.char_height,
                },
            },
        )
    }
}

/// The glyphs of the characters `chars`, each given with its position in
/// the text, drawn from the pen at `pen` on: a line feed has no glyph and
/// moves the pen to the next line, which begins after it; every other
/// character has its glyph at the pen. Nothing where one of them has no
/// glyph or the lines can no longer be counted.
pub open spec fn glyphs_from(
    metrics: Metrics,
    chars: Seq<(usize, char)>,
    pen: Pen,
    point: (i32, i32),
) -> Option<Seq<Glyph>>
    decreases chars.len(),
{
    if chars.len() == 0 {
        Some(Seq::empty())
    } else {
        let (position, character) = chars.first();
        if character == '\n' {
            if pen.line < u32::MAX && position < usize::MAX {
                glyphs_from(
                    metrics,
                    chars.drop_first(),
                    Pen { line: (pen.line + 1) as u32, line_start: (position + 1) as usize },
                    point,
                )
            } else {
                None
            }
        } else if metrics.has_glyph(pen, position, character, point) {
            match glyphs_from(metrics, chars.drop_first(), pen, point) {
                Some(rest) => Some(seq![metrics.glyph(pen, position, character, point)] + rest),
                None => None,
            }
        } else {
            None
        }
    }
}

/// The characters of `text`, each with the position of its first byte.
pub open spec fn positioned(text: Seq<char>) -> Seq<(usize, char)> {
    Seq::new(text.len(), |i: int| (byte_offset(text, i) as usize, text[i]))
}

/// The number of characters of the longest of `lines`.
pub open spec fn longest(lines: Seq<Seq<char>>) -> nat
    decreases lines.len(),
{
    if lines.len() == 0 {
        0
    } else if lines.last().len() > longest(lines.drop_last()) {
        lines.last().len()
    } else {
        longest(lines.drop_last())
    }
}

/// The glyphs that a layout handed back, if it handed any back.
pub open spec fn laid_out(glyphs: Option<Vec<Glyph>>) -> Option<Seq<Glyph>> {
    match glyphs {
        Some(list) => Some(list@),
        None => None,
    }
}

/// The lines as text.
pub open spec fn line_texts(lines: Seq<String>) -> Seq<Seq<char>> {
    lines.map_values(|line: String| line@)
}

/// The number of characters of the longest line.
fn longest_line(lines: &Vec<String>) -> (length: usize)
    ensures
        length == longest(line_texts(lines@)),
{
    let ghost all = line_texts(lines@);
    let mut length: usize = 0;
    let mut index: usize = 0;
    while index < lines.len()
        invariant
            index <= lines@.len(),
            all == line_texts(lines@),
            length == longest(all.take(index as int)),
        decreases lines@.len() - index,
    {
        assert(all.take(index + 1).drop_last() =~= all.take(index as int));
        let characters = lines[index].as_str().unicode_len();
        if characters > length {
            length = characters;
        }
        index += 1;
    }
    assert(all.take(index as int) =~= all);
    length
}

/// A font made of an image of characters of one size.
pub struct BitmapFont<T> {
    texture: T,
    char_width: u32,
    char_height: u32,
}

impl<T> BitmapFont<T> {
    /// The font's image.
    pub closed spec fn image(&self) -> T {
        self.texture
    }

    /// The size of one character, width first.
    pub closed spec fn size(&self) -> (u32, u32) {
        (self.char_width, self.char_height)
    }

    /// The metrics of the font when its image is `texture_width` wide: a
    /// row of the image holds as many characters as fit whole.
    pub open spec fn metrics(&self, texture_width: u32) -> Metrics {
        Metrics {
            char_width: self.size().0,
            char_height: self.size().1,
            row_width: (texture_width - texture_width % self.size().0) as u32,
        }
    }

    /// The glyphs of `text` with its upper left corner at `point`. Nothing
    /// where a character has no width, or some character has no glyph.
    pub open spec fn layout(&self, text: Seq<char>, point: (i32, i32), texture_width: u32) -> Option<
        Seq<Glyph>,
    > {
        if self.size().0 == 0 {
            None
        } else {
            glyphs_from(
                self.metrics(texture_width),
                positioned(text),
                Pen { line: 0, line_start: 0 },
                point,
            )
        }
    }

    /// The upper left corner of a text whose middle is at `point`: half the
    /// width of its longest line to the left and half the height of its
    /// lines up. Nothing where the width or the height leaves the range of
    /// `i32`, or the corner does.
    pub open spec fn centered(&self, lines: Seq<Seq<char>>, point: (i32, i32)) -> Option<(i32, i32)> {
        let width = (longest(lines) as usize as u32) * self.size().0;
        let height = (lines.len() as usize as u32) * self.size().1;
        let left = point.0 - width / 2;
        let top = point.1 - height / 2;
        if width <= i32::MAX && height <= i32::MAX && i32::MIN <= left && i32::MIN <= top {
            Some((left as i32, top as i32))
        } else {
            None
        }
    }

    /// A font whose image is `texture` and whose characters have the size
    /// `char_size`, width first.
    pub fn new(texture: T, char_size: (u32, u32)) -> (font: Self)
        ensures
            font.image() == texture,
            font.size() == char_size,
    {
        BitmapFont { texture, char_width: char_size.0, char_height: char_size.1 }
    }

    /// The font's image.
    pub fn texture(&self) -> (texture: &T)
        ensures
            *texture == self.image(),
    {
        &self.texture
    }

    /// The size of one character, width first.
    pub fn char_size(&self) -> (size: (u32, u32))
        ensures
            size == self.size(),
    {
        (self.char_width, self.char_height)
    }

    /// The glyphs to draw `text` with its upper left corner at `point`, when
    /// the font's image is `texture_width` wide.
    pub fn layout_text(&self, text: &str, point: (i32, i32), texture_width: u32) -> (glyphs: Option<
        Vec<Glyph>,
    >)
        ensures
            laid_out(glyphs) == self.layout(text@, point, texture_width),
    {
        if self.char_width == 0 {
            return None;
        }
        assert(texture_width % self.char_width <= texture_width) by (nonlinear_arith)
            requires
                self.char_width > 0,
        ;
        let metrics = Metrics {
            char_width: self.char_width,
            char_height: self.char_height,
            row_width: texture_width - texture_width % self.char_width,
        };
        let chars = char_positions(text);
        assert(chars@ =~= positioned(text@));
        let ghost first_pen = Pen { line: 0, line_start: 0 };
        let mut pen = Pen { line: 0, line_start: 0 };
        let mut glyphs: Vec<Glyph> = Vec::new();
        let mut index: usize = 0;
        assert(chars@.skip(0) =~= chars@);
        while index < chars.len()
            invariant
                index <= chars@.len(),
                self.layout(text@, point, texture_width) == glyphs_from(
                    metrics,
                    chars@,
                    first_pen,
                    point,
                ),
                glyphs_from(metrics, chars@, first_pen, point) == match glyphs_from(
                    metrics,
                    chars@.skip(index as int),
                    pen,
                    point,
                ) {
                    Some(rest) => Some(glyphs@ + rest),
                    None => None,
                },
            decreases chars@.len() - index,
        {
            let (position, character) = chars[index];
            proof {
                assert(chars@.skip(index as int).first() == chars@[index as int]);
                assert(chars@.skip(index as int).drop_first() =~= chars@.skip(index + 1));
            }
            if character == '\n' {
                if pen.line == u32::MAX || position == usize::MAX {
                    return None;
                }
                pen = Pen { line: pen.line + 1, line_start: position + 1 };
            } else {
                match metrics.glyph_for(pen, position, character, point) {
                    Some(glyph) => {
                        proof {
                            let rest = glyphs_from(metrics, chars@.skip(index + 1), pen, point);
                            if rest is Some {
                                assert(glyphs@.push(glyph) + rest->0 =~= glyphs@ + (seq![glyph]
                                    + rest->0));
                            }
                        }
                        glyphs.push(glyph);
                    },
                    None => {
                        return None;
                    },
                }
            }
            index += 1;
        }
        assert(glyphs@ + Seq::<Glyph>::empty() =~= glyphs@);
        Some(glyphs)
    }

    /// The upper left corner of `text` when its middle is at `point`.
    pub fn centered_origin(&self, text: &str, point: (i32, i32)) -> (origin: Option<(i32, i32)>)
        ensures
            origin == self.centered(lines_of(text@), point),
    {
        let lines = text_lines(text);
        assert(line_texts(lines@) =~= lines_of(text@));
        self.centered_among(&lines, point)
    }

    /// The upper left corner of a text with the lines `lines` when its
    /// middle is at `point`.
    pub fn centered_among(&self, lines: &Vec<String>, point: (i32, i32)) -> (origin: Option<
        (i32, i32),
    >)
        ensures
            origin == self.centered(line_texts(lines@), point),
    {
        let widest: u32 = #[verifier::truncate]
        (longest_line(lines) as u32);
        let count: u32 = #[verifier::truncate]
        (lines.len() as u32);
        let width: i32 = match widest.checked_mul(self.char_width) {
            Some(product) => {
                if product > 0x7fff_ffff {
                    return None;
                }
                product as i32
            },
            None => {
                return None;
            },
        };
        let height: i32 = match count.checked_mul(self.char_height) {
            Some(product) => {
                if product > 0x7fff_ffff {
                    return None;
                }
                product as i32
            },
            None => {
                return None;
            },
        };
        let left = match point.0.checked_sub(width / 2) {
            Some(difference) => difference,
            None => {
                return None;
            },
        };
        let top = match point.1.checked_sub(height / 2) {
            Some(difference) => difference,
            None => {
                return None;
            },
        };
        Some((left, top))
    }

    /// The glyphs to draw `text` with its middle at `point`, when the
    /// font's image is `texture_width` wide.
    pub fn layout_text_centered(&self, text: &str, point: (i32, i32), texture_width: u32) -> (glyphs:
        Option<Vec<Glyph>>)
        ensures
            laid_out(glyphs) == match self.centered(lines_of(text@), point) {
                Some(origin) => self.layout(text@, origin, texture_width),
                None => None,
            },
    {
        match self.centered_origin(text, point) {
            Some(origin) => self.layout_text(text, origin, texture_width),
            None => None,
        }
    }
}

} // verus!
