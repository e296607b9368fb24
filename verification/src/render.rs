use vstd::prelude::*;
use crate::strutil::push_char;

verus! {

/// The sixteen ANSI terminal colors, standard then bright.
#[derive(Debug, Clone, Copy, PartialEq, Eq, Structural)]
pub enum AnsiColor {
    Black,
    Red,
    Green,
    Yellow,
    Blue,
    Magenta,
    Cyan,
    White,
    BrightBlack,
    BrightRed,
    BrightGreen,
    BrightYellow,
    BrightBlue,
    BrightMagenta,
    BrightCyan,
    BrightWhite,
}

impl AnsiColor {
    /// The ANSI code selecting this color.
    pub open spec fn spec_ansi_code(&self) -> Seq<char> {
        match self {
            AnsiColor::Black => "30"@,
            AnsiColor::Red => "31"@,
            AnsiColor::Green => "32"@,
            AnsiColor::Yellow => "33"@,
            AnsiColor::Blue => "34"@,
            AnsiColor::Magenta => "35"@,
            AnsiColor::Cyan => "36"@,
            AnsiColor::White => "37"@,
            AnsiColor::BrightBlack => "90"@,
            AnsiColor::BrightRed => "91"@,
            AnsiColor::BrightGreen => "92"@,
            AnsiColor::BrightYellow => "93"@,
            AnsiColor::BrightBlue => "94"@,
            AnsiColor::BrightMagenta => "95"@,
            AnsiColor::BrightCyan => "96"@,
            AnsiColor::BrightWhite => "97"@,
        }
    }

    /// The ANSI code selecting this color.
    pub fn to_ansi_code(&self) -> (r: &'static str)
        ensures
            r@ == self.spec_ansi_code(),
    {
        match self {
            AnsiColor::Black => "30",
            AnsiColor::Red => "31",
            AnsiColor::Green => "32",
            AnsiColor::Yellow => "33",
            AnsiColor::Blue => "34",
            AnsiColor::Magenta => "35",
            AnsiColor::Cyan => "36",
            AnsiColor::White => "37",
            AnsiColor::BrightBlack => "90",
            AnsiColor::BrightRed => "91",
            AnsiColor::BrightGreen => "92",
            AnsiColor::BrightYellow => "93",
            AnsiColor::BrightBlue => "94",
            AnsiColor::BrightMagenta => "95",
            AnsiColor::BrightCyan => "96",
            AnsiColor::BrightWhite => "97",
        }
    }
}

/// Text wrapped in the escape sequences that color it and reset the color
/// behind it.
pub open spec fn spec_colorize(text: Seq<char>, color: AnsiColor) -> Seq<char> {
    "\u{1b}["@ + color.spec_ansi_code() + "m"@ + text + "\u{1b}[0m"@
}

/// Wraps text in the escape sequences selecting the given color.
pub fn colorize_text(text: &str, color: AnsiColor) -> (r: String)
    ensures
        r@ == spec_colorize(text@, color),
{
    let mut out = String::from_str("\u{1b}[");
    out.append(color.to_ansi_code());
    out.append("m");
    out.append(text);
    out.append("\u{1b}[0m");
    out
}

/// The characters left when every ANSI color escape sequence is removed.
/// The name stands for what regex substitution of the escape pattern
/// returns; the same characters always give the same result.
pub uninterp spec fn ansi_stripped(s: Seq<char>) -> Seq<char>;

/// Relies on regex's Regex::replace_all: removes every non-overlapping
/// match of the color-escape pattern (an escape character, an opening
/// bracket, digits or semicolons, and the letter m), leaving text without
/// escape characters untouched and never growing the text.
#[verifier::external_body]
pub(crate) fn strip_ansi_codes(s: &str) -> (r: String)
    ensures
        r@ == ansi_stripped(s@),
        r@.len() <= s@.len(),
        (forall|i: int| 0 <= i < s@.len() ==> s@[i] != '\u{1b}') ==> r@ == s@,
{
    let pattern = regex::Regex::new("\u{1b}\\[[0-9;]*m").unwrap();
    pattern.replace_all(s, "").into_owned()
}

/// The number of characters a piece of text occupies on screen: its length
/// once color escapes are removed.
pub fn visible_length(s: &str) -> (r: usize)
    ensures
        r == ansi_stripped(s@).len(),
{
    let stripped = strip_ansi_codes(s);
    stripped.as_str().unicode_len()
}

/// Relies on terminal_size's terminal_size: the terminal's dimensions, when
/// they can be read. The result depends on the environment, so nothing more
/// is promised of it.
#[verifier::external_body]
pub(crate) fn terminal_width() -> (r: Option<u16>)
{
    match terminal_size::terminal_size() {
        Some((terminal_size::Width(w), _)) => Some(w),
        None => None,
    }
}

/// A run of `n` copies of one character.
pub open spec fn spec_char_run(c: char, n: int) -> Seq<char> {
    Seq::new(if n >= 0 {
        n as nat
    } else {
        0
    }, |i: int| c)
}

/// The lines of a text, as the box renderer stacks them: pieces split at
/// newlines, a trailing empty piece dropped.
pub open spec fn spec_lines_raw(s: Seq<char>) -> Seq<Seq<char>>
    decreases s.len(),
{
    if s.len() == 0 {
        seq![Seq::<char>::empty()]
    } else if s.last() == '\n' {
        spec_lines_raw(s.drop_last()).push(Seq::empty())
    } else {
        let rest = spec_lines_raw(s.drop_last());
        rest.update(rest.len() - 1, rest.last().push(s.last()))
    }
}

/// The lines of a text: split at newlines, without a trailing empty line.
pub open spec fn spec_lines(s: Seq<char>) -> Seq<Seq<char>> {
    let raw = spec_lines_raw(s);
    if raw.last().len() == 0 {
        raw.drop_last()
    } else {
        raw
    }
}

/// `spec_lines_raw` always produces at least one piece.
pub proof fn lemma_lines_raw_nonempty(s: Seq<char>)
    ensures
        spec_lines_raw(s).len() >= 1,
    decreases s.len(),
{
    if s.len() > 0 {
        lemma_lines_raw_nonempty(s.drop_last());
    }
}

/// Splits a text into its lines.
pub fn split_lines(s: &str) -> (r: Vec<String>)
    ensures
        crate::strutil::strings_view(r@) == spec_lines(s@),
{
    let n = s.unicode_len();
    let mut pieces: Vec<String> = Vec::new();
    let mut current = String::new();
    let mut i: usize = 0;
    while i < n
        invariant
            n == s@.len(),
            0 <= i <= n,
            spec_lines_raw(s@.subrange(0, i as int)) == crate::strutil::strings_view(
                pieces@,
            ).push(current@),
        decreases n - i,
    {
        let c = s.get_char(i);
        proof {
            assert(s@.subrange(0, i + 1).drop_last() =~= s@.subrange(0, i as int));
            lemma_lines_raw_nonempty(s@.subrange(0, i as int));
        }
        if c == '\n' {
            pieces.push(current);
            current = String::new();
            proof {
                assert(crate::strutil::strings_view(pieces@) =~= crate::strutil::strings_view(
                    pieces@.drop_last(),
                ).push(pieces@.last()@));
                assert(spec_lines_raw(s@.subrange(0, i + 1)) =~= crate::strutil::strings_view(
                    pieces@,
                ).push(current@));
            }
        } else {
            push_char(&mut current, c);
            proof {
                assert(spec_lines_raw(s@.subrange(0, i + 1)) =~= crate::strutil::strings_view(
                    pieces@,
                ).push(current@));
            }
        }
        i = i + 1;
    }
    proof {
        assert(s@.subrange(0, n as int) =~= s@);
    }
    if current.as_str().unicode_len() > 0 {
        pieces.push(current);
        proof {
            assert(crate::strutil::strings_view(pieces@) =~= crate::strutil::strings_view(
                pieces@.drop_last(),
            ).push(pieces@.last()@));
        }
    } else {
        proof {
            assert(crate::strutil::strings_view(pieces@) =~= crate::strutil::strings_view(
                pieces@,
            ).push(current@).drop_last());
        }
    }
    pieces
}

/// The length of the longest line.
pub open spec fn spec_max_len(lines: Seq<Seq<char>>) -> int
    decreases lines.len(),
{
    if lines.len() == 0 {
        0
    } else {
        let rest = spec_max_len(lines.drop_last());
        if lines.last().len() > rest {
            lines.last().len() as int
        } else {
            rest
        }
    }
}

/// The columns available for text inside a box on a terminal `tw` columns
/// wide: the width less the borders and padding, and at least one.
pub open spec fn spec_avail(tw: int) -> int {
    if tw >= 5 {
        tw - 4
    } else {
        1
    }
}

/// The width box text is wrapped to: the longest line, bounded by what the
/// terminal offers, and at least one column.
pub open spec fn spec_wrap_width(lines: Seq<Seq<char>>, tw: int) -> int {
    let m = if spec_max_len(lines) <= spec_avail(tw) {
        spec_max_len(lines)
    } else {
        spec_avail(tw)
    };
    if m >= 1 {
        m
    } else {
        1
    }
}

/// A line cut into pieces of at most `w` characters; an empty line has no
/// pieces.
pub open spec fn spec_chunks(s: Seq<char>, w: int) -> Seq<Seq<char>>
    decreases s.len(),
{
    if w < 1 || s.len() == 0 {
        Seq::empty()
    } else if s.len() <= w {
        seq![s]
    } else {
        seq![s.subrange(0, w)] + spec_chunks(s.skip(w), w)
    }
}

/// Every line cut into pieces of at most `w` characters, in order.
pub open spec fn spec_wrapped(lines: Seq<Seq<char>>, w: int) -> Seq<Seq<char>>
    decreases lines.len(),
{
    if lines.len() == 0 {
        Seq::empty()
    } else {
        spec_wrapped(lines.drop_last(), w) + spec_chunks(lines.last(), w)
    }
}

/// The box's vertical border: a bar, colored when the box is.
pub open spec fn spec_vertical(color: Option<AnsiColor>) -> Seq<char> {
    match color {
        Some(c) => spec_colorize(seq!['│'], c),
        None => seq!['│'],
    }
}

/// A difference that stops at zero.
pub open spec fn spec_sat_sub(a: int, b: int) -> int {
    if a >= b {
        a - b
    } else {
        0
    }
}

/// The box's top rule: when there is a title it is centered between dashes
/// with one space each side, otherwise dashes span the whole width.
pub open spec fn spec_title_segment(title: Option<Seq<char>>, inner: int) -> Seq<char> {
    match title {
        None => spec_char_run('\u{2500}', inner + 2),
        Some(t) => {
            let total = inner + 2;
            let tp = spec_sat_sub(total, t.len() as int) / 2;
            spec_char_run('\u{2500}', spec_sat_sub(tp, 2)) + seq![' '] + t + seq![' ']
                + spec_char_run(
                '\u{2500}',
                spec_sat_sub(spec_sat_sub(total, t.len() + tp), 2),
            )
        },
    }
}

/// One text line of the box: the line between the vertical borders, padded
/// to the inner width by its on-screen length — centered, or flush left.
pub open spec fn spec_boxed_line(
    line: Seq<char>,
    inner: int,
    center: bool,
    color: Option<AnsiColor>,
) -> Seq<char> {
    let visible = ansi_stripped(line).len() as int;
    let vert = spec_vertical(color);
    if center {
        let lp = spec_sat_sub(inner, visible);
        let left = lp / 2;
        let right = lp - left;
        vert + spec_char_run(' ', left) + line + spec_char_run(' ', right) + vert
    } else {
        vert + line + spec_char_run(' ', spec_sat_sub(inner, visible)) + vert
    }
}

/// The box's text lines, each on its own row.
pub open spec fn spec_boxed_lines(
    lines: Seq<Seq<char>>,
    inner: int,
    center: bool,
    color: Option<AnsiColor>,
) -> Seq<Seq<char>>
    decreases lines.len(),
{
    if lines.len() == 0 {
        Seq::empty()
    } else {
        spec_boxed_lines(lines.drop_last(), inner, center, color).push(
            spec_boxed_line(lines.last(), inner, center, color),
        )
    }
}

/// Rows joined with newlines between them.
pub open spec fn spec_joined(rows: Seq<Seq<char>>) -> Seq<char>
    decreases rows.len(),
{
    if rows.len() == 0 {
        Seq::empty()
    } else if rows.len() == 1 {
        rows[0]
    } else {
        spec_joined(rows.drop_last()) + seq!['\n'] + rows.last()
    }
}

/// The whole box for a terminal `tw` columns wide: the top rule between
/// rounded corners (colored when the box is), an empty padding row, the
/// wrapped text lines, another padding row, and the bottom rule.
pub open spec fn spec_render_box(
    text: Seq<char>,
    title: Option<Seq<char>>,
    color: Option<AnsiColor>,
    center: bool,
    tw: int,
) -> Seq<char> {
    let lines = spec_lines(text);
    let w = spec_wrap_width(lines, tw);
    let inner = w + 2;
    let wrapped = spec_wrapped(lines, w);
    let top_plain = seq!['\u{256d}'] + spec_title_segment(title, inner) + seq!['\u{256e}'];
    let bottom_plain = seq!['\u{2570}'] + spec_char_run('\u{2500}', inner) + seq!['\u{256f}'];
    let top = match color {
        Some(c) => spec_colorize(top_plain, c),
        None => top_plain,
    };
    let bottom = match color {
        Some(c) => spec_colorize(bottom_plain, c),
        None => bottom_plain,
    };
    let pad = spec_vertical(color) + spec_char_run(' ', inner) + spec_vertical(color);
    let body = spec_joined(spec_boxed_lines(wrapped, inner, center, color));
    top + seq!['\n'] + pad + seq!['\n'] + body + seq!['\n'] + pad + seq!['\n'] + bottom
}

/// A framed block of text with rounded corners: the text, an optional
/// centered title, an optional border color, and whether the text is
/// centered.
#[derive(Debug)]
pub struct RoundedBox {
    pub text: String,
    pub title: Option<String>,
    pub color: Option<AnsiColor>,
    pub center: bool,
}

/// The view of an optional string.
pub open spec fn opt_str_view(s: Option<String>) -> Option<Seq<char>> {
    match s {
        Some(x) => Some(x@),
        None => None,
    }
}

impl RoundedBox {
    /// A box over the given text, title, color and alignment.
    pub fn new(text: &str, title: Option<&str>, color: Option<AnsiColor>, center: bool) -> (r:
        RoundedBox)
        ensures
            r.text@ == text@,
            opt_str_view(r.title) == (match title {
                Some(t) => Some(t@),
                None => None::<Seq<char>>,
            }),
            r.color == color,
            r.center == center,
    {
        RoundedBox {
            text: text.to_owned(),
            title: match title {
                Some(t) => Some(t.to_owned()),
                None => None,
            },
            color,
            center,
        }
    }

    /// The box rendered for a terminal of the given width.
    #[verifier::rlimit(100)]
    pub fn render_with_width(&self, tw: u16) -> (r: String)
        ensures
            r@ == spec_render_box(
                self.text@,
                opt_str_view(self.title),
                self.color,
                self.center,
                tw as int,
            ),
    {
        let lines = split_lines(self.text.as_str());
        let max_len = max_line_len(&lines);
        let avail: usize = if tw >= 5 {
            (tw - 4) as usize
        } else {
            1
        };
        let mut w: usize = if max_len <= avail {
            max_len
        } else {
            avail
        };
        if w < 1 {
            w = 1;
        }
        proof {
            assert(w as int == spec_wrap_width(crate::strutil::strings_view(lines@), tw as int));
        }
        let inner = w + 2;
        let wrapped = wrap_all(&lines, w);
        let vertical: String = match self.color {
            Some(c) => colorize_text("\u{2502}", c),
            None => String::from_str("\u{2502}"),
        };
        proof {
            reveal_strlit("\u{2502}");
            assert("\u{2502}"@ =~= seq!['\u{2502}']);
        }
        let ghost lines_s = spec_lines(self.text@);
        let ghost inner_s = spec_wrap_width(lines_s, tw as int) + 2;
        let ghost top_plain = seq!['\u{256d}'] + spec_title_segment(
            opt_str_view(self.title),
            inner_s,
        ) + seq!['\u{256e}'];
        let ghost bottom_plain = seq!['\u{2570}'] + spec_char_run('\u{2500}', inner_s)
            + seq!['\u{256f}'];
        let title_segment = make_title_segment(&self.title, inner);
        let mut top = String::new();
        crate::strutil::push_char(&mut top, '\u{256d}');
        top.append(title_segment.as_str());
        crate::strutil::push_char(&mut top, '\u{256e}');
        let mut bottom = String::new();
        crate::strutil::push_char(&mut bottom, '\u{2570}');
        let rule = crate::strutil::repeat_char('\u{2500}', inner);
        bottom.append(rule.as_str());
        crate::strutil::push_char(&mut bottom, '\u{256f}');
        proof {
            assert(top@ =~= top_plain);
            assert(bottom@ =~= bottom_plain);
        }
        let top_final: String = match self.color {
            Some(c) => colorize_text(top.as_str(), c),
            None => top,
        };
        let bottom_final: String = match self.color {
            Some(c) => colorize_text(bottom.as_str(), c),
            None => bottom,
        };
        let ghost top_s = top_final@;
        let ghost bottom_s = bottom_final@;
        let mut pad = vertical.clone();
        let pad_spaces = crate::strutil::repeat_char(' ', inner);
        pad.append(pad_spaces.as_str());
        pad.append(vertical.as_str());
        proof {
            assert(pad@ =~= spec_vertical(self.color) + spec_char_run(' ', inner_s)
                + spec_vertical(self.color));
        }
        let body = boxed_body(&wrapped, inner, self.center, self.color, &vertical);
        let ghost body_s = body@;
        let ghost pad_s = pad@;
        let mut out = top_final;
        crate::strutil::push_char(&mut out, '\n');
        out.append(pad.as_str());
        crate::strutil::push_char(&mut out, '\n');
        out.append(body.as_str());
        crate::strutil::push_char(&mut out, '\n');
        out.append(pad.as_str());
        crate::strutil::push_char(&mut out, '\n');
        out.append(bottom_final.as_str());
        proof {
            assert(out@ =~= top_s + seq!['\n'] + pad_s + seq!['\n'] + body_s + seq!['\n'] + pad_s
                + seq!['\n'] + bottom_s);
            assert(spec_render_box(
                self.text@,
                opt_str_view(self.title),
                self.color,
                self.center,
                tw as int,
            ) == top_s + seq!['\n'] + pad_s + seq!['\n'] + body_s + seq!['\n'] + pad_s
                + seq!['\n'] + bottom_s);
        }
        out
    }

    /// The box rendered for the terminal at hand: its width where it can be
    /// read, eighty columns otherwise.
    pub fn render(&self) -> (r: String)
        ensures
            exists|tw: int|
                1 <= tw <= u16::MAX && r@ == spec_render_box(
                    self.text@,
                    opt_str_view(self.title),
                    self.color,
                    self.center,
                    tw,
                ),
    {
        let tw: u16 = match terminal_width() {
            Some(x) => if x >= 1 {
                x
            } else {
                1
            },
            None => 80,
        };
        let r = self.render_with_width(tw);
        proof {
            assert(1 <= tw as int <= u16::MAX);
        }
        r
    }
}


/// The length of the longest of the given lines.
fn max_line_len(lines: &Vec<String>) -> (r: usize)
    ensures
        r as int == spec_max_len(crate::strutil::strings_view(lines@)),
{
    let nl = lines.len();
    let mut max_len: usize = 0;
    let mut i: usize = 0;
    while i < nl
        invariant
            nl == lines@.len(),
            0 <= i <= nl,
            max_len == spec_max_len(crate::strutil::strings_view(lines@).subrange(0, i as int)),
        decreases nl - i,
    {
        proof {
            assert(crate::strutil::strings_view(lines@).subrange(0, i + 1).drop_last()
                =~= crate::strutil::strings_view(lines@).subrange(0, i as int));
        }
        let ll = lines[i].as_str().unicode_len();
        if ll > max_len {
            max_len = ll;
        }
        i = i + 1;
    }
    proof {
        assert(crate::strutil::strings_view(lines@).subrange(0, nl as int)
            =~= crate::strutil::strings_view(lines@));
    }
    max_len
}

/// Cuts every line into pieces of at most `w` characters.
fn wrap_all(lines: &Vec<String>, w: usize) -> (r: Vec<String>)
    requires
        w >= 1,
    ensures
        crate::strutil::strings_view(r@) == spec_wrapped(
            crate::strutil::strings_view(lines@),
            w as int,
        ),
{
    let nl = lines.len();
    let mut wrapped: Vec<String> = Vec::new();
    let mut i: usize = 0;
    while i < nl
        invariant
            nl == lines@.len(),
            0 <= i <= nl,
            w >= 1,
            crate::strutil::strings_view(wrapped@) == spec_wrapped(
                crate::strutil::strings_view(lines@).subrange(0, i as int),
                w as int,
            ),
        decreases nl - i,
    {
        proof {
            assert(crate::strutil::strings_view(lines@).subrange(0, i + 1).drop_last()
                =~= crate::strutil::strings_view(lines@).subrange(0, i as int));
        }
        let line = &lines[i];
        let ln = line.as_str().unicode_len();
        let ghost base = crate::strutil::strings_view(wrapped@);
        let mut pos: usize = 0;
        proof {
            assert(line@.skip(0) =~= line@);
        }
        while pos < ln
            invariant
                line@ == lines@[i as int]@,
                ln == line@.len(),
                0 <= pos <= ln,
                w >= 1,
                crate::strutil::strings_view(wrapped@) + spec_chunks(
                    line@.skip(pos as int),
                    w as int,
                ) == base + spec_chunks(line@, w as int),
            decreases ln - pos,
        {
            let remaining = ln - pos;
            let upto = if remaining <= w {
                ln
            } else {
                pos + w
            };
            let piece = line.as_str().substring_char(pos, upto).to_owned();
            proof {
                if remaining <= w {
                    assert(line@.skip(pos as int) =~= line@.subrange(pos as int, ln as int));
                    assert(spec_chunks(line@.skip(pos as int), w as int) =~= seq![
                        line@.subrange(pos as int, upto as int),
                    ]);
                } else {
                    assert(line@.skip(pos as int).subrange(0, w as int) =~= line@.subrange(
                        pos as int,
                        upto as int,
                    ));
                    assert(line@.skip(pos as int).skip(w as int) =~= line@.skip(upto as int));
                    assert(spec_chunks(line@.skip(pos as int), w as int) =~= seq![
                        line@.subrange(pos as int, upto as int),
                    ] + spec_chunks(line@.skip(upto as int), w as int));
                }
            }
            wrapped.push(piece);
            proof {
                assert(crate::strutil::strings_view(wrapped@) =~= crate::strutil::strings_view(
                    wrapped@.drop_last(),
                ).push(wrapped@.last()@));
                assert(crate::strutil::strings_view(wrapped@) + spec_chunks(
                    line@.skip(upto as int),
                    w as int,
                ) =~= base + spec_chunks(line@, w as int));
            }
            pos = upto;
        }
        proof {
            assert(line@.skip(ln as int) =~= Seq::<char>::empty());
            if pos == ln {
                assert(spec_chunks(line@.skip(pos as int), w as int) =~= Seq::<Seq<char>>::empty());
            }
            assert(crate::strutil::strings_view(wrapped@) =~= base + spec_chunks(
                line@,
                w as int,
            ));
            assert(crate::strutil::strings_view(wrapped@) =~= spec_wrapped(
                crate::strutil::strings_view(lines@).subrange(0, i + 1),
                w as int,
            ));
        }
        i = i + 1;
    }
    proof {
        assert(crate::strutil::strings_view(lines@).subrange(0, nl as int)
            =~= crate::strutil::strings_view(lines@));
    }
    wrapped
}

/// Builds the top rule's middle part.
fn make_title_segment(title: &Option<String>, inner: usize) -> (r: String)
    requires
        inner + 2 <= usize::MAX,
    ensures
        r@ == spec_title_segment(opt_str_view(*title), inner as int),
{
    match title {
        None => crate::strutil::repeat_char('\u{2500}', inner + 2),
        Some(t) => {
            let tlen = t.as_str().unicode_len();
            let total = inner + 2;
            let tp = if total >= tlen {
                (total - tlen) / 2
            } else {
                0
            };
            let left_n = if tp >= 2 {
                tp - 2
            } else {
                0
            };
            let right_inner = if total >= tlen + tp {
                total - tlen - tp
            } else {
                0
            };
            let right_n = if right_inner >= 2 {
                right_inner - 2
            } else {
                0
            };
            let mut seg = crate::strutil::repeat_char('\u{2500}', left_n);
            crate::strutil::push_char(&mut seg, ' ');
            seg.append(t.as_str());
            crate::strutil::push_char(&mut seg, ' ');
            let tail = crate::strutil::repeat_char('\u{2500}', right_n);
            seg.append(tail.as_str());
            proof {
                assert(seg@ =~= spec_title_segment(opt_str_view(*title), inner as int));
            }
            seg
        },
    }
}

/// Builds the box's text rows, joined with newlines.
fn boxed_body(
    wrapped: &Vec<String>,
    inner: usize,
    center: bool,
    color: Option<AnsiColor>,
    vertical: &String,
) -> (r: String)
    requires
        vertical@ == spec_vertical(color),
    ensures
        r@ == spec_joined(
            spec_boxed_lines(
                crate::strutil::strings_view(wrapped@),
                inner as int,
                center,
                color,
            ),
        ),
{
    let nw = wrapped.len();
    let mut body = String::new();
    let mut i: usize = 0;
    while i < nw
        invariant
            nw == wrapped@.len(),
            0 <= i <= nw,
            vertical@ == spec_vertical(color),
            body@ == spec_joined(
                spec_boxed_lines(
                    crate::strutil::strings_view(wrapped@).subrange(0, i as int),
                    inner as int,
                    center,
                    color,
                ),
            ),
        decreases nw - i,
    {
        proof {
            assert(crate::strutil::strings_view(wrapped@).subrange(0, i + 1).drop_last()
                =~= crate::strutil::strings_view(wrapped@).subrange(0, i as int));
        }
        let line = &wrapped[i];
        let visible = visible_length(line.as_str());
        let mut row = vertical.clone();
        if center {
            let lp = if inner >= visible {
                inner - visible
            } else {
                0
            };
            let left = lp / 2;
            let right = lp - left;
            let ls = crate::strutil::repeat_char(' ', left);
            row.append(ls.as_str());
            row.append(line.as_str());
            let rs = crate::strutil::repeat_char(' ', right);
            row.append(rs.as_str());
        } else {
            row.append(line.as_str());
            let pad_n = if inner >= visible {
                inner - visible
            } else {
                0
            };
            let rs = crate::strutil::repeat_char(' ', pad_n);
            row.append(rs.as_str());
        }
        row.append(vertical.as_str());
        proof {
            assert(row@ =~= spec_boxed_line(wrapped@[i as int]@, inner as int, center, color));
        }
        if i > 0 {
            crate::strutil::push_char(&mut body, '\n');
        }
        body.append(row.as_str());
        proof {
            let rows = spec_boxed_lines(
                crate::strutil::strings_view(wrapped@).subrange(0, i + 1),
                inner as int,
                center,
                color,
            );
            assert(rows.drop_last() =~= spec_boxed_lines(
                crate::strutil::strings_view(wrapped@).subrange(0, i as int),
                inner as int,
                center,
                color,
            ));
            assert(body@ =~= spec_joined(rows));
        }
        i = i + 1;
    }
    proof {
        assert(crate::strutil::strings_view(wrapped@).subrange(0, nw as int)
            =~= crate::strutil::strings_view(wrapped@));
    }
    body
}

/// A string holding `text` followed by a newline.
pub fn line(text: &str) -> (r: String)
    ensures
        r@ == text@ + "\n"@,
{
    let mut out = String::from_str(text);
    out.append("\n");
    out
}

/// Appends `text` and a newline to `out`.
pub fn push_line(out: &mut String, text: &str)
    ensures
        final(out)@ == old(out)@ + text@ + "\n"@,
{
    out.append(text);
    push_char(out, '\n');
    proof {
        reveal_strlit("\n");
        assert(old(out)@ + text@ + "\n"@ =~= (old(out)@ + text@).push('\n'));
    }
}

} // verus!
