use vstd::prelude::*;
use vstd::std_specs::iter::IteratorSpec;

verus! {

/// Red foreground.
pub const COLOR_RED: &'static str = "\x1b[31m";

/// Green foreground.
pub const COLOR_GREEN: &'static str = "\x1b[32m";

/// Yellow foreground.
pub const COLOR_YELLOW: &'static str = "\x1b[33m";

/// Cyan foreground.
pub const COLOR_CYAN: &'static str = "\x1b[36m";

/// Bold text.
pub const COLOR_BOLD: &'static str = "\x1b[1m";

/// Dim text.
pub const COLOR_DIM: &'static str = "\x1b[2m";

/// Back to the terminal's default style.
pub const COLOR_RESET: &'static str = "\x1b[0m";

/// Total width of a box, borders included.
pub const BOX_WIDTH: usize = 60;

/// Width of the text area inside a box: the borders `| ` and ` |` take four
/// columns.
pub const BOX_INTERIOR: usize = BOX_WIDTH - 4;

/// Number of frames the loading spinner shows.
pub const LOADING_FRAMES: usize = 8;

/// Milliseconds between two spinner frames.
pub const LOADING_INTERVAL_MS: u64 = 100;

/// Marker in front of a success message.
pub const SUCCESS_MARK: &'static str = "[+]";

/// Marker in front of an error message.
pub const ERROR_MARK: &'static str = "[-]";

/// Heading shown above every screen.
pub const MENU_HEADING: &'static str = "[*] Git Snapshot ";

/// Text of the prompt shown before the program ends.
pub const EXIT_PROMPT: &'static str = "> Press Enter to exit...";

/// Text of the question asked before a repository is created.
pub const INIT_QUESTION: &'static str = " Initialize new repository? [y/N]: ";

/// `s` followed by spaces up to `width` characters; `s` unchanged when it
/// already has `width` characters or more.
pub open spec fn padded_right(s: Seq<char>, width: nat) -> Seq<char> {
    if s.len() >= width {
        s
    } else {
        s + Seq::new((width - s.len()) as nat, |i: int| ' ')
    }
}

/// `n` copies of the character `c`.
pub open spec fn repeated(c: char, n: nat) -> Seq<char> {
    Seq::new(n, |i: int| c)
}

/// A horizontal border line of a box, newline included.
pub open spec fn border_line() -> Seq<char> {
    seq!['+', '-'] + repeated('-', BOX_INTERIOR as nat) + seq!['-', '+', '\n']
}

/// A text line of a box, newline included.
pub open spec fn text_line(s: Seq<char>) -> Seq<char> {
    seq!['|', ' '] + padded_right(s, BOX_INTERIOR as nat) + seq![' ', '|', '\n']
}

/// The whole box: a blank line, the colour, then the title and the content
/// framed by borders, then the reset code and a closing blank line.
pub open spec fn box_text(title: Seq<char>, content: Seq<char>, color: Seq<char>) -> Seq<char> {
    seq!['\n'] + color + seq!['\n'] + border_line() + text_line(title) + border_line()
        + text_line(content) + border_line() + COLOR_RESET@ + seq!['\n']
}

/// A status line: a blank line, the marker in `color` and bold, then the
/// message.
pub open spec fn status_text(color: Seq<char>, mark: Seq<char>, message: Seq<char>) -> Seq<
    char,
> {
    seq!['\n'] + color + COLOR_BOLD@ + mark + COLOR_RESET@ + seq![' '] + message + seq!['\n']
}

/// The screen header: the heading in cyan and bold, then the title dimmed.
pub open spec fn menu_text(title: Seq<char>) -> Seq<char> {
    seq!['\n'] + COLOR_CYAN@ + COLOR_BOLD@ + MENU_HEADING@ + COLOR_RESET@ + seq!['\n']
        + COLOR_DIM@ + title + COLOR_RESET@ + seq!['\n', '\n']
}

/// The spinner glyph of frame `i`: the four glyphs `-`, `\`, `|`, `/` in turn.
pub open spec fn spinner_glyph(i: nat) -> char {
    seq!['-', '\\', '|', '/'][(i % 4) as int]
}

/// Frame `i` of the loading line, ending in a carriage return so that the
/// next frame overwrites it.
pub open spec fn loading_text(message: Seq<char>, i: nat) -> Seq<char> {
    COLOR_CYAN@ + seq![spinner_glyph(i), ' '] + message + COLOR_RESET@ + seq!['\r']
}

/// A title or content line shorter than the interior width is padded with
/// spaces to exactly that width, so that the line is as wide as the box;
/// longer text is kept whole.
pub proof fn short_text_fills_the_box(s: Seq<char>)
    ensures
        s.len() <= BOX_INTERIOR ==> padded_right(s, BOX_INTERIOR as nat) == s + repeated(
            ' ',
            (BOX_INTERIOR - s.len()) as nat,
        ),
        s.len() <= BOX_INTERIOR ==> padded_right(s, BOX_INTERIOR as nat).len() == BOX_INTERIOR,
        s.len() <= BOX_INTERIOR ==> text_line(s).len() == BOX_WIDTH + 1,
        s.len() > BOX_INTERIOR ==> padded_right(s, BOX_INTERIOR as nat) == s,
        border_line().len() == BOX_WIDTH + 1,
{
    if s.len() <= BOX_INTERIOR {
        assert(padded_right(s, BOX_INTERIOR as nat) =~= s + repeated(
            ' ',
            (BOX_INTERIOR - s.len()) as nat,
        ));
    }
}

/// `min(s.len(), bound)`, counted over the characters of `s`.
fn char_count_capped(s: &str, bound: usize) -> (r: usize)
    ensures
        r as int == if s@.len() < bound { s@.len() as int } else { bound as int },
{
    let mut n: usize = 0;
    let mut chars = s.chars();
    proof {
        broadcast use vstd::string::axiom_spec_iter;
    }
    let ghost seen: nat = 0;
    while n < bound
        invariant
            n <= bound,
            n == seen,
            seen <= s@.len(),
            chars.obeys_prophetic_iter_laws(),
            chars.remaining() == s@.skip(seen as int),
        decreases bound - n,
    {
        let next = chars.next();
        proof {
            broadcast use vstd::string::next_postcondition;
        }
        match next {
            Some(_) => {
                n = n + 1;
                proof {
                    seen = seen + 1;
                    assert(chars.remaining() =~= s@.skip(seen as int));
                }
            },
            None => {
                assert(s@.skip(seen as int).len() == 0);
                return n;
            },
        }
    }
    n
}

/// Appends `n` copies of the one-character string `unit`.
fn push_repeated(out: &mut String, unit: &str, n: usize)
    requires
        unit@.len() == 1,
    ensures
        final(out)@ == old(out)@ + repeated(unit@[0], n as nat),
{
    let ghost start = out@;
    let mut k: usize = 0;
    while k < n
        invariant
            k <= n,
            unit@.len() == 1,
            out@ == start + repeated(unit@[0], k as nat),
        decreases n - k,
    {
        out.append(unit);
        k = k + 1;
        assert(out@ =~= start + repeated(unit@[0], k as nat));
    }
}

/// `s` padded on the right with spaces to `width` characters, as the
/// left-aligned `{:<width}` format does; longer text is kept whole.
pub fn pad_right(s: &str, width: usize) -> (r: String)
    ensures
        r@ == padded_right(s@, width as nat),
{
    proof {
        reveal_strlit(" ");
    }
    let n = char_count_capped(s, width);
    let mut out = String::from_str(s);
    push_repeated(&mut out, " ", width - n);
    assert(out@ =~= padded_right(s@, width as nat));
    out
}

fn push_border(out: &mut String)
    ensures
        final(out)@ == old(out)@ + border_line(),
{
    proof {
        reveal_strlit("+-");
        reveal_strlit("-");
        reveal_strlit("-+\n");
    }
    out.append("+-");
    push_repeated(out, "-", BOX_INTERIOR);
    out.append("-+\n");
    assert(final(out)@ =~= old(out)@ + border_line());
}

fn push_text_line(out: &mut String, s: &str)
    ensures
        final(out)@ == old(out)@ + text_line(s@),
{
    proof {
        reveal_strlit("| ");
        reveal_strlit(" |\n");
    }
    out.append("| ");
    let padded = pad_right(s, BOX_INTERIOR);
    out.append(padded.as_str());
    out.append(" |\n");
    assert(final(out)@ =~= old(out)@ + text_line(s@));
}

/// The bordered box that shows `title` above `content`, drawn in `color`.
/// Text shorter than the interior width is padded with spaces to exactly that
/// width; longer text is kept whole and pushes the right border out.
pub fn render_box(title: &str, content: &str, color: &str) -> (r: String)
    ensures
        r@ == box_text(title@, content@, color@),
{
    proof {
        reveal_strlit("\n");
    }
    let mut out = String::from_str("\n");
    out.append(color);
    out.append("\n");
    push_border(&mut out);
    push_text_line(&mut out, title);
    push_border(&mut out);
    push_text_line(&mut out, content);
    push_border(&mut out);
    out.append(COLOR_RESET);
    out.append("\n");
    assert(out@ =~= box_text(title@, content@, color@));
    out
}

fn render_status(color: &str, mark: &str, message: &str) -> (r: String)
    ensures
        r@ == status_text(color@, mark@, message@),
{
    proof {
        reveal_strlit("\n");
        reveal_strlit(" ");
    }
    let mut out = String::from_str("\n");
    out.append(color);
    out.append(COLOR_BOLD);
    out.append(mark);
    out.append(COLOR_RESET);
    out.append(" ");
    out.append(message);
    out.append("\n");
    assert(out@ =~= status_text(color@, mark@, message@));
    out
}

/// A success line: `[+]` in bold green, then the message.
pub fn render_success(message: &str) -> (r: String)
    ensures
        r@ == status_text(COLOR_GREEN@, SUCCESS_MARK@, message@),
{
    render_status(COLOR_GREEN, SUCCESS_MARK, message)
}

/// An error line: `[-]` in bold red, then the message.
pub fn render_error(message: &str) -> (r: String)
    ensures
        r@ == status_text(COLOR_RED@, ERROR_MARK@, message@),
{
    render_status(COLOR_RED, ERROR_MARK, message)
}

/// The header printed after the screen is cleared: the tool's heading, then
/// `title` dimmed.
pub fn render_menu(title: &str) -> (r: String)
    ensures
        r@ == menu_text(title@),
{
    proof {
        reveal_strlit("\n");
        reveal_strlit("\n\n");
    }
    let mut out = String::from_str("\n");
    out.append(COLOR_CYAN);
    out.append(COLOR_BOLD);
    out.append(MENU_HEADING);
    out.append(COLOR_RESET);
    out.append("\n");
    out.append(COLOR_DIM);
    out.append(title);
    out.append(COLOR_RESET);
    out.append("\n\n");
    assert(out@ =~= menu_text(title@));
    out
}

/// The spinner glyph of frame `i`.
pub fn spinner_glyph_str(i: usize) -> (r: &'static str)
    ensures
        r@ == seq![spinner_glyph(i as nat)],
{
    proof {
        reveal_strlit("-");
        reveal_strlit("\\");
        reveal_strlit("|");
        reveal_strlit("/");
    }
    let k = i % 4;
    if k == 0 {
        "-"
    } else if k == 1 {
        "\\"
    } else if k == 2 {
        "|"
    } else {
        "/"
    }
}

/// Frame `i` of the loading line for `message`.
pub fn render_loading_frame(message: &str, i: usize) -> (r: String)
    ensures
        r@ == loading_text(message@, i as nat),
{
    proof {
        reveal_strlit(" ");
        reveal_strlit("\r");
    }
    let mut out = String::from_str(COLOR_CYAN);
    out.append(spinner_glyph_str(i));
    out.append(" ");
    out.append(message);
    out.append(COLOR_RESET);
    out.append("\r");
    assert(out@ =~= loading_text(message@, i as nat));
    out
}

/// The dimmed prompt shown before the program waits for Enter and ends.
pub fn render_exit_prompt() -> (r: String)
    ensures
        r@ == seq!['\n'] + COLOR_DIM@ + EXIT_PROMPT@ + COLOR_RESET@ + seq!['\n'],
{
    proof {
        reveal_strlit("\n");
    }
    let mut out = String::from_str("\n");
    out.append(COLOR_DIM);
    out.append(EXIT_PROMPT);
    out.append(COLOR_RESET);
    out.append("\n");
    assert(out@ =~= seq!['\n'] + COLOR_DIM@ + EXIT_PROMPT@ + COLOR_RESET@ + seq!['\n']);
    out
}

/// The question asked before a repository is created, with a cyan `>` in
/// front and no line break after it.
pub fn render_init_prompt() -> (r: String)
    ensures
        r@ == seq!['\n'] + COLOR_CYAN@ + seq!['>'] + COLOR_RESET@ + INIT_QUESTION@,
{
    proof {
        reveal_strlit("\n");
        reveal_strlit(">");
    }
    let mut out = String::from_str("\n");
    out.append(COLOR_CYAN);
    out.append(">");
    out.append(COLOR_RESET);
    out.append(INIT_QUESTION);
    assert(out@ =~= seq!['\n'] + COLOR_CYAN@ + seq!['>'] + COLOR_RESET@ + INIT_QUESTION@);
    out
}

} // verus!
