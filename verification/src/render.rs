//! Layout rules of the terminal front end: numbers with separators, the
//! width of a line on screen, and the padding that fills a box.

use vstd::prelude::*;
use vstd::string::StringExecFns;
use crate::paths::byte_len;
use crate::text::chars_of;
use crate::text::decimal;
use crate::text::digit_char;
use crate::text::push_char;
use crate::text::push_decimal;
use crate::text::str_eq;

verus! {

/// The three digits of a number below a thousand, with leading zeros.
pub open spec fn three_digits(n: nat) -> Seq<char> {
    seq![digit_char(n / 100), digit_char(n / 10 % 10), digit_char(n % 10)]
}

/// The decimal numeral of `n` with a comma before every group of three
/// digits, counted from the right.
pub open spec fn grouped(n: nat) -> Seq<char>
    decreases n,
{
    if n < 1000 {
        decimal(n)
    } else {
        grouped(n / 1000) + seq![','] + three_digits(n % 1000)
    }
}

fn push_grouped(out: &mut String, n: u64)
    ensures
        final(out)@ == old(out)@ + grouped(n as nat),
    decreases n,
{
    if n < 1000 {
        push_decimal(out, n);
    } else {
        push_grouped(out, n / 1000);
        let low = n % 1000;
        push_char(out, ',');
        push_decimal(out, low / 100);
        push_decimal(out, low / 10 % 10);
        push_decimal(out, low % 10);
        assert(decimal((low / 100) as nat) == seq![digit_char((low / 100) as nat)]);
        assert(decimal((low / 10 % 10) as nat) == seq![digit_char((low / 10 % 10) as nat)]);
        assert(decimal((low % 10) as nat) == seq![digit_char((low % 10) as nat)]);
        assert(out@ == old(out)@ + (grouped((n / 1000) as nat) + seq![','] + three_digits(
            low as nat,
        )));
    }
}

/// Formats a number with thousands separators.
pub fn format_number(n: usize) -> (r: String)
    ensures
        r@ == grouped(n as nat),
{
    let mut out = String::new();
    push_grouped(&mut out, n as u64);
    out
}

/// A string without its commas.
pub open spec fn without_commas(s: Seq<char>) -> Seq<char>
    decreases s.len(),
{
    if s.len() == 0 {
        Seq::empty()
    } else if s.last() == ',' {
        without_commas(s.drop_last())
    } else {
        without_commas(s.drop_last()).push(s.last())
    }
}

proof fn lemma_without_commas_of_concatenation(a: Seq<char>, b: Seq<char>)
    ensures
        without_commas(a + b) == without_commas(a) + without_commas(b),
    decreases b.len(),
{
    if b.len() == 0 {
        assert(a + b == a);
    } else {
        assert((a + b).drop_last() == a + b.drop_last());
        assert((a + b).last() == b.last());
        lemma_without_commas_of_concatenation(a, b.drop_last());
    }
}

proof fn lemma_decimal_has_no_comma(n: nat)
    ensures
        without_commas(decimal(n)) == decimal(n),
    decreases n,
{
    if n < 10 {
        assert(decimal(n).drop_last() == Seq::<char>::empty());
        assert(without_commas(decimal(n).drop_last()) == Seq::<char>::empty());
        assert(decimal(n).last() == digit_char(n));
    } else {
        lemma_decimal_has_no_comma(n / 10);
        assert(decimal(n).drop_last() == decimal(n / 10));
        assert(decimal(n).last() == digit_char(n % 10));
    }
}

proof fn lemma_decimal_by_thousands(n: nat)
    requires
        n >= 1000,
    ensures
        decimal(n) == decimal(n / 1000) + three_digits(n % 1000),
{
    let low = n % 1000;
    assert(n / 10 >= 100 && n / 100 >= 10);
    assert(n / 10 / 10 == n / 100 && n / 100 / 10 == n / 1000);
    assert(n / 100 % 10 == low / 100 && n / 10 % 10 == low / 10 % 10 && n % 10 == low % 10);
    assert(decimal(n) == decimal(n / 10).push(digit_char(n % 10)));
    assert(decimal(n / 10) == decimal(n / 100).push(digit_char(n / 10 % 10)));
    assert(decimal(n / 100) == decimal(n / 1000).push(digit_char(n / 100 % 10)));
}

/// The separators change no digit: a number formatted with separators, with
/// the commas taken out again, is its decimal numeral.
pub proof fn law_separators_change_no_digit(n: nat)
    ensures
        without_commas(grouped(n)) == decimal(n),
    decreases n,
{
    if n < 1000 {
        lemma_decimal_has_no_comma(n);
    } else {
        law_separators_change_no_digit(n / 1000);
        lemma_decimal_by_thousands(n);
        let low = three_digits(n % 1000);
        let head = grouped(n / 1000);
        lemma_without_commas_of_concatenation(head + seq![','], low);
        lemma_without_commas_of_concatenation(head, seq![',']);
        assert(without_commas(seq![',']) == Seq::<char>::empty()) by {
            assert(seq![','].drop_last() == Seq::<char>::empty());
            assert(without_commas(Seq::<char>::empty()) == Seq::<char>::empty());
        }
        assert(without_commas(low) == low) by {
            assert(low.drop_last() == seq![low[0], low[1]]);
            assert(low.drop_last().drop_last() == seq![low[0]]);
            assert(low.drop_last().drop_last().drop_last() == Seq::<char>::empty());
            reveal_with_fuel(without_commas, 4);
        }
        assert(without_commas(head) + Seq::<char>::empty() == without_commas(head));
    }
}

/// Whether a character takes two columns on screen: the pictographs and
/// symbols that the front end draws, and the variation selector that may
/// follow one.
pub open spec fn is_wide(c: char) -> bool {
    ||| c == '\u{1FABF}'
    ||| c == '\u{1F527}'
    ||| c == '\u{1F4AC}'
    ||| c == '\u{2139}'
    ||| c == '\u{FE0F}'
    ||| c == '\u{21BB}'
    ||| c == '\u{26A1}'
    ||| c == '\u{25B6}'
    ||| c == '\u{1F41B}'
    ||| c == '\u{1FAB1}'
    ||| c == '\u{1F40D}'
}

/// The columns that one character takes.
pub open spec fn char_width(c: char) -> nat {
    if is_wide(c) {
        2
    } else {
        1
    }
}

/// The columns that a string takes.
pub open spec fn width_of(s: Seq<char>) -> nat
    decreases s.len(),
{
    if s.len() == 0 {
        0
    } else {
        width_of(s.drop_last()) + char_width(s.last())
    }
}

fn is_wide_char(c: char) -> (r: bool)
    ensures
        r == is_wide(c),
{
    c == '\u{1FABF}' || c == '\u{1F527}' || c == '\u{1F4AC}' || c == '\u{2139}' || c == '\u{FE0F}'
        || c == '\u{21BB}' || c == '\u{26A1}' || c == '\u{25B6}' || c == '\u{1F41B}' || c
        == '\u{1FAB1}' || c == '\u{1F40D}'
}

/// The columns that a string takes, as far as `usize` can count them.
pub open spec fn capped_width(s: Seq<char>) -> usize {
    if width_of(s) > usize::MAX {
        usize::MAX
    } else {
        width_of(s) as usize
    }
}

/// Counts the columns that a string takes on screen.
pub fn display_width(s: &str) -> (r: usize)
    ensures
        r == capped_width(s@),
{
    let mut width: usize = 0;
    for c in it: s.chars()
        invariant
            it.seq() == s@,
            width == capped_width(s@.take(it.index() as int)),
    {
        assert(s@.take(it.index() + 1).drop_last() == s@.take(it.index() as int));
        let columns: usize = if is_wide_char(c) {
            2
        } else {
            1
        };
        width = width.saturating_add(columns);
    }
    assert(s@.take(s@.len() as int) == s@);
    width
}

/// The blanks that fill a line of `content` up to `target_width` columns:
/// none where the content is as wide or wider.
pub open spec fn padding_of(content: Seq<char>, target_width: usize) -> usize {
    if capped_width(content) >= target_width {
        0
    } else {
        (target_width - capped_width(content)) as usize
    }
}

/// Computes the blanks that fill a line up to `target_width` columns.
pub fn calculate_padding(content: &str, target_width: usize) -> (r: usize)
    ensures
        r == padding_of(content@, target_width),
{
    let display_len = display_width(content);
    target_width.saturating_sub(display_len)
}

/// How the request of a tool is drawn.
#[derive(Clone, Copy, Debug, PartialEq, Eq, Structural)]
pub enum RequestRendering {
    /// The box of the text editor, with the path on a line of its own.
    TextEditor,
    /// The box of the shell, with the command on a line of its own.
    Shell,
    /// The box of any other tool, with its parameters.
    Default,
}

/// The rendering of a tool by its name.
pub open spec fn rendering_of(tool_name: Seq<char>) -> RequestRendering {
    if tool_name == "developer__text_editor"@ {
        RequestRendering::TextEditor
    } else if tool_name == "developer__shell"@ {
        RequestRendering::Shell
    } else {
        RequestRendering::Default
    }
}

/// Chooses how the request of a tool is drawn.
pub fn request_rendering(tool_name: &str) -> (r: RequestRendering)
    ensures
        r == rendering_of(tool_name@),
{
    if str_eq(tool_name, "developer__text_editor") {
        RequestRendering::TextEditor
    } else if str_eq(tool_name, "developer__shell") {
        RequestRendering::Shell
    } else {
        RequestRendering::Default
    }
}

/// Whether the separator `__` starts at index `i`.
pub open spec fn separator_at(s: Seq<char>, i: int) -> bool {
    0 <= i && i + 1 < s.len() && s[i] == '_' && s[i + 1] == '_'
}

/// The largest index below `end` at which a separator starts.
pub open spec fn last_separator_before(s: Seq<char>, end: int) -> Option<int>
    decreases end,
{
    if end <= 0 {
        None
    } else if separator_at(s, end - 1) {
        Some(end - 1)
    } else {
        last_separator_before(s, end - 1)
    }
}

/// The two labels in the header of a tool box, split at the last `__` of the
/// tool's name: what follows it, then what precedes it. A name without
/// separator is the first label, and the second is empty.
pub open spec fn header_labels(name: Seq<char>) -> (Seq<char>, Seq<char>) {
    match last_separator_before(name, name.len() - 1) {
        Some(i) => (name.subrange(i + 2, name.len() as int), name.subrange(0, i)),
        None => (name, Seq::empty()),
    }
}

/// The header is split at the last separator. Where the search finds an
/// index, a separator starts there and none starts after it below `end`;
/// where it finds none, no separator starts below `end`.
pub proof fn law_last_separator_is_last(s: Seq<char>, end: int)
    ensures
        match last_separator_before(s, end) {
            Some(i) => 0 <= i < end && separator_at(s, i) && forall|j: int|
                i < j < end ==> !separator_at(s, j),
            None => forall|j: int| 0 <= j < end ==> !separator_at(s, j),
        },
    decreases end,
{
    if end > 0 && !separator_at(s, end - 1) {
        law_last_separator_is_last(s, end - 1);
    }
}

/// The two labels in the header of a tool box.
#[derive(Debug, Clone, PartialEq, Eq)]
pub struct ToolHeader {
    /// What follows the last `__` of the tool's name.
    pub extension_name: String,
    /// What precedes the last `__` of the tool's name.
    pub tool_name: String,
}

/// Splits the name of a tool into the labels of its header.
pub fn tool_header(name: &str) -> (r: ToolHeader)
    ensures
        (r.extension_name@, r.tool_name@) == header_labels(name@),
{
    let chars = chars_of(name);
    let n = chars.len();
    if n < 2 {
        assert(last_separator_before(name@, n - 1) is None) by {
            reveal_with_fuel(last_separator_before, 2);
        }
        return ToolHeader { extension_name: String::from_str(name), tool_name: String::new() };
    }
    let mut end: usize = n - 1;
    while end > 0
        invariant
            end <= n - 1,
            n == chars@.len(),
            chars@ == name@,
            last_separator_before(name@, n - 1) == last_separator_before(name@, end as int),
        decreases end,
    {
        if chars[end - 1] == '_' && chars[end] == '_' {
            let mut extension_name = String::new();
            let mut tool_name = String::new();
            let mut k: usize = 0;
            while k < end - 1
                invariant
                    k <= end - 1,
                    end <= n - 1,
                    n == chars@.len(),
                    tool_name@ == chars@.subrange(0, k as int),
                decreases end - 1 - k,
            {
                push_char(&mut tool_name, chars[k]);
                assert(chars@.subrange(0, k + 1) == chars@.subrange(0, k as int).push(
                    chars@[k as int],
                ));
                k += 1;
            }
            let mut j: usize = end + 1;
            while j < n
                invariant
                    end + 1 <= j <= n,
                    n == chars@.len(),
                    extension_name@ == chars@.subrange(end + 1, j as int),
                decreases n - j,
            {
                push_char(&mut extension_name, chars[j]);
                assert(chars@.subrange(end + 1, j + 1) == chars@.subrange(end + 1, j as int).push(
                    chars@[j as int],
                ));
                j += 1;
            }
            return ToolHeader { extension_name, tool_name };
        }
        end -= 1;
    }
    ToolHeader { extension_name: String::from_str(name), tool_name: String::new() }
}

/// The longest parameter value, in bytes, that is printed in full where the
/// configuration names no other bound.
pub const DEFAULT_PARAMS_MAX_LENGTH: usize = 40;

/// The longest parameter value that is printed in full: the configured
/// bound, or 40 without one.
pub fn get_tool_params_max_length(configured: Option<usize>) -> (r: usize)
    ensures
        r == match configured {
            Some(length) => length,
            None => DEFAULT_PARAMS_MAX_LENGTH,
        },
{
    match configured {
        Some(length) => length,
        None => DEFAULT_PARAMS_MAX_LENGTH,
    }
}

/// Whether a parameter value is left out of the box: outside debug mode, a
/// value of more bytes than the bound.
pub open spec fn elided(value: Seq<char>, debug: bool, max_length: usize) -> bool {
    !debug && byte_len(value) > max_length
}

/// Decides whether a parameter value is left out of the box.
pub fn is_elided(value: &str, debug: bool, max_length: usize) -> (r: bool)
    ensures
        r == elided(value@, debug, max_length),
{
    !debug && value.len() > max_length
}

/// The note that stands for a value of `length` bytes that is left out.
pub open spec fn redaction_note_of(length: nat) -> Seq<char> {
    "[REDACTED: "@ + decimal(length) + " chars]"@
}

/// Writes the note that stands for a value that is left out.
pub fn redaction_note(length: usize) -> (r: String)
    ensures
        r@ == redaction_note_of(length as nat),
{
    let mut out = String::from_str("[REDACTED: ");
    push_decimal(&mut out, length as u64);
    out.append(" chars]");
    out
}

} // verus!
