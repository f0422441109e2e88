//! The inputs that the engine can be given.
//!
//! The engine does not return from every call. It computes unchecked with
//! numbers that it reads out of the document, it can leave a nested block
//! no width at all, and it measures a line twice in ways that disagree for
//! some characters. No markup is parsed here: the tests below look at the
//! bytes and admit a call only where none of this can happen. They rest on
//! how markup stands in bytes:
//!
//! - A tag stands in the bytes as `<` and its name, in any letter case.
//! - An attribute stands as its name, in any letter case, followed by white
//!   space and `=` and then the value: quoted up to the same quote, or bare
//!   up to white space or `>`.
//! - A character of the text is its UTF-8 bytes, or comes out of a character
//!   reference, which starts with `&`. A numbered reference gives the
//!   character of its number; a named one gives two characters at most, and
//!   none gives a digit.
//!
//! Whatever stands in the bytes is taken for markup, whether or not the
//! parser would read it so, and the nesting of tags is not followed: every
//! tag that can narrow a block counts as if it enclosed all others.

use crate::config::RenderConfig;
use vstd::prelude::*;
use vstd::utf8::encode_utf8;

verus! {

/// Digits a `colspan` may have. With at most three, a row of cells adds up
/// to less than a thousand times the length of the document, and a span of
/// zero, which the engine widens to a whole row, keeps the sum under that
/// times the length again.
pub const SPAN_DIGITS: usize = 3;

/// Digits a list `start` may have: any number of eighteen digits, with the
/// items of a list added, is within `i64`.
pub const START_DIGITS: usize = 18;

/// Columns that text can take for each byte of a document, at most, with
/// all that the engine puts before and around it.
pub const COLUMNS_PER_BYTE: usize = 32;

/// One more than the largest number of a character.
pub const CODE_LIMIT: u32 = 0x11_0000;

/// The byte `"`.
pub const QUOTE: u8 = 0x22;

/// The byte `#`.
pub const HASH: u8 = 0x23;

/// The byte `&`.
pub const AMPERSAND: u8 = 0x26;

/// The byte `'`.
pub const APOSTROPHE: u8 = 0x27;

/// The byte `<`.
pub const LESS: u8 = 0x3c;

/// The byte `=`.
pub const EQUALS: u8 = 0x3d;

/// The byte `>`.
pub const GREATER: u8 = 0x3e;

/// The byte `h`.
pub const LETTER_H: u8 = 0x68;

/// The byte `x`.
pub const LETTER_X: u8 = 0x78;

/// White space as the markup tokenizer knows it.
pub open spec fn spec_is_space(b: u8) -> bool {
    b == 0x20 || b == 0x09 || b == 0x0a || b == 0x0c || b == 0x0d
}

/// `b` with an upper case letter put into lower case.
pub open spec fn spec_lower(b: u8) -> u8 {
    if 0x41 <= b && b <= 0x5a {
        (b + 0x20) as u8
    } else {
        b
    }
}

/// The byte that is compared: `b` itself, or in lower case where `fold`
/// is set.
pub open spec fn spec_folded(b: u8, fold: bool) -> u8 {
    if fold {
        spec_lower(b)
    } else {
        b
    }
}

/// Whether `pattern` stands at `at`. Where `fold` is set the pattern is in
/// lower case and stands for either case.
pub open spec fn stands_at(html: Seq<u8>, at: int, pattern: Seq<u8>, fold: bool) -> bool {
    &&& 0 <= at
    &&& at + pattern.len() <= html.len()
    &&& forall|k: int|
        0 <= k < pattern.len() ==> spec_folded(html[at + k], fold) == #[trigger] pattern[k]
}

/// Whether `pattern` stands anywhere in `html`.
pub open spec fn holds(html: Seq<u8>, pattern: Seq<u8>, fold: bool) -> bool {
    exists|at: int| stands_at(html, at, pattern, fold)
}

/// Whether `html` can hold a table cell: a `td` or `th` tag.
pub open spec fn spec_has_cell(html: Seq<u8>) -> bool {
    holds(html, encode_utf8("<td"@), true) || holds(html, encode_utf8("<th"@), true)
}

/// Whether `html` can hold an ordered list.
pub open spec fn spec_has_list(html: Seq<u8>) -> bool {
    holds(html, encode_utf8("<ol"@), true)
}

/// Whether `html` can hold preformatted text: a `pre` tag.
pub open spec fn spec_has_pre(html: Seq<u8>) -> bool {
    holds(html, encode_utf8("<pre"@), true)
}

/// The digit that `b` is.
pub open spec fn spec_decimal(b: u8) -> Option<u32> {
    if 0x30 <= b && b <= 0x39 {
        Some((b - 0x30) as u32)
    } else {
        None
    }
}

/// The digit to the base sixteen that `b` is.
pub open spec fn spec_hexadecimal(b: u8) -> Option<u32> {
    if 0x30 <= b && b <= 0x39 {
        Some((b - 0x30) as u32)
    } else if 0x61 <= b && b <= 0x66 {
        Some((b - 0x57) as u32)
    } else if 0x41 <= b && b <= 0x46 {
        Some((b - 0x37) as u32)
    } else {
        None
    }
}

/// The digit that `b` is to the base ten or, where `hex` is set, sixteen.
pub open spec fn spec_digit(b: u8, hex: bool) -> Option<u32> {
    if hex {
        spec_hexadecimal(b)
    } else {
        spec_decimal(b)
    }
}

/// The most digits that `b` can give to a decoded value: one for a digit,
/// two for the `&` of a character reference, none for any other byte.
pub open spec fn spec_digits_of(b: u8) -> nat {
    if spec_decimal(b) is Some {
        1
    } else if b == AMPERSAND {
        2
    } else {
        0
    }
}

/// Whether the byte `b` ends a value that `opener` began: the same quote
/// for a quoted value, white space or `>` for a bare one.
pub open spec fn spec_ends_value(opener: u8, b: u8) -> bool {
    if opener == QUOTE || opener == APOSTROPHE {
        b == opener
    } else {
        spec_is_space(b) || b == GREATER
    }
}

/// Where the value of a name that ends at `from` begins: behind all white
/// space and `=`.
pub open spec fn value_start(html: Seq<u8>, from: int) -> int
    decreases html.len() - from,
{
    if 0 <= from < html.len() && (spec_is_space(html[from]) || html[from] == EQUALS) {
        value_start(html, from + 1)
    } else {
        from
    }
}

/// Where the bytes of that value begin: behind the quote where it has one.
pub open spec fn value_first(html: Seq<u8>, from: int) -> int {
    let start = value_start(html, from);
    if 0 <= start < html.len() && (html[start] == QUOTE || html[start] == APOSTROPHE) {
        start + 1
    } else {
        start
    }
}

/// The byte that began that value, or a space where the bytes end before
/// it.
pub open spec fn value_opener(html: Seq<u8>, from: int) -> u8 {
    let start = value_start(html, from);
    if 0 <= start < html.len() {
        html[start]
    } else {
        0x20
    }
}

/// The most digits that the bytes from `from` to the end of the value that
/// `opener` began can give.
pub open spec fn digits_to_end(html: Seq<u8>, opener: u8, from: int) -> nat
    decreases html.len() - from,
{
    if from < 0 || from >= html.len() || spec_ends_value(opener, html[from]) {
        0
    } else {
        spec_digits_of(html[from]) + digits_to_end(html, opener, from + 1)
    }
}

/// Whether the digits from `from` to the end of the value spell zero or
/// one: zeros, and a one as the last digit at most. `closed` tells that the
/// one has been seen.
pub open spec fn small_to_end(html: Seq<u8>, opener: u8, from: int, closed: bool) -> bool
    decreases html.len() - from,
{
    if from < 0 || from >= html.len() || spec_ends_value(opener, html[from]) {
        true
    } else if html[from] == AMPERSAND {
        false
    } else {
        match spec_decimal(html[from]) {
            None => small_to_end(html, opener, from + 1, closed),
            Some(d) => !closed && d <= 1 && small_to_end(html, opener, from + 1, d == 1),
        }
    }
}

/// The most digits that the value of a name ending at `after` can have.
pub open spec fn value_weight(html: Seq<u8>, after: int) -> nat {
    digits_to_end(html, value_opener(html, after), value_first(html, after))
}

/// Whether the value of a name ending at `after` is zero or one where it is
/// a number.
pub open spec fn value_small(html: Seq<u8>, after: int) -> bool {
    small_to_end(html, value_opener(html, after), value_first(html, after), false)
}

/// Whether every value of the attribute `name` has at most `cap` digits.
pub open spec fn values_within(html: Seq<u8>, name: Seq<u8>, cap: nat) -> bool {
    forall|at: int|
        (#[trigger] stands_at(html, at, name, true)) ==> value_weight(html, at + name.len())
            <= cap
}

/// Whether every value of the attribute `name` is zero or one.
pub open spec fn values_small(html: Seq<u8>, name: Seq<u8>) -> bool {
    forall|at: int|
        (#[trigger] stands_at(html, at, name, true)) ==> value_small(html, at + name.len())
}

/// Whether the spans of the cells of `html` can be added up. The engine adds
/// the `colspan`s of a row in `usize`, unchecked, and fails on a cell whose
/// `rowspan` reaches below the last row of its table. So where there is a
/// cell the document is short, no `colspan` has more than `SPAN_DIGITS`
/// digits, and every `rowspan` is zero or one, which the engine reads as
/// one row.
pub open spec fn spec_spans_within_limits(html: Seq<u8>) -> bool {
    spec_has_cell(html) ==> {
        &&& html.len() * html.len() * 1000 <= usize::MAX
        &&& values_within(html, encode_utf8("colspan"@), SPAN_DIGITS as nat)
        &&& values_small(html, encode_utf8("rowspan"@))
    }
}

/// Whether the list numbers of `html` stay within `i64`: where there is an
/// ordered list no `start` has more than `START_DIGITS` digits.
pub open spec fn spec_starts_within_limits(html: Seq<u8>) -> bool {
    spec_has_list(html) ==> values_within(html, encode_utf8("start"@), START_DIGITS as nat)
}

/// Whether a heading tag, `<h1` to `<h6`, stands at `at`.
pub open spec fn heading_at(html: Seq<u8>, at: int) -> bool {
    &&& 0 <= at
    &&& at + 3 <= html.len()
    &&& html[at] == LESS
    &&& spec_lower(html[at + 1]) == LETTER_H
    &&& 0x31 <= html[at + 2] && html[at + 2] <= 0x36
}

/// The columns that a tag at `at` can take from the width of what it
/// encloses: the prefix of a list item, a quote, a definition or a heading.
pub open spec fn prefix_at(html: Seq<u8>, at: int) -> nat {
    if stands_at(html, at, encode_utf8("<ol"@), true) {
        22
    } else if heading_at(html, at) {
        7
    } else if stands_at(html, at, encode_utf8("<ul"@), true) || stands_at(
        html,
        at,
        encode_utf8("<dd"@),
        true,
    ) || stands_at(html, at, encode_utf8("<blockquote"@), true) {
        2
    } else {
        0
    }
}

/// The columns that the tags from `at` on can take together.
pub open spec fn narrowing_from(html: Seq<u8>, at: int) -> nat
    decreases html.len() - at,
{
    if at < 0 || at >= html.len() {
        0
    } else {
        prefix_at(html, at) + narrowing_from(html, at + 1)
    }
}

/// The columns that nested blocks can take from the width, at most.
pub open spec fn narrowing(html: Seq<u8>) -> nat {
    narrowing_from(html, 0)
}

/// The number of the character that the bytes at `at` encode, as far as
/// their layout goes, and 0 where they are laid out as none.
pub open spec fn code_at(html: Seq<u8>, at: int) -> u32 {
    if at < 0 || at >= html.len() {
        0
    } else if html[at] < 0xc0 {
        0
    } else if html[at] < 0xe0 {
        if at + 1 < html.len() && spec_is_tail(html[at + 1]) {
            ((html[at] - 0xc0) * 0x40 + (html[at + 1] - 0x80)) as u32
        } else {
            0
        }
    } else if html[at] < 0xf0 {
        if at + 2 < html.len() && spec_is_tail(html[at + 1]) && spec_is_tail(html[at + 2]) {
            ((html[at] - 0xe0) * 0x1000 + (html[at + 1] - 0x80) * 0x40 + (html[at + 2]
                - 0x80)) as u32
        } else {
            0
        }
    } else if html[at] < 0xf8 {
        if at + 3 < html.len() && spec_is_tail(html[at + 1]) && spec_is_tail(html[at + 2])
            && spec_is_tail(html[at + 3]) {
            ((html[at] - 0xf0) * 0x4_0000 + (html[at + 1] - 0x80) * 0x1000 + (html[at + 2]
                - 0x80) * 0x40 + (html[at + 3] - 0x80)) as u32
        } else {
            0
        }
    } else {
        0
    }
}

/// Whether `b` is a byte that continues a character.
pub open spec fn spec_is_tail(b: u8) -> bool {
    0x80 <= b && b < 0xc0
}

/// The number that the digits from `at` on spell after `so_far`, held at
/// `CODE_LIMIT` once it has reached it.
pub open spec fn number_from(html: Seq<u8>, at: int, hex: bool, so_far: u32) -> u32
    decreases html.len() - at,
{
    if at < 0 || at >= html.len() {
        so_far
    } else {
        match spec_digit(html[at], hex) {
            None => so_far,
            Some(d) => number_from(html, at + 1, hex, spec_held(so_far, hex, d)),
        }
    }
}

/// `so_far` with the digit `d` put behind it, held at `CODE_LIMIT`.
pub open spec fn spec_held(so_far: u32, hex: bool, d: u32) -> u32 {
    let next = so_far * (if hex {
        16int
    } else {
        10int
    }) + d;
    if next >= CODE_LIMIT {
        CODE_LIMIT
    } else {
        next as u32
    }
}

/// The number of the character that a numbered reference at `at` gives, and
/// 0 where none stands there.
pub open spec fn reference_at(html: Seq<u8>, at: int) -> u32 {
    if 0 <= at && at + 2 <= html.len() && html[at] == AMPERSAND && html[at + 1] == HASH {
        if at + 3 <= html.len() && spec_lower(html[at + 2]) == LETTER_X {
            number_from(html, at + 3, true, 0)
        } else {
            number_from(html, at + 2, false, 0)
        }
    } else {
        0
    }
}

/// Whether the character of number `code` joins with its neighbours. The
/// width of a text is the sum of the widths of its characters unless it
/// holds one of these: the joiner, the variation selectors, the Arabic
/// letters of the group of lam, the Khmer coeng, the Tifinagh joiner, two
/// Lisu tone letters, the emoji modifiers and two Kirat Rai vowel signs.
pub open spec fn spec_is_joining(code: u32) -> bool {
    ||| code == 0x200d
    ||| 0xfe00 <= code && code <= 0xfe0f
    ||| code == 0x644
    ||| 0x6b5 <= code && code <= 0x6b8
    ||| code == 0x76a
    ||| code == 0x8a6
    ||| code == 0x8c7
    ||| code == 0x17d2
    ||| code == 0x2d7f
    ||| 0xa4fc <= code && code <= 0xa4fd
    ||| 0x1_6d67 <= code && code <= 0x1_6d68
    ||| 0x1_f3fb <= code && code <= 0x1_f3ff
}

/// Whether a character that joins with its neighbours can stand at `at`:
/// as bytes, as a numbered reference or as the reference `&zwj`.
pub open spec fn joining_at(html: Seq<u8>, at: int) -> bool {
    ||| spec_is_joining(code_at(html, at))
    ||| spec_is_joining(reference_at(html, at))
    ||| stands_at(html, at, encode_utf8("&zwj"@), false)
}

/// Whether a break without width can stand at `at`: the zero width space,
/// as bytes or as a reference, or a `wbr` tag. The engine drops it and puts
/// what stands on its two sides together.
pub open spec fn break_at(html: Seq<u8>, at: int) -> bool {
    ||| code_at(html, at) == 0x200b
    ||| reference_at(html, at) == 0x200b
    ||| stands_at(html, at, encode_utf8("<wbr"@), true)
    ||| stands_at(html, at, encode_utf8("&ZeroWidthSpace"@), false)
    ||| stands_at(html, at, encode_utf8("&Negative"@), false)
}

/// Whether `html` can hold a character that joins with its neighbours.
pub open spec fn spec_has_joining(html: Seq<u8>) -> bool {
    exists|at: int| 0 <= at < html.len() && joining_at(html, at)
}

/// Whether `html` can hold a break without width.
pub open spec fn spec_has_break(html: Seq<u8>) -> bool {
    exists|at: int| 0 <= at < html.len() && break_at(html, at)
}

/// Whether the engine can lay `html` out at `width`, which is not zero.
///
/// - It adds up the columns that all text of the document may take, in
///   `usize`; the document is short enough for that.
/// - With padding it fills a line to the width of its block, which in a
///   table can be the width and the span of the cell together; that line is
///   within `isize::MAX` bytes.
/// - In raw mode it gives every cell the full width and adds these widths
///   up along a row; the sum is within `usize`.
/// - It does not return from preformatted text in a block of width zero. A
///   block gets narrower by the prefixes of the blocks around it, and a
///   table cell can be narrow at any width; so where there are `pre` and a
///   tag that narrows, there is no cell and the width is larger than all
///   prefixes together.
/// - It decides whether a word fits by the sum of the widths of its
///   characters, and keeps the width of a line as a sum over the pieces
///   that the line was put together from. Where the first is not the width
///   of the word, a line can get wider than its block; where the second is
///   not the width of the line, the engine fails when it measures the line,
///   as it does for every line of a table cell. So where there is a
///   character that joins with its neighbours, there is no break without
///   width, which makes two pieces of one word, and no cell, and the width
///   holds the whole text on a line.
pub open spec fn spec_layout_within_limits(html: Seq<u8>, width: usize, pad: bool, raw: bool) -> bool {
    &&& COLUMNS_PER_BYTE * html.len() <= usize::MAX
    &&& pad ==> width + html.len() <= isize::MAX
    &&& raw && spec_has_cell(html) ==> html.len() * (width + html.len()) <= usize::MAX
    &&& spec_has_pre(html) && narrowing(html) > 0 ==> !spec_has_cell(html) && narrowing(html)
        < width
    &&& spec_has_joining(html) ==> !spec_has_cell(html) && !spec_has_break(html)
        && COLUMNS_PER_BYTE * html.len() <= width
}

/// Whether the engine can be called with `html` at `width`. At width zero
/// it reads the document and answers with an error before it lays anything
/// out, so only the spans count there.
pub open spec fn spec_call_within_limits(html: Seq<u8>, width: usize, pad: bool, raw: bool) -> bool {
    &&& spec_spans_within_limits(html)
    &&& width > 0 ==> spec_starts_within_limits(html) && spec_layout_within_limits(
        html,
        width,
        pad,
        raw,
    )
}

/// Whether the engine can be given `html` under `config`.
pub open spec fn spec_renderable(html: Seq<u8>, config: RenderConfig) -> bool {
    spec_call_within_limits(html, config.width, config.pad_block_width, config.raw_mode)
}

#[verifier::when_used_as_spec(spec_is_space)]
pub fn is_space(b: u8) -> (r: bool)
    ensures
        r == spec_is_space(b),
{
    b == 0x20 || b == 0x09 || b == 0x0a || b == 0x0c || b == 0x0d
}

fn folded(b: u8, fold: bool) -> (r: u8)
    ensures
        r == spec_folded(b, fold),
{
    if fold && 0x41 <= b && b <= 0x5a {
        b + 0x20
    } else {
        b
    }
}

fn digit(b: u8, hex: bool) -> (r: Option<u32>)
    ensures
        r == spec_digit(b, hex),
        r matches Some(d) ==> d < 16,
{
    if 0x30 <= b && b <= 0x39 {
        Some((b - 0x30) as u32)
    } else if hex && 0x61 <= b && b <= 0x66 {
        Some((b - 0x57) as u32)
    } else if hex && 0x41 <= b && b <= 0x46 {
        Some((b - 0x37) as u32)
    } else {
        None
    }
}

fn digits_of(b: u8) -> (r: usize)
    ensures
        r == spec_digits_of(b),
{
    if 0x30 <= b && b <= 0x39 {
        1
    } else if b == AMPERSAND {
        2
    } else {
        0
    }
}

fn ends_value(opener: u8, b: u8) -> (r: bool)
    ensures
        r == spec_ends_value(opener, b),
{
    if opener == QUOTE || opener == APOSTROPHE {
        b == opener
    } else {
        is_space(b) || b == GREATER
    }
}

fn is_tail(b: u8) -> (r: bool)
    ensures
        r == spec_is_tail(b),
{
    0x80 <= b && b < 0xc0
}

fn is_joining(code: u32) -> (r: bool)
    ensures
        r == spec_is_joining(code),
{
    code == 0x200d || (0xfe00 <= code && code <= 0xfe0f) || code == 0x644 || (0x6b5 <= code && code
        <= 0x6b8) || code == 0x76a || code == 0x8a6 || code == 0x8c7 || code == 0x17d2 || code
        == 0x2d7f || (0xa4fc <= code && code <= 0xa4fd) || (0x1_6d67 <= code && code <= 0x1_6d68)
        || (0x1_f3fb <= code && code <= 0x1_f3ff)
}

/// Tests whether `pattern` stands at `at`.
fn stands(html: &[u8], at: usize, pattern: &[u8], fold: bool) -> (r: bool)
    requires
        at <= html@.len(),
    ensures
        r == stands_at(html@, at as int, pattern@, fold),
        r ==> at + pattern@.len() <= html@.len() <= usize::MAX,
{
    if html.len() - at < pattern.len() {
        return false;
    }
    let mut k: usize = 0;
    while k < pattern.len()
        invariant
            k <= pattern@.len(),
            at + pattern@.len() <= html@.len() <= usize::MAX,
            forall|j: int| 0 <= j < k ==> spec_folded(html@[at + j], fold) == #[trigger] pattern@[j],
        decreases pattern@.len() - k,
    {
        if folded(html[at + k], fold) != pattern[k] {
            return false;
        }
        k += 1;
    }
    true
}

/// Tests whether `pattern` stands anywhere in `html`.
fn contains(html: &[u8], pattern: &[u8], fold: bool) -> (r: bool)
    ensures
        r == holds(html@, pattern@, fold),
{
    let mut at: usize = 0;
    while at < html.len()
        invariant
            at <= html@.len(),
            forall|k: int| 0 <= k < at ==> !stands_at(html@, k, pattern@, fold),
        decreases html@.len() - at,
    {
        if stands(html, at, pattern, fold) {
            return true;
        }
        at += 1;
    }
    stands(html, at, pattern, fold)
}

fn has_cell(html: &[u8]) -> (r: bool)
    ensures
        r == spec_has_cell(html@),
{
    contains(html, "<td".as_bytes(), true) || contains(html, "<th".as_bytes(), true)
}

/// Finds where the bytes of the value of a name that ends at `after` begin,
/// and the byte that began it.
fn value_bounds(html: &[u8], after: usize) -> (r: (u8, usize))
    requires
        after <= html@.len(),
    ensures
        r.0 == value_opener(html@, after as int),
        r.1 == value_first(html@, after as int),
        after <= r.1 <= html@.len(),
{
    let mut start: usize = after;
    while start < html.len() && (is_space(html[start]) || html[start] == EQUALS)
        invariant
            after <= start <= html@.len(),
            value_start(html@, start as int) == value_start(html@, after as int),
        decreases html@.len() - start,
    {
        start += 1;
    }
    if start >= html.len() {
        return (0x20, start);
    }
    let opener: u8 = html[start];
    if opener == QUOTE || opener == APOSTROPHE {
        (opener, start + 1)
    } else {
        (opener, start)
    }
}

/// Tests whether the value of a name that ends at `after` can have at most
/// `cap` digits.
fn weight_at_most(html: &[u8], after: usize, cap: usize) -> (r: bool)
    requires
        after <= html@.len(),
    ensures
        r == (value_weight(html@, after as int) <= cap),
{
    let (opener, first) = value_bounds(html, after);
    let mut at: usize = first;
    let mut count: usize = 0;
    while at < html.len() && !ends_value(opener, html[at])
        invariant
            first <= at <= html@.len(),
            count <= cap,
            value_weight(html@, after as int) == digits_to_end(html@, opener, first as int),
            count + digits_to_end(html@, opener, at as int) == digits_to_end(
                html@,
                opener,
                first as int,
            ),
        decreases html@.len() - at,
    {
        let digits = digits_of(html[at]);
        if digits > cap - count {
            return false;
        }
        count += digits;
        at += 1;
    }
    true
}

/// Tests whether the value of a name that ends at `after` is zero or one.
fn is_small(html: &[u8], after: usize) -> (r: bool)
    requires
        after <= html@.len(),
    ensures
        r == value_small(html@, after as int),
{
    let (opener, first) = value_bounds(html, after);
    let mut at: usize = first;
    let mut closed = false;
    while at < html.len() && !ends_value(opener, html[at])
        invariant
            first <= at <= html@.len(),
            value_small(html@, after as int) == small_to_end(html@, opener, at as int, closed),
        decreases html@.len() - at,
    {
        let b = html[at];
        if b == AMPERSAND {
            return false;
        }
        match digit(b, false) {
            None => {},
            Some(d) => {
                if closed || d > 1 {
                    return false;
                }
                closed = d == 1;
            },
        }
        at += 1;
    }
    true
}

/// Tests the value of the attribute `name` where that name stands at `at`.
fn value_holds(html: &[u8], at: usize, name: &[u8], cap: usize, small: bool) -> (r: bool)
    requires
        at <= html@.len(),
    ensures
        r == (stands_at(html@, at as int, name@, true) ==> if small {
            value_small(html@, at + name@.len())
        } else {
            value_weight(html@, at + name@.len()) <= cap
        }),
{
    if stands(html, at, name, true) {
        let after = at + name.len();
        if small {
            is_small(html, after)
        } else {
            weight_at_most(html, after, cap)
        }
    } else {
        true
    }
}

/// Tests every value of the attribute `name`: that it has at most `cap`
/// digits or, where `small` is set, that it is zero or one.
fn values_hold(html: &[u8], name: &[u8], cap: usize, small: bool) -> (r: bool)
    ensures
        r == if small {
            values_small(html@, name@)
        } else {
            values_within(html@, name@, cap as nat)
        },
{
    let mut at: usize = 0;
    while at < html.len()
        invariant
            at <= html@.len(),
            forall|k: int|
                0 <= k < at && #[trigger] stands_at(html@, k, name@, true) ==> if small {
                    value_small(html@, k + name@.len())
                } else {
                    value_weight(html@, k + name@.len()) <= cap
                },
        decreases html@.len() - at,
    {
        if !value_holds(html, at, name, cap, small) {
            return false;
        }
        at += 1;
    }
    value_holds(html, at, name, cap, small)
}

/// Whether the squared length of a document, times a thousand, is within
/// `usize`.
fn length_within_limits(len: usize) -> (r: bool)
    ensures
        r == (len * len * 1000 <= usize::MAX),
{
    if len > 0xffff_ffff {
        assert(len * len * 1000 > usize::MAX) by (nonlinear_arith)
            requires
                len > 0xffff_ffff,
                usize::MAX <= 0xffff_ffff_ffff_ffff,
        ;
        return false;
    }
    assert(len * len <= 0xffff_ffff * 0xffff_ffff) by (nonlinear_arith)
        requires
            0 <= len <= 0xffff_ffff,
    ;
    let square: u128 = (len as u128) * (len as u128);
    square * 1000 <= usize::MAX as u128
}

/// Whether `len * (width + len)` is within `usize`.
fn product_within_limits(len: usize, width: usize) -> (r: bool)
    ensures
        r == (len * (width + len) <= usize::MAX),
{
    if len == 0 {
        return true;
    }
    if width > usize::MAX - len {
        assert(len * (width + len) > usize::MAX) by (nonlinear_arith)
            requires
                len >= 1,
                width + len > usize::MAX,
        ;
        return false;
    }
    let sum: usize = width + len;
    assert(len * sum <= 0xffff_ffff_ffff_ffff * 0xffff_ffff_ffff_ffff) by (nonlinear_arith)
        requires
            0 <= len <= 0xffff_ffff_ffff_ffff,
            0 <= sum <= 0xffff_ffff_ffff_ffff,
    ;
    (len as u128) * (sum as u128) <= usize::MAX as u128
}

/// Tests whether the spans of the cells of `html` can be added up.
pub fn spans_within_limits(html: &[u8]) -> (r: bool)
    ensures
        r == spec_spans_within_limits(html@),
{
    if !has_cell(html) {
        return true;
    }
    length_within_limits(html.len()) && values_hold(
        html,
        "colspan".as_bytes(),
        SPAN_DIGITS,
        false,
    ) && values_hold(html, "rowspan".as_bytes(), 0, true)
}

/// Tests whether the list numbers of `html` stay within `i64`.
pub fn starts_within_limits(html: &[u8]) -> (r: bool)
    ensures
        r == spec_starts_within_limits(html@),
{
    if !contains(html, "<ol".as_bytes(), true) {
        return true;
    }
    values_hold(html, "start".as_bytes(), START_DIGITS, false)
}

fn prefix_of(html: &[u8], at: usize) -> (r: usize)
    requires
        at <= html@.len(),
    ensures
        r == prefix_at(html@, at as int),
        r <= 22,
{
    if stands(html, at, "<ol".as_bytes(), true) {
        22
    } else if html.len() - at >= 3 && html[at] == LESS && folded(html[at + 1], true) == LETTER_H
        && 0x31 <= html[at + 2] && html[at + 2] <= 0x36 {
        7
    } else if stands(html, at, "<ul".as_bytes(), true) || stands(html, at, "<dd".as_bytes(), true)
        || stands(html, at, "<blockquote".as_bytes(), true) {
        2
    } else {
        0
    }
}

/// Tests whether nested blocks take fewer than `limit` columns from the
/// width.
fn narrowing_below(html: &[u8], limit: usize) -> (r: bool)
    ensures
        r == (narrowing(html@) < limit),
{
    let mut at: usize = 0;
    let mut sum: usize = 0;
    if limit == 0 {
        return false;
    }
    while at < html.len()
        invariant
            at <= html@.len(),
            sum < limit,
            sum + narrowing_from(html@, at as int) == narrowing(html@),
        decreases html@.len() - at,
    {
        let prefix = prefix_of(html, at);
        if prefix >= limit - sum {
            return false;
        }
        sum += prefix;
        at += 1;
    }
    true
}

fn code_of(html: &[u8], at: usize) -> (r: u32)
    requires
        at < html@.len(),
    ensures
        r == code_at(html@, at as int),
{
    let len = html.len();
    let lead: u32 = html[at] as u32;
    if lead < 0xc0 {
        0
    } else if lead < 0xe0 {
        if len - at > 1 && is_tail(html[at + 1]) {
            (lead - 0xc0) * 0x40 + (html[at + 1] as u32 - 0x80)
        } else {
            0
        }
    } else if lead < 0xf0 {
        if len - at > 2 && is_tail(html[at + 1]) && is_tail(html[at + 2]) {
            (lead - 0xe0) * 0x1000 + (html[at + 1] as u32 - 0x80) * 0x40 + (html[at + 2] as u32
                - 0x80)
        } else {
            0
        }
    } else if lead < 0xf8 {
        if len - at > 3 && is_tail(html[at + 1]) && is_tail(html[at + 2]) && is_tail(html[at + 3]) {
            (lead - 0xf0) * 0x4_0000 + (html[at + 1] as u32 - 0x80) * 0x1000 + (html[at + 2] as u32
                - 0x80) * 0x40 + (html[at + 3] as u32 - 0x80)
        } else {
            0
        }
    } else {
        0
    }
}

fn number_of(html: &[u8], from: usize, hex: bool) -> (r: u32)
    requires
        from <= html@.len(),
    ensures
        r == number_from(html@, from as int, hex, 0),
{
    let mut at: usize = from;
    let mut so_far: u32 = 0;
    while at < html.len()
        invariant
            from <= at <= html@.len(),
            so_far <= CODE_LIMIT,
            number_from(html@, at as int, hex, so_far) == number_from(html@, from as int, hex, 0),
        decreases html@.len() - at,
    {
        match digit(html[at], hex) {
            None => {
                return so_far;
            },
            Some(d) => {
                let next: u32 = if hex {
                    so_far * 16 + d
                } else {
                    so_far * 10 + d
                };
                so_far = if next >= CODE_LIMIT {
                    CODE_LIMIT
                } else {
                    next
                };
            },
        }
        at += 1;
    }
    so_far
}

fn reference_of(html: &[u8], at: usize) -> (r: u32)
    requires
        at < html@.len(),
    ensures
        r == reference_at(html@, at as int),
{
    if html.len() - at >= 2 && html[at] == AMPERSAND && html[at + 1] == HASH {
        if html.len() - at >= 3 && folded(html[at + 2], true) == LETTER_X {
            number_of(html, at + 3, true)
        } else {
            number_of(html, at + 2, false)
        }
    } else {
        0
    }
}

fn joins(html: &[u8], at: usize) -> (r: bool)
    requires
        at < html@.len(),
    ensures
        r == joining_at(html@, at as int),
{
    let code = code_of(html, at);
    let reference = reference_of(html, at);
    let named = stands(html, at, "&zwj".as_bytes(), false);
    is_joining(code) || is_joining(reference) || named
}

fn breaks(html: &[u8], at: usize) -> (r: bool)
    requires
        at < html@.len(),
    ensures
        r == break_at(html@, at as int),
{
    let code = code_of(html, at);
    let reference = reference_of(html, at);
    let tag = stands(html, at, "<wbr".as_bytes(), true);
    let space = stands(html, at, "&ZeroWidthSpace".as_bytes(), false);
    let negative = stands(html, at, "&Negative".as_bytes(), false);
    code == 0x200b || reference == 0x200b || tag || space || negative
}

fn has_joining(html: &[u8]) -> (r: bool)
    ensures
        r == spec_has_joining(html@),
{
    let mut at: usize = 0;
    while at < html.len()
        invariant
            at <= html@.len(),
            forall|k: int| 0 <= k < at ==> !joining_at(html@, k),
        decreases html@.len() - at,
    {
        if joins(html, at) {
            assert(0 <= at < html@.len() && joining_at(html@, at as int));
            return true;
        }
        at += 1;
    }
    false
}

fn has_break(html: &[u8]) -> (r: bool)
    ensures
        r == spec_has_break(html@),
{
    let mut at: usize = 0;
    while at < html.len()
        invariant
            at <= html@.len(),
            forall|k: int| 0 <= k < at ==> !break_at(html@, k),
        decreases html@.len() - at,
    {
        if breaks(html, at) {
            assert(0 <= at < html@.len() && break_at(html@, at as int));
            return true;
        }
        at += 1;
    }
    false
}

/// Tests whether the engine can lay `html` out at `width`.
fn layout_within_limits(html: &[u8], width: usize, pad: bool, raw: bool) -> (r: bool)
    ensures
        r == spec_layout_within_limits(html@, width, pad, raw),
{
    let len = html.len();
    if len > usize::MAX / COLUMNS_PER_BYTE {
        return false;
    }
    if pad && (len > isize::MAX as usize || width > isize::MAX as usize - len) {
        return false;
    }
    let cell = has_cell(html);
    if raw && cell && !product_within_limits(len, width) {
        return false;
    }
    if contains(html, "<pre".as_bytes(), true) && !narrowing_below(html, 1) {
        if cell || !narrowing_below(html, width) {
            return false;
        }
    }
    if has_joining(html) {
        if cell || has_break(html) || len > width / COLUMNS_PER_BYTE {
            return false;
        }
    }
    true
}

/// Tests whether the engine can be given `html` under `config`.
pub fn renderable(html: &[u8], config: &RenderConfig) -> (r: bool)
    ensures
        r == spec_renderable(html@, *config),
{
    if !spans_within_limits(html) {
        return false;
    }
    if config.width == 0 {
        return true;
    }
    starts_within_limits(html) && layout_within_limits(
        html,
        config.width,
        config.pad_block_width,
        config.raw_mode,
    )
}

} // verus!
