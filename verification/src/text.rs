//! Reading the text that crosses the native boundary: fields set apart by a separator and decimal
//! sizes; and what the last component of a path's text is.
use vstd::prelude::*;
use vstd::string::StrSliceExecFns;

verus! {

/// How many characters of `text` stand before its first `sep`; all of them if there is none.
pub open spec fn first_at(text: Seq<char>, sep: char) -> nat
    decreases text.len(),
{
    if text.len() == 0 || text[0] == sep {
        0
    } else {
        1 + first_at(text.drop_first(), sep)
    }
}

/// The part of `text` before its first `sep`.
pub open spec fn head(text: Seq<char>, sep: char) -> Seq<char> {
    text.take(first_at(text, sep) as int)
}

/// The part of `text` after its first `sep`, if it has one.
pub open spec fn tail(text: Seq<char>, sep: char) -> Option<Seq<char>> {
    if first_at(text, sep) < text.len() {
        Some(text.skip(first_at(text, sep) as int + 1))
    } else {
        None
    }
}

/// The `n`th field of `text`, counted from zero, where `sep` stands between the fields.
pub open spec fn field(text: Seq<char>, sep: char, n: nat) -> Option<Seq<char>>
    decreases n,
{
    if n == 0 {
        Some(head(text, sep))
    } else {
        match tail(text, sep) {
            Some(rest) => field(rest, sep, (n - 1) as nat),
            None => None,
        }
    }
}

/// The characters with Unicode's `White_Space` property.
pub open spec fn white_space(c: char) -> bool {
    ||| '\u{9}' <= c <= '\u{d}'
    ||| c == ' '
    ||| c == '\u{85}'
    ||| c == '\u{a0}'
    ||| c == '\u{1680}'
    ||| '\u{2000}' <= c <= '\u{200a}'
    ||| c == '\u{2028}'
    ||| c == '\u{2029}'
    ||| c == '\u{202f}'
    ||| c == '\u{205f}'
    ||| c == '\u{3000}'
}

/// `text` without the white space it begins with.
pub open spec fn trim_start(text: Seq<char>) -> Seq<char>
    decreases text.len(),
{
    if text.len() > 0 && white_space(text[0]) {
        trim_start(text.drop_first())
    } else {
        text
    }
}

/// `text` without the white space it ends with.
pub open spec fn trim_end(text: Seq<char>) -> Seq<char>
    decreases text.len(),
{
    if text.len() > 0 && white_space(text.last()) {
        trim_end(text.drop_last())
    } else {
        text
    }
}

/// `text` without the white space around it.
pub open spec fn trimmed(text: Seq<char>) -> Seq<char> {
    trim_end(trim_start(text))
}

/// Whether every character of `text` is a decimal digit.
pub open spec fn all_digits(text: Seq<char>) -> bool {
    forall|i: int| 0 <= i < text.len() ==> '0' <= #[trigger] text[i] <= '9'
}

/// The number that a run of decimal digits stands for.
pub open spec fn digits_value(text: Seq<char>) -> nat
    decreases text.len(),
{
    if text.len() == 0 {
        0
    } else {
        10 * digits_value(text.drop_last()) + (text.last() as nat - '0' as nat) as nat
    }
}

/// The number that `text` stands for: an optional `+`, then digits and nothing else, for a number
/// that 32 bits hold.
pub open spec fn decimal_value(text: Seq<char>) -> Option<u32> {
    let digits = if text.len() > 0 && text[0] == '+' {
        text.skip(1)
    } else {
        text
    };
    if digits.len() > 0 && all_digits(digits) && digits_value(digits) <= u32::MAX {
        Some(digits_value(digits) as u32)
    } else {
        None
    }
}

/// Where the last `/`-separated piece of `path` begins.
pub open spec fn last_piece_at(path: Seq<char>) -> nat
    decreases path.len(),
{
    if path.len() == 0 || path.last() == '/' {
        path.len()
    } else {
        last_piece_at(path.drop_last())
    }
}

/// The last component of `path`, whose components stand between `/`. Trailing separators and `.`
/// pieces name nothing and are passed over; a path that ends in `..`, or has no component at all,
/// has no file name.
pub open spec fn path_file_name(path: Seq<char>) -> Option<Seq<char>>
    decreases path.len(),
{
    let at = last_piece_at(path);
    let piece = path.skip(at as int);
    if piece.len() > 0 && piece != seq!['.'] {
        if piece == seq!['.', '.'] {
            None
        } else {
            Some(piece)
        }
    } else if 0 < at <= path.len() {
        path_file_name(path.take(at - 1))
    } else {
        None
    }
}

/// Whether `name` can name a file in a directory.
pub open spec fn plain_name(name: Seq<char>) -> bool {
    &&& name.len() > 0
    &&& !name.contains('/')
    &&& name != seq!['.']
    &&& name != seq!['.', '.']
}

/// `first_at` is the index of the first `sep`, or the length where there is none.
proof fn lemma_first_at(text: Seq<char>, sep: char, at: int)
    requires
        0 <= at <= text.len(),
        forall|j: int| 0 <= j < at ==> text[j] != sep,
        at < text.len() ==> text[at] == sep,
    ensures
        first_at(text, sep) == at,
    decreases text.len(),
{
    if at > 0 {
        lemma_first_at(text.drop_first(), sep, at - 1);
    }
}

/// No more characters stand before the first `sep` than there are.
pub proof fn lemma_first_at_bounded(text: Seq<char>, sep: char)
    ensures
        first_at(text, sep) <= text.len(),
    decreases text.len(),
{
    if text.len() > 0 && text[0] != sep {
        lemma_first_at_bounded(text.drop_first(), sep);
    }
}

/// Splits `text` at its first `sep`: what stands before it, and what stands after it if it occurs.
pub fn cut(text: &str, sep: char) -> (parts: (&str, Option<&str>))
    ensures
        parts.0@ == head(text@, sep),
        match parts.1 {
            Some(rest) => tail(text@, sep) == Some(rest@),
            None => tail(text@, sep) is None,
        },
{
    let len: usize = text.unicode_len();
    let mut at: usize = 0;
    for c in it: text.chars()
        invariant
            len == text@.len(),
            it.seq() == text@,
            at == it.index(),
            forall|j: int| 0 <= j < at ==> text@[j] != sep,
    {
        if c == sep {
            proof {
                lemma_first_at(text@, sep, at as int);
            }
            return (text.substring_char(0, at), Some(text.substring_char(at + 1, len)));
        }
        at += 1;
    }
    proof {
        lemma_first_at(text@, sep, at as int);
    }
    (text.substring_char(0, at), None)
}

/// Whether `c` has Unicode's `White_Space` property.
pub fn is_white_space(c: char) -> (white: bool)
    ensures
        white == white_space(c),
{
    ('\u{9}' <= c && c <= '\u{d}') || c == ' ' || c == '\u{85}' || c == '\u{a0}' || c == '\u{1680}'
        || ('\u{2000}' <= c && c <= '\u{200a}') || c == '\u{2028}' || c == '\u{2029}' || c
        == '\u{202f}' || c == '\u{205f}' || c == '\u{3000}'
}

proof fn lemma_trim_start(text: Seq<char>, from: int)
    requires
        0 <= from <= text.len(),
        forall|j: int| 0 <= j < from ==> white_space(#[trigger] text[j]),
        from < text.len() ==> !white_space(text[from]),
    ensures
        trim_start(text) == text.skip(from),
    decreases text.len(),
{
    if from > 0 {
        assert(white_space(text[0]));
        lemma_trim_start(text.drop_first(), from - 1);
        assert(text.drop_first().skip(from - 1) =~= text.skip(from));
    } else {
        assert(text.skip(0) =~= text);
    }
}

proof fn lemma_trim_end(text: Seq<char>, to: int)
    requires
        0 <= to <= text.len(),
        forall|j: int| to <= j < text.len() ==> white_space(#[trigger] text[j]),
        to > 0 ==> !white_space(text[to - 1]),
    ensures
        trim_end(text) == text.take(to),
    decreases text.len(),
{
    if to < text.len() {
        assert(white_space(text[text.len() - 1]));
        lemma_trim_end(text.drop_last(), to);
        assert(text.drop_last().take(to) =~= text.take(to));
    } else {
        assert(text.take(to) =~= text);
    }
}

/// `text` without the white space around it.
pub fn trim(text: &str) -> (inner: &str)
    ensures
        inner@ == trimmed(text@),
{
    let len: usize = text.unicode_len();
    let mut from: usize = 0;
    let mut to: usize = 0;
    let mut at: usize = 0;
    for c in it: text.chars()
        invariant
            len == text@.len(),
            it.seq() == text@,
            at == it.index(),
            from <= at,
            from <= to <= at,
            forall|j: int| 0 <= j < from ==> white_space(#[trigger] text@[j]),
            from < at ==> !white_space(text@[from as int]),
            forall|j: int| to <= j < at ==> white_space(#[trigger] text@[j]),
            from < to ==> !white_space(text@[to - 1]),
            from == to ==> from == at,
    {
        if is_white_space(c) {
            if from == at {
                from = at + 1;
                to = at + 1;
            }
        } else {
            to = at + 1;
        }
        at += 1;
    }
    proof {
        lemma_trim_start(text@, from as int);
        let rest = text@.skip(from as int);
        lemma_trim_end(rest, to - from);
        assert(rest.take(to - from) =~= text@.subrange(from as int, to as int));
    }
    text.substring_char(from, to)
}

proof fn lemma_digits_value_grows(text: Seq<char>, at: int)
    requires
        0 <= at <= text.len(),
        all_digits(text),
    ensures
        digits_value(text.take(at)) <= digits_value(text),
    decreases text.len() - at,
{
    if at < text.len() {
        assert(text.take(at + 1).drop_last() =~= text.take(at));
        lemma_digits_value_grows(text, at + 1);
    } else {
        assert(text.take(at) =~= text);
    }
}

/// Reads a decimal number that 32 bits hold: an optional `+`, then digits and nothing else.
pub fn parse_decimal(text: &str) -> (value: Option<u32>)
    ensures
        value == decimal_value(text@),
{
    let len: usize = text.unicode_len();
    if len == 0 {
        return None;
    }
    let skipped: usize = if text.get_char(0) == '+' { 1 } else { 0 };
    let digits = text.substring_char(skipped, len);
    proof {
        assert(text@.subrange(0, len as int) =~= text@);
        assert(text@.subrange(skipped as int, len as int) =~= text@.skip(skipped as int));
        assert(digits@.take(0).len() == 0);
    }
    let count: usize = digits.unicode_len();
    let mut value: u32 = 0;
    for c in it: digits.chars()
        invariant
            it.seq() == digits@,
            decimal_value(text@) == (if digits@.len() > 0 && all_digits(digits@) && digits_value(
                digits@,
            ) <= u32::MAX {
                Some(digits_value(digits@) as u32)
            } else {
                None
            }),
            all_digits(digits@.take(it.index() as int)),
            value == digits_value(digits@.take(it.index() as int)),
    {
        let ghost at = it.index() as int;
        let ghost next = digits@.take(at + 1);
        assert(next.drop_last() =~= digits@.take(at));
        assert(next.last() == c);
        if !('0' <= c && c <= '9') {
            assert(!all_digits(digits@)) by {
                assert(digits@[at] == c);
            }
            return None;
        }
        let wide: u64 = 10 * (value as u64) + (c as u64 - '0' as u64);
        assert(wide == digits_value(next));
        if wide > u32::MAX as u64 {
            assert(!all_digits(digits@) || digits_value(digits@) > u32::MAX) by {
                if all_digits(digits@) {
                    lemma_digits_value_grows(digits@, at + 1);
                }
            }
            return None;
        }
        assert(all_digits(next)) by {
            assert forall|i: int| 0 <= i < next.len() implies '0' <= #[trigger] next[i] <= '9' by {
                if i < at {
                    assert(digits@.take(at)[i] == next[i]);
                }
            }
        }
        value = wide as u32;
    }
    proof {
        assert(digits@.take(digits@.len() as int) =~= digits@);
    }
    if count == 0 {
        None
    } else {
        Some(value)
    }
}

proof fn lemma_last_piece_at(path: Seq<char>, at: int)
    requires
        0 <= at <= path.len(),
        forall|j: int| at <= j < path.len() ==> path[j] != '/',
        at > 0 ==> path[at - 1] == '/',
    ensures
        last_piece_at(path) == at,
    decreases path.len(),
{
    if at < path.len() {
        assert(path[path.len() - 1] != '/');
        lemma_last_piece_at(path.drop_last(), at);
    }
}

/// The decimal digits of `n`, without leading zeros.
pub open spec fn decimal(n: nat) -> Seq<char>
    decreases n,
{
    let digit = ('0' as nat + n % 10) as char;
    if n < 10 {
        seq![digit]
    } else {
        decimal(n / 10).push(digit)
    }
}

/// The decimal digits of `n` stand for `n`.
pub proof fn lemma_decimal(n: nat)
    ensures
        decimal(n).len() > 0,
        all_digits(decimal(n)),
        digits_value(decimal(n)) == n,
        forall|c: char| !('0' <= c <= '9') ==> !#[trigger] decimal(n).contains(c),
    decreases n,
{
    let digit = ('0' as nat + n % 10) as char;
    if n < 10 {
        assert(decimal(n).drop_last() =~= Seq::empty());
        assert(digits_value(decimal(n).drop_last()) == 0);
        assert(decimal(n).last() == digit);
    } else {
        lemma_decimal(n / 10);
        assert(decimal(n).drop_last() =~= decimal(n / 10));
        assert forall|i: int| 0 <= i < decimal(n).len() implies '0' <= #[trigger] decimal(n)[i]
            <= '9' by {
            if i < decimal(n / 10).len() {
                assert(decimal(n)[i] == decimal(n / 10)[i]);
            }
        }
    }
}

/// Written in decimal, a number that 32 bits hold is read back, with or without the trimming.
pub proof fn lemma_decimal_trimmed(n: nat)
    requires
        n <= u32::MAX,
    ensures
        decimal_value(trimmed(decimal(n))) == Some(n as u32),
{
    lemma_decimal(n);
    let text = decimal(n);
    assert('0' <= text[0] <= '9');
    assert('0' <= text[text.len() - 1] <= '9');
    assert(trim_start(text) == text);
    assert(trim_end(text) == text);
}

/// A first field without the separator ends where the separator stands.
pub proof fn lemma_cut(first: Seq<char>, sep: char, rest: Seq<char>)
    requires
        !first.contains(sep),
    ensures
        head(first + seq![sep] + rest, sep) == first,
        tail(first + seq![sep] + rest, sep) == Some(rest),
{
    let text = first + seq![sep] + rest;
    assert forall|j: int| 0 <= j < first.len() implies text[j] != sep by {
        assert(first[j] != sep);
    }
    lemma_first_at(text, sep, first.len() as int);
    assert(text.take(first.len() as int) =~= first);
    assert(text.skip(first.len() as int + 1) =~= rest);
}

/// A text without the separator is its own and only field.
pub proof fn lemma_uncut(text: Seq<char>, sep: char)
    requires
        !text.contains(sep),
    ensures
        head(text, sep) == text,
        tail(text, sep) is None,
{
    assert forall|j: int| 0 <= j < text.len() implies text[j] != sep by {}
    lemma_first_at(text, sep, text.len() as int);
    assert(text.take(text.len() as int) =~= text);
}

/// A plain file name behind any directory is that path's file name, and a separator after it
/// changes nothing.
pub proof fn law_file_name_of_joined_path(dir: Seq<char>, name: Seq<char>)
    requires
        plain_name(name),
    ensures
        path_file_name(name) == Some(name),
        path_file_name(dir + seq!['/'] + name) == Some(name),
        path_file_name(dir + seq!['/'] + name + seq!['/']) == Some(name),
{
    assert forall|j: int| 0 <= j < name.len() implies name[j] != '/' by {}
    lemma_last_piece_at(name, 0);
    assert(name.skip(0) =~= name);
    let joined = dir + seq!['/'] + name;
    let at = dir.len() as int + 1;
    assert forall|j: int| at <= j < joined.len() implies joined[j] != '/' by {
        assert(joined[j] == name[j - at]);
    }
    lemma_last_piece_at(joined, at);
    assert(joined.skip(at) =~= name);
    let closed = joined + seq!['/'];
    lemma_last_piece_at(closed, closed.len() as int);
    assert(closed.skip(closed.len() as int) =~= Seq::empty());
    assert(closed.take(closed.len() - 1) =~= joined);
}

/// A file name is a plain name: never empty, never `.` or `..`, and without a separator in it.
pub proof fn law_file_name_is_plain(path: Seq<char>)
    ensures
        match path_file_name(path) {
            Some(name) => plain_name(name),
            None => true,
        },
    decreases path.len(),
{
    let at = last_piece_at(path);
    lemma_last_piece_has_no_separator(path);
    let piece = path.skip(at as int);
    if piece.len() > 0 && piece != seq!['.'] {
        assert forall|j: int| 0 <= j < piece.len() implies piece[j] != '/' by {
            assert(piece[j] == path[j + at]);
        }
    } else if 0 < at <= path.len() {
        law_file_name_is_plain(path.take(at - 1));
    }
}

proof fn lemma_last_piece_has_no_separator(path: Seq<char>)
    ensures
        last_piece_at(path) <= path.len(),
        forall|j: int| last_piece_at(path) <= j < path.len() ==> path[j] != '/',
    decreases path.len(),
{
    if path.len() > 0 && path.last() != '/' {
        let front = path.drop_last();
        lemma_last_piece_has_no_separator(front);
        assert forall|j: int| last_piece_at(path) <= j < path.len() implies path[j] != '/' by {
            if j < front.len() {
                assert(front[j] == path[j]);
            }
        }
    }
}

/// A cut takes out the first separator and nothing else: the first part holds none, and the parts
/// with the separator between them are the text. Without a separator the first part is all of it.
pub proof fn law_cut_takes_out_the_first_separator(
    text: &str,
    sep: char,
    parts: (&str, Option<&str>),
)
    requires
        call_ensures(cut, (text, sep), parts),
    ensures
        !parts.0@.contains(sep),
        parts.1 is None ==> parts.0@ == text@,
        parts.1 matches Some(rest) ==> parts.0@ + seq![sep] + rest@ == text@,
{
    lemma_first_at_bounded(text@, sep);
    lemma_first_at_is_first(text@, sep);
    let at = first_at(text@, sep) as int;
    if parts.1 is None {
        assert(text@.take(at) =~= text@);
    } else {
        assert(text@.take(at) + seq![sep] + text@.skip(at + 1) =~= text@);
    }
}

/// Nothing before the first `sep` is `sep`, and what stands there is.
proof fn lemma_first_at_is_first(text: Seq<char>, sep: char)
    ensures
        forall|j: int| 0 <= j < first_at(text, sep) ==> #[trigger] text[j] != sep,
        first_at(text, sep) < text.len() ==> text[first_at(text, sep) as int] == sep,
    decreases text.len(),
{
    if text.len() > 0 && text[0] != sep {
        let rest = text.drop_first();
        lemma_first_at_bounded(rest, sep);
        lemma_first_at_is_first(rest, sep);
        assert forall|j: int| 0 <= j < first_at(text, sep) implies #[trigger] text[j] != sep by {
            if j > 0 {
                assert(text[j] == rest[j - 1]);
            }
        }
    }
}

/// White space is what Unicode lists as such.
pub proof fn law_white_space_is_unicodes(c: char, white: bool)
    requires
        call_ensures(is_white_space, (c,), white),
    ensures
        white <==> {
            let n = c as u32;
            ||| n == 0x09 || n == 0x0a || n == 0x0b || n == 0x0c || n == 0x0d
            ||| n == 0x20 || n == 0x85 || n == 0xa0 || n == 0x1680
            ||| n == 0x2000 || n == 0x2001 || n == 0x2002 || n == 0x2003 || n == 0x2004
            ||| n == 0x2005 || n == 0x2006 || n == 0x2007 || n == 0x2008 || n == 0x2009
            ||| n == 0x200a || n == 0x2028 || n == 0x2029 || n == 0x202f || n == 0x205f
            ||| n == 0x3000
        },
{
}

/// Whether `text` is all white space.
pub open spec fn blank(text: Seq<char>) -> bool {
    forall|i: int| 0 <= i < text.len() ==> white_space(#[trigger] text[i])
}

proof fn lemma_trim_start_cuts_blank(text: Seq<char>) -> (cut: int)
    ensures
        0 <= cut <= text.len(),
        trim_start(text) == text.skip(cut),
        blank(text.take(cut)),
        cut < text.len() ==> !white_space(text[cut]),
    decreases text.len(),
{
    if text.len() > 0 && white_space(text[0]) {
        let rest = text.drop_first();
        let cut = lemma_trim_start_cuts_blank(rest);
        assert(rest.skip(cut) =~= text.skip(cut + 1));
        assert forall|i: int| 0 <= i < cut + 1 implies white_space(
            #[trigger] text.take(cut + 1)[i],
        ) by {
            if i > 0 {
                assert(rest.take(cut)[i - 1] == text[i]);
            }
        }
        cut + 1
    } else {
        assert(text.skip(0) =~= text);
        0
    }
}

proof fn lemma_trim_end_cuts_blank(text: Seq<char>) -> (keep: int)
    ensures
        0 <= keep <= text.len(),
        trim_end(text) == text.take(keep),
        blank(text.skip(keep)),
        keep > 0 ==> !white_space(text[keep - 1]),
    decreases text.len(),
{
    if text.len() > 0 && white_space(text.last()) {
        let front = text.drop_last();
        let keep = lemma_trim_end_cuts_blank(front);
        assert(front.take(keep) =~= text.take(keep));
        assert forall|i: int| 0 <= i < text.len() - keep implies white_space(
            #[trigger] text.skip(keep)[i],
        ) by {
            if i < front.len() - keep {
                assert(front.skip(keep)[i] == text[i + keep]);
            }
        }
        keep
    } else {
        assert(text.take(text.len() as int) =~= text);
        text.len() as int
    }
}

/// Trimming takes white space off both ends and nothing else: what is left has none at either end,
/// and the text is that with only white space around it.
pub proof fn law_trim_takes_off_blank_ends(text: &str, inner: &str) -> (ends: (
    Seq<char>,
    Seq<char>,
))
    requires
        call_ensures(trim, (text,), inner),
    ensures
        blank(ends.0),
        blank(ends.1),
        ends.0 + inner@ + ends.1 == text@,
        inner@.len() > 0 ==> !white_space(inner@[0]) && !white_space(inner@.last()),
{
    lemma_trimmed_ends(text@)
}

/// What trimming takes off is white space at the ends.
pub proof fn lemma_trimmed_ends(text: Seq<char>) -> (ends: (Seq<char>, Seq<char>))
    ensures
        blank(ends.0),
        blank(ends.1),
        ends.0 + trimmed(text) + ends.1 == text,
        trimmed(text).len() > 0 ==> !white_space(trimmed(text)[0]) && !white_space(
            trimmed(text).last(),
        ),
{
    let from = lemma_trim_start_cuts_blank(text);
    let rest = text.skip(from);
    let keep = lemma_trim_end_cuts_blank(rest);
    assert(text.take(from) + rest.take(keep) + rest.skip(keep) =~= text);
    (text.take(from), rest.skip(keep))
}

/// White space around a text makes no difference to what is left of it after trimming.
pub proof fn law_blank_ends_do_not_matter(before: Seq<char>, inner: Seq<char>, after: Seq<char>)
    requires
        blank(before),
        blank(after),
        inner.len() > 0,
        !white_space(inner[0]),
        !white_space(inner.last()),
    ensures
        trimmed(before + inner + after) == inner,
{
    let text = before + inner + after;
    assert forall|j: int| 0 <= j < before.len() implies white_space(#[trigger] text[j]) by {
        assert(text[j] == before[j]);
    }
    assert(text[before.len() as int] == inner[0]);
    lemma_trim_start(text, before.len() as int);
    let rest = text.skip(before.len() as int);
    assert(rest =~= inner + after);
    assert forall|j: int| inner.len() <= j < rest.len() implies white_space(#[trigger] rest[j]) by {
        assert(rest[j] == after[j - inner.len()]);
    }
    assert(rest[inner.len() - 1] == inner.last());
    lemma_trim_end(rest, inner.len() as int);
    assert(rest.take(inner.len() as int) =~= inner);
}

/// `count` zeros.
pub open spec fn zeros(count: nat) -> Seq<char> {
    Seq::new(count, |i: int| '0')
}

/// A number as it may be written: in decimal, behind any number of zeros and perhaps a `+`.
pub open spec fn written(plus: bool, count: nat, value: nat) -> Seq<char> {
    if plus {
        seq!['+'] + zeros(count) + decimal(value)
    } else {
        zeros(count) + decimal(value)
    }
}

proof fn lemma_zeros_add_nothing(count: nat, digits: Seq<char>)
    requires
        all_digits(digits),
    ensures
        all_digits(zeros(count) + digits),
        digits_value(zeros(count) + digits) == digits_value(digits),
    decreases count + digits.len(),
{
    let text = zeros(count) + digits;
    assert forall|i: int| 0 <= i < text.len() implies '0' <= #[trigger] text[i] <= '9' by {
        if i >= count {
            assert(text[i] == digits[i - count]);
        }
    }
    if digits.len() > 0 {
        assert forall|i: int| 0 <= i < digits.drop_last().len() implies '0'
            <= #[trigger] digits.drop_last()[i] <= '9' by {
            assert(digits.drop_last()[i] == digits[i]);
        }
        lemma_zeros_add_nothing(count, digits.drop_last());
        assert(text.drop_last() =~= zeros(count) + digits.drop_last());
    } else if count > 0 {
        lemma_zeros_add_nothing((count - 1) as nat, digits);
        assert(text.drop_last() =~= zeros((count - 1) as nat) + digits);
    }
}

proof fn lemma_digits_are_written(digits: Seq<char>) -> (count: nat)
    requires
        digits.len() > 0,
        all_digits(digits),
    ensures
        digits == zeros(count) + decimal(digits_value(digits)),
    decreases digits.len(),
{
    let last = digits.last();
    let front = digits.drop_last();
    assert('0' <= digits[digits.len() - 1] <= '9');
    let digit = (last as nat - '0' as nat) as nat;
    let value = digits_value(digits);
    assert forall|i: int| 0 <= i < front.len() implies '0' <= #[trigger] front[i] <= '9' by {
        assert(front[i] == digits[i]);
    }
    if front.len() == 0 {
        assert(digits_value(front) == 0);
        assert(decimal(value) =~= seq![last]);
        assert(digits =~= zeros(0) + decimal(value));
        0
    } else {
        let count = lemma_digits_are_written(front);
        let rest = digits_value(front);
        assert(value == 10 * rest + digit);
        if rest == 0 {
            assert(decimal(0) =~= seq!['0']);
            assert(decimal(value) =~= seq![last]);
            assert(digits =~= zeros(count + 1) + decimal(value)) by {
                assert(front =~= zeros(count + 1));
            }
            count + 1
        } else {
            assert(value / 10 == rest && value % 10 == digit);
            assert(decimal(value) =~= decimal(rest).push(last));
            assert(digits =~= front.push(last));
            assert(digits =~= zeros(count) + decimal(value));
            count
        }
    }
}

/// A number is read from every way of writing it.
pub proof fn law_written_numbers_are_read(
    text: &str,
    value: Option<u32>,
    plus: bool,
    count: nat,
    n: u32,
)
    requires
        call_ensures(parse_decimal, (text,), value),
        text@ == written(plus, count, n as nat),
    ensures
        value == Some(n),
{
    lemma_written(plus, count, n);
}

/// A way of writing a number stands for it, and has no white space at its ends.
pub proof fn lemma_written(plus: bool, count: nat, n: u32)
    ensures
        decimal_value(written(plus, count, n as nat)) == Some(n),
        written(plus, count, n as nat).len() > 0,
        !white_space(written(plus, count, n as nat)[0]),
        !white_space(written(plus, count, n as nat).last()),
{
    lemma_decimal(n as nat);
    let digits = zeros(count) + decimal(n as nat);
    lemma_zeros_add_nothing(count, decimal(n as nat));
    assert('0' <= digits[0] <= '9');
    assert('0' <= digits[digits.len() - 1] <= '9');
    let text = written(plus, count, n as nat);
    if plus {
        assert(text =~= seq!['+'] + digits);
        assert(text.skip(1) =~= digits);
        assert(text.last() == digits.last());
    }
}

/// Nothing else is read as a number: what is read is a way of writing it.
pub proof fn law_only_written_numbers_are_read(text: &str, value: Option<u32>) -> (way: (bool, nat))
    requires
        call_ensures(parse_decimal, (text,), value),
    ensures
        value matches Some(n) ==> text@ == written(way.0, way.1, n as nat),
{
    lemma_read_is_written(text@)
}

/// What stands for a number is a way of writing it.
pub proof fn lemma_read_is_written(text: Seq<char>) -> (way: (bool, nat))
    ensures
        decimal_value(text) matches Some(n) ==> text == written(way.0, way.1, n as nat),
{
    let plus = text.len() > 0 && text[0] == '+';
    if decimal_value(text) is Some {
        let digits = if plus {
            text.skip(1)
        } else {
            text
        };
        let count = lemma_digits_are_written(digits);
        if plus {
            assert(text =~= seq!['+'] + digits);
            assert(seq!['+'] + digits =~= seq!['+'] + zeros(count) + decimal(digits_value(digits)));
        }
        (plus, count)
    } else {
        (plus, 0)
    }
}

} // verus!
