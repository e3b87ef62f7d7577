//! Text primitives shared by the decision modules.
//!
//! Everything here is stated over `Seq<char>`, the view of a string.

use vstd::prelude::*;
use vstd::string::*;

verus! {

/// `String::push` appends exactly the given character.
pub assume_specification[ String::push ](text: &mut String, c: char)
    ensures
        final(text)@ == old(text)@.push(c),
;

/// The characters of `text`, in order.
pub fn chars_of(text: &str) -> (r: Vec<char>)
    ensures
        r@ == text@,
{
    let mut out: Vec<char> = Vec::new();
    for c in iter: text.chars()
        invariant
            iter.seq() == text@,
            out@ == text@.take(iter.index() as int),
    {
        out.push(c);
        assert(text@.take(iter.index() as int + 1) =~= text@.take(iter.index() as int).push(c));
    }
    assert(text@.take(text@.len() as int) =~= text@);
    out
}

/// The string made of the given characters.
pub fn string_of(chars: &[char]) -> (r: String)
    ensures
        r@ == chars@,
{
    let mut out = String::new();
    let mut i: usize = 0;
    while i < chars.len()
        invariant
            i <= chars@.len(),
            out@ == chars@.take(i as int),
        decreases chars@.len() - i,
    {
        out.push(chars[i]);
        assert(chars@.take(i + 1) =~= chars@.take(i as int).push(chars@[i as int]));
        i = i + 1;
    }
    assert(chars@.take(chars@.len() as int) =~= chars@);
    out
}

/// Whether two strings hold the same text.
pub fn same_text(a: &str, b: &str) -> (r: bool)
    ensures
        r == (a@ == b@),
{
    let left = chars_of(a);
    let right = chars_of(b);
    if left.len() != right.len() {
        return false;
    }
    let mut i: usize = 0;
    while i < left.len()
        invariant
            left@ == a@,
            right@ == b@,
            left@.len() == right@.len(),
            i <= left@.len(),
            forall|k: int| 0 <= k < i ==> left@[k] == right@[k],
        decreases left@.len() - i,
    {
        if left[i] != right[i] {
            assert(a@[i as int] != b@[i as int]);
            return false;
        }
        i = i + 1;
    }
    assert(a@ =~= b@);
    true
}

/// Two texts joined end to end.
pub fn joined(a: &str, b: &str) -> (r: String)
    ensures
        r@ == a@ + b@,
{
    a.to_string().concat(b)
}

/// Three texts joined end to end.
pub fn joined3(a: &str, b: &str, c: &str) -> (r: String)
    ensures
        r@ == a@ + b@ + c@,
{
    a.to_string().concat(b).concat(c)
}

/// The lower-case form of an ASCII letter; every other character is itself.
pub open spec fn ascii_lower_char(c: char) -> char {
    if 'A' <= c <= 'Z' {
        (c as u32 + 32) as char
    } else {
        c
    }
}

/// `text` with every ASCII letter in lower case.
pub open spec fn ascii_lower(text: Seq<char>) -> Seq<char> {
    text.map_values(|c: char| ascii_lower_char(c))
}

fn lower_char(c: char) -> (r: char)
    ensures
        r == ascii_lower_char(c),
{
    if 'A' <= c && c <= 'Z' {
        let code: u8 = c as u8;
        (code + 32u8) as char
    } else {
        c
    }
}

/// The string with every ASCII letter in lower case.
pub fn to_ascii_lower(text: &str) -> (r: String)
    ensures
        r@ == ascii_lower(text@),
{
    let chars = chars_of(text);
    let mut out = String::new();
    let mut i: usize = 0;
    while i < chars.len()
        invariant
            chars@ == text@,
            i <= chars@.len(),
            out@ == ascii_lower(text@.take(i as int)),
        decreases chars@.len() - i,
    {
        out.push(lower_char(chars[i]));
        assert(ascii_lower(text@.take(i + 1)) =~= ascii_lower(text@.take(i as int)).push(
            ascii_lower_char(text@[i as int]),
        ));
        i = i + 1;
    }
    assert(text@.take(text@.len() as int) =~= text@);
    out
}

/// Whether two strings are equal once ASCII letters are in lower case.
pub fn same_text_ignoring_ascii_case(a: &str, b: &str) -> (r: bool)
    ensures
        r == (ascii_lower(a@) == ascii_lower(b@)),
{
    let left = to_ascii_lower(a);
    let right = to_ascii_lower(b);
    left == right
}

/// Lexicographic order of texts by code point: `a` comes strictly before `b`.
pub open spec fn text_before(a: Seq<char>, b: Seq<char>) -> bool
    decreases a.len(),
{
    if b.len() == 0 {
        false
    } else if a.len() == 0 {
        true
    } else if a[0] != b[0] {
        a[0] < b[0]
    } else {
        text_before(a.drop_first(), b.drop_first())
    }
}

/// Whether `a` comes strictly before `b` in lexicographic order.
pub fn precedes(a: &str, b: &str) -> (r: bool)
    ensures
        r == text_before(a@, b@),
{
    let left = chars_of(a);
    let right = chars_of(b);
    let mut i: usize = 0;
    assert(a@.skip(0) =~= a@);
    assert(b@.skip(0) =~= b@);
    while i < left.len() && i < right.len()
        invariant
            left@ == a@,
            right@ == b@,
            i <= left@.len(),
            i <= right@.len(),
            text_before(a@, b@) == text_before(a@.skip(i as int), b@.skip(i as int)),
        decreases left@.len() - i,
    {
        if left[i] != right[i] {
            return left[i] < right[i];
        }
        assert(a@.skip(i as int).drop_first() =~= a@.skip(i + 1));
        assert(b@.skip(i as int).drop_first() =~= b@.skip(i + 1));
        i = i + 1;
    }
    i < right.len()
}

/// No text comes before itself.
pub proof fn lemma_text_before_irreflexive(a: Seq<char>)
    ensures
        !text_before(a, a),
    decreases a.len(),
{
    if a.len() > 0 {
        lemma_text_before_irreflexive(a.drop_first());
    }
}

/// The order of texts is transitive.
pub proof fn lemma_text_before_transitive(a: Seq<char>, b: Seq<char>, c: Seq<char>)
    requires
        text_before(a, b),
        text_before(b, c),
    ensures
        text_before(a, c),
    decreases a.len(),
{
    if a.len() > 0 && a[0] == b[0] && b[0] == c[0] {
        lemma_text_before_transitive(a.drop_first(), b.drop_first(), c.drop_first());
    }
}

/// Of two different texts one comes before the other.
pub proof fn lemma_text_before_total(a: Seq<char>, b: Seq<char>)
    ensures
        a == b || text_before(a, b) || text_before(b, a),
    decreases a.len(),
{
    if a.len() == 0 || b.len() == 0 {
        if a.len() == 0 && b.len() == 0 {
            assert(a =~= b);
        }
    } else if a[0] == b[0] {
        lemma_text_before_total(a.drop_first(), b.drop_first());
        if a.drop_first() == b.drop_first() {
            assert(a =~= seq![a[0]] + a.drop_first());
            assert(b =~= seq![b[0]] + b.drop_first());
        }
    }
}

/// `text` without the run of `c` at its end.
pub open spec fn without_trailing(text: Seq<char>, c: char) -> Seq<char>
    decreases text.len(),
{
    if text.len() > 0 && text.last() == c {
        without_trailing(text.drop_last(), c)
    } else {
        text
    }
}

/// Drops the run of `c` at the end of `text`.
pub fn trim_trailing(text: &str, c: char) -> (r: String)
    ensures
        r@ == without_trailing(text@, c),
{
    let mut chars = chars_of(text);
    let mut end: usize = chars.len();
    assert(text@.take(end as int) =~= text@);
    while end > 0 && chars[end - 1] == c
        invariant
            chars@ == text@,
            end <= chars@.len(),
            without_trailing(text@, c) == without_trailing(text@.take(end as int), c),
        decreases end,
    {
        assert(text@.take(end as int).drop_last() =~= text@.take(end - 1));
        end = end - 1;
    }
    chars.truncate(end);
    assert(chars@ =~= text@.take(end as int));
    string_of(chars.as_slice())
}

/// A text without trailing `c` is left alone.
pub proof fn lemma_without_trailing_fixed(text: Seq<char>, c: char)
    ensures
        without_trailing(without_trailing(text, c), c) == without_trailing(text, c),
    decreases text.len(),
{
    if text.len() > 0 && text.last() == c {
        lemma_without_trailing_fixed(text.drop_last(), c);
    }
}

/// Whether a character is a control character: Unicode category Cc.
pub open spec fn is_control_char(c: char) -> bool {
    c as u32 <= 0x1f || 0x7f <= c as u32 <= 0x9f
}

/// Whether a character is white space: the Unicode property White_Space.
pub open spec fn is_white_space(c: char) -> bool {
    ||| 0x9 <= c as u32 <= 0xd
    ||| c as u32 == 0x20
    ||| c as u32 == 0x85
    ||| c as u32 == 0xa0
    ||| c as u32 == 0x1680
    ||| 0x2000 <= c as u32 <= 0x200a
    ||| c as u32 == 0x2028
    ||| c as u32 == 0x2029
    ||| c as u32 == 0x202f
    ||| c as u32 == 0x205f
    ||| c as u32 == 0x3000
}

/// Whether a character is white space.
pub fn white_space(c: char) -> (r: bool)
    ensures
        r == is_white_space(c),
{
    let code: u32 = c as u32;
    (0x9 <= code && code <= 0xd) || code == 0x20 || code == 0x85 || code == 0xa0 || code == 0x1680
        || (0x2000 <= code && code <= 0x200a) || code == 0x2028 || code == 0x2029 || code == 0x202f
        || code == 0x205f || code == 0x3000
}

/// The text with every control character replaced by a space, so that it can
/// neither forge a line nor steer a terminal. What the host holds safe to print is
/// defined elsewhere; this is how this library reads it.
pub open spec fn terminal_safe(text: Seq<char>) -> Seq<char> {
    text.map_values(
        |c: char|
            if is_control_char(c) {
                ' '
            } else {
                c
            },
    )
}

/// The text with every control character replaced by a space.
pub fn terminal_safe_text(text: &str) -> (r: String)
    ensures
        r@ == terminal_safe(text@),
{
    let chars = chars_of(text);
    let mut out = String::new();
    let mut i: usize = 0;
    assert(out@ =~= terminal_safe(text@.take(0)));
    while i < chars.len()
        invariant
            chars@ == text@,
            i <= chars@.len(),
            out@ == terminal_safe(text@.take(i as int)),
        decreases chars@.len() - i,
    {
        let code: u32 = chars[i] as u32;
        if code <= 0x1f || (0x7f <= code && code <= 0x9f) {
            out.push(' ');
        } else {
            out.push(chars[i]);
        }
        assert(out@ =~= terminal_safe(text@.take(i + 1)));
        i = i + 1;
    }
    assert(text@.take(text@.len() as int) =~= text@);
    out
}

/// The text without the white space at its start.
pub open spec fn trimmed_start(text: Seq<char>) -> Seq<char>
    decreases text.len(),
{
    if text.len() > 0 && is_white_space(text[0]) {
        trimmed_start(text.drop_first())
    } else {
        text
    }
}

/// The text without the white space at its end.
pub open spec fn trimmed_end(text: Seq<char>) -> Seq<char>
    decreases text.len(),
{
    if text.len() > 0 && is_white_space(text.last()) {
        trimmed_end(text.drop_last())
    } else {
        text
    }
}

/// The text without the white space at either end.
pub open spec fn trimmed(text: Seq<char>) -> Seq<char> {
    trimmed_end(trimmed_start(text))
}

/// The text without the white space at either end.
pub fn trim(text: &str) -> (r: String)
    ensures
        r@ == trimmed(text@),
{
    let chars = chars_of(text);
    let mut start: usize = 0;
    assert(text@.skip(0) =~= text@);
    while start < chars.len() && white_space(chars[start])
        invariant
            chars@ == text@,
            start <= chars@.len(),
            trimmed_start(text@) == trimmed_start(text@.skip(start as int)),
        ensures
            start <= chars@.len(),
            trimmed_start(text@) == text@.skip(start as int),
        decreases chars@.len() - start,
    {
        assert(text@.skip(start as int).drop_first() =~= text@.skip(start + 1));
        start = start + 1;
    }
    let ghost rest = text@.skip(start as int);
    let mut end: usize = chars.len();
    assert(rest.take(end - start) =~= rest);
    while end > start && white_space(chars[end - 1])
        invariant
            chars@ == text@,
            start <= end <= chars@.len(),
            rest == text@.skip(start as int),
            trimmed_end(rest) == trimmed_end(rest.take(end - start)),
        ensures
            start <= end <= chars@.len(),
            trimmed_end(rest) == rest.take(end - start),
        decreases end,
    {
        assert(rest.take(end - start).drop_last() =~= rest.take(end - 1 - start));
        end = end - 1;
    }
    let mut out = String::new();
    let mut i: usize = start;
    assert(out@ =~= rest.take(0));
    while i < end
        invariant
            chars@ == text@,
            start <= i <= end <= chars@.len(),
            rest == text@.skip(start as int),
            out@ == rest.take(i - start),
        decreases end - i,
    {
        out.push(chars[i]);
        assert(rest.take(i + 1 - start) =~= rest.take(i - start).push(rest[i - start]));
        i = i + 1;
    }
    out
}

/// The text with each occurrence of `from` replaced by `to`: from left to right,
/// none of them overlapping.
pub open spec fn replaced(text: Seq<char>, from: Seq<char>, to: Seq<char>) -> Seq<char>
    decreases text.len(),
{
    if from.len() == 0 || text.len() < from.len() {
        text
    } else if text.take(from.len() as int) == from {
        to + replaced(text.skip(from.len() as int), from, to)
    } else {
        seq![text[0]] + replaced(text.drop_first(), from, to)
    }
}

fn starts_at(chars: &Vec<char>, at: usize, wanted: &Vec<char>) -> (r: bool)
    requires
        at + wanted@.len() <= chars@.len(),
    ensures
        r == (chars@.subrange(at as int, at + wanted@.len()) == wanted@),
{
    let size: usize = chars.len();
    let mut i: usize = 0;
    while i < wanted.len()
        invariant
            at + wanted@.len() <= chars@.len() == size,
            i <= wanted@.len(),
            forall|k: int| 0 <= k < i ==> chars@[at + k] == wanted@[k],
        decreases wanted@.len() - i,
    {
        if chars[at + i] != wanted[i] {
            assert(chars@.subrange(at as int, at + wanted@.len())[i as int] != wanted@[i as int]);
            return false;
        }
        i = i + 1;
    }
    assert(chars@.subrange(at as int, at + wanted@.len()) =~= wanted@);
    true
}

/// The text with each occurrence of `from` replaced by `to`. An empty `from`
/// occurs nowhere.
pub fn replace_all(text: &str, from: &str, to: &str) -> (r: String)
    ensures
        r@ == replaced(text@, from@, to@),
{
    let chars = chars_of(text);
    let wanted = chars_of(from);
    if wanted.len() == 0 {
        return text.to_string();
    }
    let mut out = String::new();
    let mut at: usize = 0;
    assert(text@.skip(0) =~= text@);
    assert(out@ + replaced(text@, from@, to@) =~= replaced(text@, from@, to@));
    while chars.len() - at >= wanted.len()
        invariant
            chars@ == text@,
            wanted@ == from@,
            from@.len() > 0,
            at <= chars@.len(),
            replaced(text@, from@, to@) == out@ + replaced(text@.skip(at as int), from@, to@),
        decreases chars@.len() - at,
    {
        let ghost rest = text@.skip(at as int);
        assert(rest.take(from@.len() as int) =~= chars@.subrange(at as int, at + wanted@.len()));
        let ghost before = out@;
        if starts_at(&chars, at, &wanted) {
            out.append(to);
            assert(rest.skip(from@.len() as int) =~= text@.skip(at + from@.len()));
            assert(before + (to@ + replaced(text@.skip(at + from@.len()), from@, to@)) =~= out@
                + replaced(text@.skip(at + from@.len()), from@, to@));
            at = at + wanted.len();
        } else {
            out.push(chars[at]);
            assert(rest.drop_first() =~= text@.skip(at + 1));
            assert(before + (seq![rest[0]] + replaced(text@.skip(at + 1), from@, to@)) =~= out@
                + replaced(text@.skip(at + 1), from@, to@));
            at = at + 1;
        }
    }
    let mut i: usize = at;
    let ghost head = out@;
    let ghost rest = text@.skip(at as int);
    assert(head + rest.take(0) =~= head);
    while i < chars.len()
        invariant
            chars@ == text@,
            at <= i <= chars@.len(),
            rest == text@.skip(at as int),
            out@ == head + rest.take(i - at),
        decreases chars@.len() - i,
    {
        out.push(chars[i]);
        assert(head + rest.take(i + 1 - at) =~= (head + rest.take(i - at)).push(chars@[i as int]));
        i = i + 1;
    }
    assert(rest.take(rest.len() as int) =~= rest);
    out
}

/// The texts with `separator` between them.
pub open spec fn joined_with(texts: Seq<Seq<char>>, separator: Seq<char>) -> Seq<char>
    decreases texts.len(),
{
    if texts.len() == 0 {
        Seq::empty()
    } else if texts.len() == 1 {
        texts[0]
    } else {
        joined_with(texts.drop_last(), separator) + separator + texts.last()
    }
}

/// The texts with `separator` between them.
pub fn join(texts: &Vec<String>, separator: &str) -> (r: String)
    ensures
        r@ == joined_with(texts.deep_view(), separator@),
{
    let ghost views = texts.deep_view();
    let mut out = String::new();
    let mut i: usize = 0;
    assert(out@ =~= joined_with(views.take(0), separator@));
    while i < texts.len()
        invariant
            views == texts.deep_view(),
            i <= texts@.len(),
            out@ == joined_with(views.take(i as int), separator@),
        decreases texts@.len() - i,
    {
        proof {
            assert(views.take(i + 1).drop_last() =~= views.take(i as int));
            assert(views.take(i + 1).last() == texts@[i as int]@);
        }
        if i > 0 {
            out.append(separator);
        }
        out.append(texts[i].as_str());
        assert(i == 0 ==> out@ =~= texts@[0]@);
        i = i + 1;
    }
    assert(views.take(views.len() as int) =~= views);
    out
}

/// The decimal digit of a number below ten.
pub open spec fn digit(n: nat) -> char {
    (n + 0x30) as char
}

/// A number in decimal, without leading zeros.
pub open spec fn decimal(n: nat) -> Seq<char>
    decreases n,
{
    if n < 10 {
        seq![digit(n)]
    } else {
        decimal(n / 10).push(digit(n % 10))
    }
}

fn digit_char(n: usize) -> (r: char)
    requires
        n < 10,
    ensures
        r == digit(n as nat),
{
    let code: u8 = n as u8;
    (code + 0x30u8) as char
}

/// A number in decimal, without leading zeros.
pub fn decimal_text(n: usize) -> (r: String)
    ensures
        r@ == decimal(n as nat),
    decreases n,
{
    let mut out = if n < 10 {
        String::new()
    } else {
        decimal_text(n / 10)
    };
    out.push(digit_char(n % 10));
    assert(n < 10 ==> out@ =~= seq![digit(n as nat)]);
    out
}

/// Whether a text holds a character.
pub fn contains_char(text: &str, wanted: char) -> (r: bool)
    ensures
        r == text@.contains(wanted),
{
    let chars = chars_of(text);
    let mut i: usize = 0;
    while i < chars.len()
        invariant
            chars@ == text@,
            i <= chars@.len(),
            forall|k: int| 0 <= k < i ==> text@[k] != wanted,
        decreases chars@.len() - i,
    {
        if chars[i] == wanted {
            return true;
        }
        i = i + 1;
    }
    false
}

/// Whether a text holds white space.
pub fn contains_white_space(text: &str) -> (r: bool)
    ensures
        r == (exists|k: int| 0 <= k < text@.len() && is_white_space(#[trigger] text@[k])),
{
    let chars = chars_of(text);
    let mut i: usize = 0;
    while i < chars.len()
        invariant
            chars@ == text@,
            i <= chars@.len(),
            forall|k: int| 0 <= k < i ==> !is_white_space(#[trigger] text@[k]),
        decreases chars@.len() - i,
    {
        if white_space(chars[i]) {
            assert(is_white_space(text@[i as int]));
            return true;
        }
        i = i + 1;
    }
    false
}

/// A text made safe for the terminal holds no control character.
pub proof fn law_terminal_safe_text_holds_no_control_character(text: Seq<char>, at: int)
    requires
        0 <= at < text.len(),
    ensures
        terminal_safe(text).len() == text.len(),
        !is_control_char(terminal_safe(text)[at]),
        !is_control_char(text[at]) ==> terminal_safe(text)[at] == text[at],
{
}

/// Making a text safe twice is the same as making it safe once.
pub proof fn law_terminal_safe_text_is_fixed(text: Seq<char>)
    ensures
        terminal_safe(terminal_safe(text)) == terminal_safe(text),
{
    assert(terminal_safe(terminal_safe(text)) =~= terminal_safe(text));
}

/// The first character in which two texts differ decides their order; a text comes
/// before every longer one that it starts.
pub proof fn law_first_difference_decides_the_order(
    common: Seq<char>,
    left: Seq<char>,
    right: Seq<char>,
)
    requires
        right.len() > 0,
        left.len() > 0 ==> left[0] != right[0],
    ensures
        text_before(common + left, common + right) <==> left.len() == 0 || left[0] < right[0],
        !text_before(common + right, common),
    decreases common.len(),
{
    let a = common + left;
    let b = common + right;
    if common.len() > 0 {
        assert(a.drop_first() =~= common.drop_first() + left);
        assert(b.drop_first() =~= common.drop_first() + right);
        law_first_difference_decides_the_order(common.drop_first(), left, right);
    } else {
        assert(a =~= left);
        assert(b =~= right);
    }
}

/// Lower case changes the letters A to Z, each to the small letter at its place in the
/// alphabet, and no other character.
pub proof fn law_lower_case_changes_capital_letters_only(text: Seq<char>, at: int)
    requires
        0 <= at < text.len(),
    ensures
        ascii_lower(text).len() == text.len(),
        'A' <= text[at] <= 'Z' ==> ascii_lower(text)[at] as u32 - 'a' as u32 == text[at] as u32
            - 'A' as u32,
        !('A' <= text[at] <= 'Z') ==> ascii_lower(text)[at] == text[at],
{
}

/// Without the run of a character at its end a text is what stands before that run.
pub proof fn law_trailing_run_is_cut(text: Seq<char>, c: char)
    ensures
        ({
            let kept = without_trailing(text, c);
            &&& kept.len() <= text.len()
            &&& kept == text.take(kept.len() as int)
            &&& kept.len() > 0 ==> kept.last() != c
            &&& forall|k: int| kept.len() <= k < text.len() ==> #[trigger] text[k] == c
        }),
    decreases text.len(),
{
    if text.len() > 0 && text.last() == c {
        let rest = text.drop_last();
        law_trailing_run_is_cut(rest, c);
        let kept = without_trailing(text, c);
        assert(text.take(kept.len() as int) =~= rest.take(kept.len() as int));
        assert forall|k: int| kept.len() <= k < text.len() implies #[trigger] text[k] == c by {
            if k < rest.len() {
                assert(rest[k] == text[k]);
            }
        }
    } else {
        assert(text.take(text.len() as int) =~= text);
    }
}

/// The white space is what Unicode calls so.
pub proof fn law_white_space_is_that_of_unicode(c: char)
    ensures
        is_white_space(c) <==> {
            ||| c == '\t' || c == '\n' || c == '\u{b}' || c == '\u{c}' || c == '\r' || c == ' '
            ||| c == '\u{85}' || c == '\u{a0}' || c == '\u{1680}'
            ||| '\u{2000}' <= c <= '\u{200a}'
            ||| c == '\u{2028}' || c == '\u{2029}' || c == '\u{202f}' || c == '\u{205f}'
            ||| c == '\u{3000}'
        },
        is_control_char(c) <==> c <= '\u{1f}' || '\u{7f}' <= c <= '\u{9f}',
{
}

proof fn lemma_trimmed_start_cut(text: Seq<char>)
    ensures
        ({
            let kept = trimmed_start(text);
            let cut = text.len() - kept.len();
            &&& 0 <= cut
            &&& kept == text.skip(cut)
            &&& kept.len() > 0 ==> !is_white_space(kept[0])
            &&& forall|k: int| 0 <= k < cut ==> is_white_space(#[trigger] text[k])
        }),
    decreases text.len(),
{
    if text.len() > 0 && is_white_space(text[0]) {
        let rest = text.drop_first();
        lemma_trimmed_start_cut(rest);
        let cut = text.len() - trimmed_start(text).len();
        assert(text.skip(cut) =~= rest.skip(cut - 1));
        assert forall|k: int| 0 <= k < cut implies is_white_space(#[trigger] text[k]) by {
            if k > 0 {
                assert(rest[k - 1] == text[k]);
            }
        }
    } else {
        assert(text.skip(0) =~= text);
    }
}

proof fn lemma_trimmed_end_cut(text: Seq<char>)
    ensures
        ({
            let kept = trimmed_end(text);
            &&& kept.len() <= text.len()
            &&& kept == text.take(kept.len() as int)
            &&& kept.len() > 0 ==> !is_white_space(kept.last())
            &&& forall|k: int| kept.len() <= k < text.len() ==> is_white_space(#[trigger] text[k])
        }),
    decreases text.len(),
{
    if text.len() > 0 && is_white_space(text.last()) {
        let rest = text.drop_last();
        lemma_trimmed_end_cut(rest);
        let kept = trimmed_end(text);
        assert(text.take(kept.len() as int) =~= rest.take(kept.len() as int));
        assert forall|k: int| kept.len() <= k < text.len() implies is_white_space(
            #[trigger] text[k],
        ) by {
            if k < rest.len() {
                assert(rest[k] == text[k]);
            }
        }
    } else {
        assert(text.take(text.len() as int) =~= text);
    }
}

/// A trimmed text is the part between the first and the last character that is no
/// white space; a text of white space is trimmed to nothing.
pub proof fn law_trimming_cuts_white_space_at_both_ends(text: Seq<char>)
    ensures
        exists|from: int|
            0 <= from <= text.len() - trimmed(text).len() && trimmed(text) == #[trigger] text.subrange(
                from,
                from + trimmed(text).len(),
            ) && (forall|k: int| 0 <= k < from ==> is_white_space(#[trigger] text[k])) && (forall|
                k: int,
            |
                from + trimmed(text).len() <= k < text.len() ==> is_white_space(#[trigger] text[k])),
        trimmed(text).len() > 0 ==> !is_white_space(trimmed(text)[0]) && !is_white_space(
            trimmed(text).last(),
        ),
{
    let started = trimmed_start(text);
    let kept = trimmed(text);
    let from = text.len() - started.len();
    lemma_trimmed_start_cut(text);
    lemma_trimmed_end_cut(started);
    assert(kept =~= text.subrange(from, from + kept.len()));
    assert forall|k: int| from + kept.len() <= k < text.len() implies is_white_space(
        #[trigger] text[k],
    ) by {
        assert(started[k - from] == text[k]);
    }
}

/// Replacing takes each occurrence where the text starts with one, and passes over one
/// character where it does not.
pub proof fn law_replacing_goes_from_left_to_right(
    from: Seq<char>,
    to: Seq<char>,
    rest: Seq<char>,
    c: char,
)
    requires
        from.len() > 0,
    ensures
        replaced(from + rest, from, to) == to + replaced(rest, from, to),
        !from.is_prefix_of(seq![c] + rest) ==> replaced(seq![c] + rest, from, to) == seq![c]
            + replaced(rest, from, to),
        replaced(Seq::empty(), from, to).len() == 0,
{
    assert((from + rest).take(from.len() as int) =~= from);
    assert((from + rest).skip(from.len() as int) =~= rest);
    let other = seq![c] + rest;
    if !from.is_prefix_of(other) {
        assert(other.drop_first() =~= rest);
        if other.len() < from.len() {
            assert(replaced(rest, from, to) == rest);
        } else {
            if other.take(from.len() as int) == from {
                assert(from.is_prefix_of(other));
            }
        }
    }
}

/// Joined texts stand one after the other, with the separator between any two.
pub proof fn law_joining_puts_the_separator_between(
    texts: Seq<Seq<char>>,
    text: Seq<char>,
    separator: Seq<char>,
)
    ensures
        joined_with(Seq::empty(), separator).len() == 0,
        texts.len() == 0 ==> joined_with(texts.push(text), separator) == text,
        texts.len() > 0 ==> joined_with(texts.push(text), separator) == joined_with(
            texts,
            separator,
        ) + separator + text,
{
    assert(texts.push(text).drop_last() =~= texts);
}

/// The number that some decimal digits are read as.
pub open spec fn number_of(digits: Seq<char>) -> int
    decreases digits.len(),
{
    if digits.len() == 0 {
        0
    } else {
        10 * number_of(digits.drop_last()) + (digits.last() as u32 - '0' as u32)
    }
}

/// A number is written so that reading it gives the number back, in digits, and with no
/// zero before another digit.
pub proof fn law_decimal_is_read_back(n: nat)
    ensures
        decimal(n).len() > 0,
        number_of(decimal(n)) == n,
        forall|k: int| 0 <= k < decimal(n).len() ==> '0' <= #[trigger] decimal(n)[k] <= '9',
        n > 0 ==> decimal(n)[0] != '0',
    decreases n,
{
    if n < 10 {
        let digits = decimal(n);
        assert(digits.drop_last() =~= Seq::<char>::empty());
        assert(number_of(Seq::<char>::empty()) == 0);
    } else {
        law_decimal_is_read_back(n / 10);
        assert(decimal(n).drop_last() =~= decimal(n / 10));
    }
}

/// A control character is printed as a space.
pub proof fn law_control_characters_become_spaces(text: Seq<char>, at: int)
    requires
        0 <= at < text.len(),
        text[at] <= '\u{1f}' || '\u{7f}' <= text[at] <= '\u{9f}',
    ensures
        terminal_safe(text)[at] == ' ',
{
    law_white_space_is_that_of_unicode(text[at]);
}

} // verus!
