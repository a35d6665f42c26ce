//! Text: comparing, cutting and writing out.

use vstd::prelude::*;
use vstd::string::*;

verus! {

/// `String::push` of the standard library puts the character behind the text.
pub assume_specification[ String::push ](s: &mut String, c: char)
    ensures
        final(s)@ == old(s)@.push(c),
;

/// What `str::to_lowercase` of the standard library returns for a text.
pub uninterp spec fn lowercased(text: Seq<char>) -> Seq<char>;

/// Calls `str::to_lowercase` of the standard library, which maps a text to
/// its lowercase equivalent by the rules of Unicode. Those rules are not
/// written out here.
#[verifier::external_body]
pub(crate) fn to_lowercase(text: &str) -> (lower: String)
    ensures
        lower@ == lowercased(text@),
{
    text.to_lowercase()
}

/// Whether two texts are equal.
pub fn same_text(a: &str, b: &str) -> (same: bool)
    ensures
        same == (a@ == b@),
{
    a.to_owned() == b.to_owned()
}

/// The characters of a text.
pub fn chars_of(text: &str) -> (chars: Vec<char>)
    ensures
        chars@ == text@,
{
    let mut chars: Vec<char> = Vec::new();
    for c in iter: text.chars()
        invariant
            iter.seq() == text@,
            chars@ == text@.take(iter.index()),
    {
        proof {
            assert(text@.take(iter.index() + 1) =~= text@.take(iter.index()).push(
                text@[iter.index()],
            ));
        }
        chars.push(c);
    }
    proof {
        assert(text@.take(text@.len() as int) =~= text@);
    }
    chars
}

/// The text made of the characters from `start` up to `end`.
pub fn text_between(chars: &Vec<char>, start: usize, end: usize) -> (text: String)
    requires
        start <= end <= chars@.len(),
    ensures
        text@ == chars@.subrange(start as int, end as int),
{
    let mut text = String::new();
    let mut i: usize = start;
    while i < end
        invariant
            start <= i <= end <= chars@.len(),
            text@ == chars@.subrange(start as int, i as int),
        decreases end - i,
    {
        proof {
            assert(chars@.subrange(start as int, i + 1) =~= chars@.subrange(
                start as int,
                i as int,
            ).push(chars@[i as int]));
        }
        text.push(chars[i]);
        i += 1;
    }
    text
}

/// Whether `text` begins with `prefix`.
pub fn starts_with(text: &str, prefix: &str) -> (yes: bool)
    ensures
        yes == prefix@.is_prefix_of(text@),
{
    let whole = chars_of(text);
    let head = chars_of(prefix);
    if head.len() > whole.len() {
        return false;
    }
    let mut i: usize = 0;
    while i < head.len()
        invariant
            i <= head@.len() <= whole@.len(),
            whole@ == text@,
            head@ == prefix@,
            forall|j: int| 0 <= j < i ==> head@[j] == whole@[j],
        decreases head@.len() - i,
    {
        if head[i] != whole[i] {
            proof {
                assert(whole@.subrange(0, head@.len() as int)[i as int] == whole@[i as int]);
            }
            return false;
        }
        i += 1;
    }
    proof {
        assert(head@ =~= whole@.subrange(0, head@.len() as int));
    }
    true
}

/// `text` without the run of `c` at its end.
pub open spec fn without_trailing(text: Seq<char>, c: char) -> Seq<char>
    decreases text.len(),
{
    if text.len() > 0 && text.last() == c {
        without_trailing(text.drop_last(), c)
    } else {
        text
    }
}

/// `text` without the run of `c` at its end.
pub fn trim_end(text: &str, c: char) -> (trimmed: String)
    ensures
        trimmed@ == without_trailing(text@, c),
{
    let chars = chars_of(text);
    let mut end: usize = chars.len();
    proof {
        assert(chars@.take(end as int) =~= text@);
    }
    while end > 0 && chars[end - 1] == c
        invariant
            end <= chars@.len(),
            without_trailing(chars@.take(end as int), c) == without_trailing(text@, c),
        decreases end,
    {
        proof {
            assert(chars@.take(end as int).drop_last() =~= chars@.take(end - 1));
            assert(chars@.take(end as int).last() == chars@[end - 1]);
        }
        end -= 1;
    }
    proof {
        assert(chars@.take(end as int) =~= chars@.subrange(0, end as int));
        if end > 0 {
            assert(chars@.take(end as int).last() == chars@[end - 1]);
        }
    }
    text_between(&chars, 0, end)
}

/// What stands behind the last `c` of `text`; all of `text` where it holds
/// no `c`.
pub open spec fn after_last(text: Seq<char>, c: char) -> Seq<char>
    decreases text.len(),
{
    if text.len() == 0 || text.last() == c {
        Seq::empty()
    } else {
        after_last(text.drop_last(), c).push(text.last())
    }
}

proof fn lemma_after_last_is_tail(text: Seq<char>, c: char, start: int)
    requires
        0 <= start <= text.len(),
        forall|i: int| start <= i < text.len() ==> text[i] != c,
        start == 0 || text[start - 1] == c,
    ensures
        after_last(text, c) == text.subrange(start, text.len() as int),
    decreases text.len(),
{
    if start < text.len() {
        lemma_after_last_is_tail(text.drop_last(), c, start);
        assert(text.subrange(start, text.len() as int) =~= text.drop_last().subrange(
            start,
            text.len() - 1,
        ).push(text.last()));
    } else {
        assert(text.subrange(start, text.len() as int) =~= Seq::<char>::empty());
    }
}

/// What stands behind the last `c` of `text`; all of `text` where it holds
/// no `c`.
pub fn tail_after_last(text: &str, c: char) -> (tail: String)
    ensures
        tail@ == after_last(text@, c),
{
    let chars = chars_of(text);
    let mut start: usize = chars.len();
    while start > 0 && chars[start - 1] != c
        invariant
            start <= chars@.len(),
            chars@ == text@,
            forall|i: int| start <= i < chars@.len() ==> chars@[i] != c,
        decreases start,
    {
        start -= 1;
    }
    proof {
        lemma_after_last_is_tail(text@, c, start as int);
    }
    text_between(&chars, start, chars.len())
}

/// The decimal digit for a number below ten.
pub open spec fn decimal_digit(d: nat) -> char {
    if d == 0 {
        '0'
    } else if d == 1 {
        '1'
    } else if d == 2 {
        '2'
    } else if d == 3 {
        '3'
    } else if d == 4 {
        '4'
    } else if d == 5 {
        '5'
    } else if d == 6 {
        '6'
    } else if d == 7 {
        '7'
    } else if d == 8 {
        '8'
    } else {
        '9'
    }
}

/// A number in decimal notation, without leading zeros.
pub open spec fn decimal(n: nat) -> Seq<char>
    decreases n,
{
    if n < 10 {
        seq![decimal_digit(n)]
    } else {
        decimal(n / 10).push(decimal_digit(n % 10))
    }
}

/// A number in decimal notation, with a leading minus sign where it is
/// negative.
pub open spec fn signed_decimal(n: int) -> Seq<char> {
    if n < 0 {
        seq!['-'] + decimal((-n) as nat)
    } else {
        decimal(n as nat)
    }
}

fn digit_char(d: u128) -> (c: char)
    requires
        d < 10,
    ensures
        c == decimal_digit(d as nat),
{
    if d == 0 {
        '0'
    } else if d == 1 {
        '1'
    } else if d == 2 {
        '2'
    } else if d == 3 {
        '3'
    } else if d == 4 {
        '4'
    } else if d == 5 {
        '5'
    } else if d == 6 {
        '6'
    } else if d == 7 {
        '7'
    } else if d == 8 {
        '8'
    } else {
        '9'
    }
}

/// Writes a number in decimal notation.
pub fn decimal_text(n: u128) -> (text: String)
    ensures
        text@ == decimal(n as nat),
    decreases n,
{
    if n < 10 {
        let mut text = String::new();
        text.push(digit_char(n));
        proof {
            assert(text@ =~= seq![decimal_digit(n as nat)]);
        }
        text
    } else {
        let mut text = decimal_text(n / 10);
        text.push(digit_char(n % 10));
        text
    }
}

/// Writes a signed number in decimal notation.
pub fn signed_decimal_text(n: i64) -> (text: String)
    ensures
        text@ == signed_decimal(n as int),
{
    if n < 0 {
        let mut text = String::new();
        text.push('-');
        let magnitude: u128 = (-(n as i128)) as u128;
        proof {
            assert(text@ =~= seq!['-']);
        }
        text.concat(decimal_text(magnitude).as_str())
    } else {
        decimal_text(n as u128)
    }
}

/// What stands for a character in HTML text and in double-quoted attribute
/// values.
pub open spec fn html_entity(c: char) -> Seq<char> {
    if c == '&' {
        "&amp;"@
    } else if c == '<' {
        "&lt;"@
    } else if c == '>' {
        "&gt;"@
    } else if c == '"' {
        "&quot;"@
    } else {
        seq![c]
    }
}

/// `text` with each of its markup characters replaced by its entity.
pub open spec fn html_escaped(text: Seq<char>) -> Seq<char>
    decreases text.len(),
{
    if text.len() == 0 {
        Seq::empty()
    } else {
        html_escaped(text.drop_last()) + html_entity(text.last())
    }
}

/// Replaces the markup characters `&`, `<`, `>` and `"` by their entities.
pub fn escape_html(text: &str) -> (safe: String)
    ensures
        safe@ == html_escaped(text@),
{
    let chars = chars_of(text);
    let mut safe = String::new();
    let mut i: usize = 0;
    while i < chars.len()
        invariant
            i <= chars@.len(),
            safe@ == html_escaped(chars@.take(i as int)),
        decreases chars@.len() - i,
    {
        let c = chars[i];
        let ghost before = safe@;
        if c == '&' {
            safe.append("&amp;");
        } else if c == '<' {
            safe.append("&lt;");
        } else if c == '>' {
            safe.append("&gt;");
        } else if c == '"' {
            safe.append("&quot;");
        } else {
            safe.push(c);
            proof {
                assert(before.push(c) =~= before + seq![c]);
            }
        }
        proof {
            assert(chars@.take(i + 1).drop_last() =~= chars@.take(i as int));
            assert(chars@.take(i + 1).last() == c);
        }
        i += 1;
    }
    proof {
        assert(chars@.take(i as int) =~= chars@);
    }
    safe
}

/// Escaped text holds no `<`, no `>` and no `"`, so it can neither open a
/// tag nor end a quoted attribute value.
pub proof fn law_escaped_text_is_inert(text: Seq<char>)
    ensures
        !html_escaped(text).contains('<'),
        !html_escaped(text).contains('>'),
        !html_escaped(text).contains('"'),
    decreases text.len(),
{
    if text.len() > 0 {
        law_escaped_text_is_inert(text.drop_last());
        reveal_strlit("&amp;");
        reveal_strlit("&lt;");
        reveal_strlit("&gt;");
        reveal_strlit("&quot;");
        let head = html_escaped(text.drop_last());
        let tail = html_entity(text.last());
        assert forall|c: char| (head + tail).contains(c) implies head.contains(c)
            || tail.contains(c) by {
            let i = choose|i: int| 0 <= i < (head + tail).len() && (head + tail)[i] == c;
            if i < head.len() {
                assert(head[i] == c);
            } else {
                assert(tail[i - head.len()] == c);
            }
        }
        assert(!tail.contains('<') && !tail.contains('>') && !tail.contains('"'));
    }
}

} // verus!
