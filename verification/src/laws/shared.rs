//! Text, numbers, identifiers, points in time and errors.

use vstd::prelude::*;
use vstd::string::*;

use crate::clock;
use crate::clock::UtcTime;
use crate::errors::{DomainError, ErrorKind};
use crate::identifier;
use crate::identifier::Uuid;
use crate::numbers;
use crate::text;
use crate::text::{
    chars_of, decimal_text, escape_html, same_text, signed_decimal_text, starts_with,
    tail_after_last, text_between, trim_end,
};

verus! {

// ── Numbers in writing ──────────────────────────────────────────────────────

/// The number that a row of decimal digits denotes.
pub open spec fn numeral_value(digits: Seq<char>) -> int
    decreases digits.len(),
{
    if digits.len() == 0 {
        0
    } else {
        10 * numeral_value(digits.drop_last()) + (digits.last() as int - '0' as int)
    }
}

/// The text is a number in decimal notation: at least one digit, nothing else,
/// and no nought in front of other digits.
pub open spec fn is_numeral(digits: Seq<char>) -> bool {
    &&& digits.len() >= 1
    &&& forall|i: int| 0 <= i < digits.len() ==> '0' <= #[trigger] digits[i] <= '9'
    &&& digits.len() > 1 ==> digits[0] != '0'
}

/// The decimal notation of a number denotes that number.
pub proof fn law_decimal_denotes_its_number(n: nat)
    ensures
        is_numeral(text::decimal(n)),
        numeral_value(text::decimal(n)) == n,
        n > 0 ==> text::decimal(n)[0] != '0',
    decreases n,
{
    if n < 10 {
        let one = seq![text::decimal_digit(n)];
        assert(text::decimal(n) =~= one);
        assert(one.drop_last() =~= Seq::<char>::empty());
        assert(numeral_value(one.drop_last()) == 0);
        assert(one.last() as int - '0' as int == n);
    } else {
        law_decimal_denotes_its_number(n / 10);
        let head = text::decimal(n / 10);
        let whole = text::decimal(n);
        assert(whole == head.push(text::decimal_digit(n % 10)));
        assert(whole.drop_last() =~= head);
        assert(whole[0] == head[0]);
    }
}

/// What is written for a number denotes that number, so that different numbers
/// are written differently.
pub proof fn law_numbers_are_written_in_decimal(n: u128, text: String, m: u128, other: String)
    requires
        call_ensures(decimal_text, (n,), text),
        call_ensures(decimal_text, (m,), other),
    ensures
        is_numeral(text@),
        numeral_value(text@) == n,
        text@ == other@ <==> n == m,
{
    law_decimal_denotes_its_number(n as nat);
    law_decimal_denotes_its_number(m as nat);
}

/// The notation of a number with a sign is that of its magnitude, behind a
/// minus sign exactly where it is negative.
pub proof fn law_signed_decimal_denotes_its_number(n: int)
    ensures
        n >= 0 ==> is_numeral(text::signed_decimal(n)) && numeral_value(text::signed_decimal(n))
            == n,
        n < 0 ==> {
            &&& text::signed_decimal(n).len() >= 2
            &&& text::signed_decimal(n)[0] == '-'
            &&& is_numeral(text::signed_decimal(n).skip(1))
            &&& numeral_value(text::signed_decimal(n).skip(1)) == -n
        },
{
    if n < 0 {
        law_decimal_denotes_its_number((-n) as nat);
        assert(text::signed_decimal(n).skip(1) =~= text::decimal((-n) as nat));
    } else {
        law_decimal_denotes_its_number(n as nat);
    }
}

/// Different numbers have different notations.
pub proof fn law_signed_decimals_differ(n: int, m: int)
    ensures
        text::signed_decimal(n) == text::signed_decimal(m) <==> n == m,
{
    law_signed_decimal_denotes_its_number(n);
    law_signed_decimal_denotes_its_number(m);
    if n >= 0 {
        assert('0' <= text::signed_decimal(n)[0]);
    }
    if m >= 0 {
        assert('0' <= text::signed_decimal(m)[0]);
    }
}

/// What is written for a number with a sign denotes that number.
pub proof fn law_signed_numbers_are_written_in_decimal(
    n: i64,
    text: String,
    m: i64,
    other: String,
)
    requires
        call_ensures(signed_decimal_text, (n,), text),
        call_ensures(signed_decimal_text, (m,), other),
    ensures
        n >= 0 ==> is_numeral(text@) && numeral_value(text@) == n,
        n < 0 ==> text@.len() >= 2 && text@[0] == '-' && is_numeral(text@.skip(1))
            && numeral_value(text@.skip(1)) == -n,
        text@ == other@ <==> n == m,
{
    law_signed_decimal_denotes_its_number(n as int);
    law_signed_decimals_differ(n as int, m as int);
}

// ── Numbers taken with and without a sign ───────────────────────────────────

/// A number taken with another sign differs by whole turns of its width only,
/// and is in the range of its new type.
pub proof fn law_signs_change_by_whole_turns(a: u32, b: u64, c: i64)
    ensures
        (a - numbers::signed_32(a)) % 0x1_0000_0000 == 0,
        -0x8000_0000 <= numbers::signed_32(a) < 0x8000_0000,
        (b - numbers::signed_64(b)) % 0x1_0000_0000_0000_0000 == 0,
        -0x8000_0000_0000_0000 <= numbers::signed_64(b) < 0x8000_0000_0000_0000,
        (numbers::unsigned_64(c) - c) % 0x1_0000_0000_0000_0000 == 0,
        0 <= numbers::unsigned_64(c) < 0x1_0000_0000_0000_0000,
{
}

// ── Text ────────────────────────────────────────────────────────────────────

/// Escaping goes character by character: the escaped form of two texts in a row
/// is their escaped forms in a row, and that of one character is an entity for
/// `&`, `<`, `>` and `"` and the character itself for any other.
pub proof fn law_escaping_goes_by_characters(
    a: &str,
    safe_a: String,
    b: &str,
    safe_b: String,
    both: &str,
    safe_both: String,
)
    requires
        call_ensures(escape_html, (a,), safe_a),
        call_ensures(escape_html, (b,), safe_b),
        call_ensures(escape_html, (both,), safe_both),
        both@ == a@ + b@,
    ensures
        safe_both@ == safe_a@ + safe_b@,
        a@.len() == 0 ==> safe_a@.len() == 0,
        a@.len() == 1 ==> safe_a@ == (if a@[0] == '&' {
            "&amp;"@
        } else if a@[0] == '<' {
            "&lt;"@
        } else if a@[0] == '>' {
            "&gt;"@
        } else if a@[0] == '"' {
            "&quot;"@
        } else {
            a@
        }),
        !safe_a@.contains('<') && !safe_a@.contains('>') && !safe_a@.contains('"'),
{
    law_escaped_texts_join(a@, b@);
    text::law_escaped_text_is_inert(a@);
    if a@.len() == 1 {
        assert(a@.drop_last() =~= Seq::<char>::empty());
        assert(text::html_escaped(a@.drop_last()) =~= Seq::<char>::empty());
        assert(text::html_escaped(a@) =~= text::html_entity(a@[0]));
        assert(a@ =~= seq![a@[0]]);
    }
}

/// The escaped form of two texts in a row is their escaped forms in a row, and
/// that of one character is an entity or the character itself.
pub proof fn law_escaped_texts_join(a: Seq<char>, b: Seq<char>)
    ensures
        text::html_escaped(a + b) == text::html_escaped(a) + text::html_escaped(b),
    decreases b.len(),
{
    if b.len() == 0 {
        assert(a + b =~= a);
        assert(text::html_escaped(a) + text::html_escaped(b) =~= text::html_escaped(a));
    } else {
        law_escaped_texts_join(a, b.drop_last());
        assert((a + b).drop_last() =~= a + b.drop_last());
        assert((a + b).last() == b.last());
        assert(text::html_escaped(a + b) =~= text::html_escaped(a) + text::html_escaped(b));
    }
}

/// The escaped form of each character, written out.
pub proof fn law_escaped_characters(c: char)
    ensures
        text::html_escaped(seq![c]) == (if c == '&' {
            "&amp;"@
        } else if c == '<' {
            "&lt;"@
        } else if c == '>' {
            "&gt;"@
        } else if c == '"' {
            "&quot;"@
        } else {
            seq![c]
        }),
        text::html_escaped(Seq::empty()) == Seq::<char>::empty(),
{
    let one = seq![c];
    assert(one.drop_last() =~= Seq::<char>::empty());
    assert(text::html_escaped(one) =~= text::html_escaped(one.drop_last()) + text::html_entity(c));
}

/// Trimming takes away a run of that character at the end, and all of it.
pub proof fn law_trimming_takes_the_whole_run(text: &str, c: char, trimmed: String)
    requires
        call_ensures(trim_end, (text, c), trimmed),
    ensures
        trimmed@.len() <= text@.len(),
        text@.take(trimmed@.len() as int) == trimmed@,
        forall|i: int| trimmed@.len() <= i < text@.len() ==> #[trigger] text@[i] == c,
        trimmed@.len() > 0 ==> trimmed@.last() != c,
{
    law_trimmed_text(text@, c);
}

/// The same of the text without such a run.
pub proof fn law_trimmed_text(text: Seq<char>, c: char)
    ensures
        text::without_trailing(text, c).len() <= text.len(),
        text.take(text::without_trailing(text, c).len() as int) == text::without_trailing(text, c),
        forall|i: int|
            text::without_trailing(text, c).len() <= i < text.len() ==> #[trigger] text[i] == c,
        text::without_trailing(text, c).len() > 0 ==> text::without_trailing(text, c).last() != c,
    decreases text.len(),
{
    let trimmed = text::without_trailing(text, c);
    if text.len() > 0 && text.last() == c {
        law_trimmed_text(text.drop_last(), c);
        assert(text.take(trimmed.len() as int) =~= text.drop_last().take(trimmed.len() as int));
        assert forall|i: int| trimmed.len() <= i < text.len() implies #[trigger] text[i] == c by {
            if i < text.len() - 1 {
                assert(text.drop_last()[i] == c);
            }
        }
    } else {
        assert(text.take(text.len() as int) =~= text);
    }
}

/// What stands behind the last such character holds none, and it is either the
/// whole text, which then holds none, or stands directly behind one.
pub proof fn law_tail_stands_behind_the_last(text: &str, c: char, tail: String)
    requires
        call_ensures(tail_after_last, (text, c), tail),
    ensures
        !tail@.contains(c),
        tail@.len() <= text@.len(),
        text@.skip(text@.len() - tail@.len()) == tail@,
        tail@.len() < text@.len() ==> text@[text@.len() - tail@.len() - 1] == c,
{
    law_after_last(text@, c);
}

/// The same of what stands behind the last such character.
pub proof fn law_after_last(text: Seq<char>, c: char)
    ensures
        !text::after_last(text, c).contains(c),
        text::after_last(text, c).len() <= text.len(),
        text.skip(text.len() - text::after_last(text, c).len()) == text::after_last(text, c),
        text::after_last(text, c).len() < text.len() ==> text[text.len() - text::after_last(
            text,
            c,
        ).len() - 1] == c,
    decreases text.len(),
{
    let tail = text::after_last(text, c);
    if text.len() == 0 || text.last() == c {
        assert(text.skip(text.len() as int) =~= Seq::<char>::empty());
    } else {
        law_after_last(text.drop_last(), c);
        let before = text::after_last(text.drop_last(), c);
        assert(tail == before.push(text.last()));
        assert forall|i: int| 0 <= i < tail.len() implies tail[i] != c by {
            if i < before.len() {
                assert(before[i] != c) by {
                    assert(before.contains(before[i]));
                }
            }
        }
        let start = text.len() - tail.len();
        assert(text.drop_last().skip(start) =~= before);
        assert(text.skip(start) =~= tail) by {
            assert forall|i: int| 0 <= i < tail.len() implies text.skip(start)[i] == tail[i] by {
                if i < before.len() {
                    assert(text.drop_last().skip(start)[i] == before[i]);
                }
            }
        }
    }
}

/// A text begins with another exactly where something can be put behind the
/// other to make it.
pub proof fn law_prefixes(text: &str, prefix: &str, yes: bool)
    requires
        call_ensures(starts_with, (text, prefix), yes),
    ensures
        yes <==> exists|rest: Seq<char>| text@ == #[trigger] (prefix@ + rest),
{
    law_prefix(text@, prefix@);
}

/// The same of sequences.
pub proof fn law_prefix(text: Seq<char>, prefix: Seq<char>)
    ensures
        prefix.is_prefix_of(text) <==> exists|rest: Seq<char>| text == #[trigger] (prefix + rest),
{
    if prefix.is_prefix_of(text) {
        let rest = text.skip(prefix.len() as int);
        assert(text =~= prefix + rest) by {
            assert forall|i: int| 0 <= i < text.len() implies text[i] == (prefix + rest)[i] by {
                if i < prefix.len() {
                    assert(text.subrange(0, prefix.len() as int)[i] == text[i]);
                }
            }
        }
    }
    if exists|rest: Seq<char>| text == #[trigger] (prefix + rest) {
        let rest = choose|rest: Seq<char>| text == #[trigger] (prefix + rest);
        assert(text.subrange(0, prefix.len() as int) =~= prefix);
    }
}

/// Two texts are the same exactly where their characters are. The characters of
/// a text make it up again.
pub proof fn law_texts_are_their_characters(
    a: &str,
    b: &str,
    same: bool,
    chars: Vec<char>,
    whole: String,
    all: usize,
)
    requires
        call_ensures(same_text, (a, b), same),
        call_ensures(chars_of, (a,), chars),
        all == chars@.len(),
        call_ensures(text_between, (&chars, 0usize, all), whole),
    ensures
        same <==> a@ == b@,
        chars@ == a@,
        whole@ == a@,
{
    assert(chars@.subrange(0, all as int) =~= chars@);
}

/// The text between two positions holds the characters between them, in their
/// order.
pub proof fn law_texts_between_positions(
    chars: Vec<char>,
    start: usize,
    end: usize,
    text: String,
)
    requires
        start <= end <= chars@.len(),
        call_ensures(text_between, (&chars, start, end), text),
    ensures
        text@.len() == end - start,
        forall|i: int| 0 <= i < end - start ==> #[trigger] text@[i] == chars@[start + i],
{
}

// ── Identifiers and points in time ──────────────────────────────────────────

/// A text is read as the identifier that the `uuid` crate makes of it, if it
/// makes one.
pub proof fn law_identifiers_are_read(text: &str, parsed: Option<Uuid>)
    requires
        call_ensures(Uuid::parse, (text,), parsed),
    ensures
        match identifier::parsed_uuid(text@) {
            Some(value) => parsed is Some && parsed->0.value == value,
            None => parsed is None,
        },
{
}

/// The written form of an identifier is read back as that identifier, so that
/// different identifiers are written differently.
pub proof fn law_written_identifiers_are_read_back(
    id: Uuid,
    text: String,
    written: &str,
    parsed: Option<Uuid>,
    other: Uuid,
    other_text: String,
)
    requires
        call_ensures(Uuid::to_text, (&id,), text),
        written@ == text@,
        call_ensures(Uuid::parse, (written,), parsed),
        call_ensures(Uuid::to_text, (&other,), other_text),
    ensures
        parsed == Some(id),
        text@.len() == 36,
        text@[8] == '-' && text@[13] == '-' && text@[18] == '-' && text@[23] == '-',
        other_text@ == text@ ==> other == id,
{
    if other_text@ == text@ {
        assert(parsed == Some(Uuid { value: other.value }));
        assert(other == Uuid { value: other.value });
    }
    assert(id == Uuid { value: id.value });
}

/// A point in time is written as `chrono` writes it, and as nothing where that
/// has no form for it.
pub proof fn law_points_in_time_are_written(time: UtcTime, text: String)
    requires
        call_ensures(UtcTime::to_rfc3339, (&time,), text),
    ensures
        match clock::rfc3339(time.secs, time.nanos) {
            Some(form) => text@ == form,
            None => text@.len() == 0,
        },
{
}

// ── Errors ──────────────────────────────────────────────────────────────────

/// An error holds what it was made of.
pub proof fn law_errors_hold_what_they_report(
    kind: ErrorKind,
    entity: &str,
    message: String,
    error: DomainError,
    internal: DomainError,
    database: DomainError,
)
    requires
        call_ensures(DomainError::new, (kind, entity, message), error),
        call_ensures(DomainError::internal_error, (entity, message), internal),
        call_ensures(DomainError::database_error, (message,), database),
    ensures
        error.kind == kind && error.entity@ == entity@ && error.message@ == message@,
        internal.kind == ErrorKind::InternalError && internal.entity@ == entity@
            && internal.message@ == message@,
        database.kind == ErrorKind::DatabaseError && database.entity@ == "Database"@
            && database.message@ == message@,
{
}

/// The error has that kind, speaks of that entity and holds that message.
pub open spec fn reports(
    error: DomainError,
    kind: ErrorKind,
    entity: Seq<char>,
    message: Seq<char>,
) -> bool {
    &&& error.kind == kind
    &&& error.entity@ == entity
    &&& error.message@ == message
}

/// The texts between the same beginning and the same end are the same where the
/// whole texts are.
pub proof fn lemma_same_middle(head: Seq<char>, a: Seq<char>, b: Seq<char>, tail: Seq<char>)
    requires
        head + a + tail == head + b + tail,
    ensures
        a == b,
{
    let x = head + a + tail;
    let y = head + b + tail;
    assert(x.len() == head.len() + a.len() + tail.len());
    assert(y.len() == head.len() + b.len() + tail.len());
    assert(x.subrange(head.len() as int, (head.len() + a.len()) as int) =~= a);
    assert(y.subrange(head.len() as int, (head.len() + b.len()) as int) =~= b);
}

} // verus!
