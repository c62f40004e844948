//! White space around text, and numbers as text.
use vstd::prelude::*;
use vstd::string::StrSliceExecFns;
use vstd::string::StringExecFns;

verus! {

/// Whether a character has the Unicode property `White_Space`.
pub open spec fn is_white_space(c: char) -> bool {
    let code = c as u32;
    ||| 0x9 <= code <= 0xd
    ||| code == 0x20
    ||| code == 0x85
    ||| code == 0xa0
    ||| code == 0x1680
    ||| 0x2000 <= code <= 0x200a
    ||| code == 0x2028
    ||| code == 0x2029
    ||| code == 0x202f
    ||| code == 0x205f
    ||| code == 0x3000
}

/// `text` from its first character that is not white space on.
pub open spec fn trimmed_start(text: Seq<char>) -> Seq<char>
    decreases text.len(),
{
    if text.len() > 0 && is_white_space(text[0]) {
        trimmed_start(text.subrange(1, text.len() as int))
    } else {
        text
    }
}

/// `text` up to its last character that is not white space.
pub open spec fn trimmed_end(text: Seq<char>) -> Seq<char>
    decreases text.len(),
{
    if text.len() > 0 && is_white_space(text.last()) {
        trimmed_end(text.drop_last())
    } else {
        text
    }
}

/// `text` without the white space at either end.
pub open spec fn trimmed(text: Seq<char>) -> Seq<char> {
    trimmed_end(trimmed_start(text))
}

/// Whether `text` consists of white space only.
pub open spec fn is_blank(text: Seq<char>) -> bool {
    forall|i: int| 0 <= i < text.len() ==> is_white_space(#[trigger] text[i])
}

fn white_space(c: char) -> (white: bool)
    ensures
        white == is_white_space(c),
{
    let code: u32 = c as u32;
    (0x9 <= code && code <= 0xd) || code == 0x20 || code == 0x85 || code == 0xa0 || code == 0x1680
        || (0x2000 <= code && code <= 0x200a) || code == 0x2028 || code == 0x2029 || code == 0x202f
        || code == 0x205f || code == 0x3000
}

/// The text without the white space at either end.
pub fn trim(text: &str) -> (result: String)
    ensures
        result@ == trimmed(text@),
{
    let len: usize = text.unicode_len();
    let mut start: usize = 0;
    assert(text@.subrange(0, len as int) =~= text@);
    while start < len && white_space(text.get_char(start))
        invariant
            start <= len,
            len == text@.len(),
            trimmed_start(text@) == trimmed_start(text@.subrange(start as int, len as int)),
        ensures
            start <= len,
            trimmed_start(text@) == trimmed_start(text@.subrange(start as int, len as int)),
            start < len ==> !is_white_space(text@[start as int]),
        decreases len - start,
    {
        proof {
            let rest = text@.subrange(start as int, len as int);
            assert(rest.subrange(1, rest.len() as int) =~= text@.subrange(
                start as int + 1,
                len as int,
            ));
        }
        start = start + 1;
    }
    let ghost rest = text@.subrange(start as int, len as int);
    let mut end: usize = len;
    while end > start && white_space(text.get_char(end - 1))
        invariant
            start <= end <= len,
            len == text@.len(),
            trimmed_end(rest) == trimmed_end(text@.subrange(start as int, end as int)),
        ensures
            start <= end <= len,
            trimmed_end(rest) == trimmed_end(text@.subrange(start as int, end as int)),
            end > start ==> !is_white_space(text@[end as int - 1]),
        decreases end - start,
    {
        proof {
            let kept = text@.subrange(start as int, end as int);
            assert(kept.drop_last() =~= text@.subrange(start as int, end as int - 1));
        }
        end = end - 1;
    }
    text.substring_char(start, end).to_owned()
}

/// Whether the text is empty or consists of white space only.
pub fn blank(text: &str) -> (result: bool)
    ensures
        result == is_blank(text@),
{
    let len: usize = text.unicode_len();
    let mut i: usize = 0;
    while i < len
        invariant
            i <= len,
            len == text@.len(),
            forall|j: int| 0 <= j < i ==> is_white_space(#[trigger] text@[j]),
        decreases len - i,
    {
        if !white_space(text.get_char(i)) {
            return false;
        }
        i = i + 1;
    }
    true
}

/// Trimming leaves nothing exactly of blank text.
pub proof fn blank_text_trims_to_nothing(text: Seq<char>)
    ensures
        is_blank(text) <==> trimmed(text).len() == 0,
    decreases text.len(),
{
    start_is_blank(text);
    end_is_blank(trimmed_start(text));
}

proof fn start_is_blank(text: Seq<char>)
    ensures
        is_blank(text) <==> is_blank(trimmed_start(text)),
    decreases text.len(),
{
    if text.len() > 0 && is_white_space(text[0]) {
        let rest = text.subrange(1, text.len() as int);
        start_is_blank(rest);
        if is_blank(rest) {
            assert forall|i: int| 0 <= i < text.len() implies is_white_space(#[trigger] text[i]) by {
                if i > 0 {
                    assert(rest[i - 1] == text[i]);
                }
            }
        }
        if is_blank(text) {
            assert forall|i: int| 0 <= i < rest.len() implies is_white_space(#[trigger] rest[i]) by {
                assert(rest[i] == text[i + 1]);
            }
        }
    }
}

proof fn end_is_blank(text: Seq<char>)
    ensures
        is_blank(text) <==> trimmed_end(text).len() == 0,
    decreases text.len(),
{
    if text.len() > 0 {
        if is_white_space(text.last()) {
            let rest = text.drop_last();
            end_is_blank(rest);
            if is_blank(rest) {
                assert forall|i: int| 0 <= i < text.len() implies is_white_space(
                    #[trigger] text[i],
                ) by {
                    if i < text.len() - 1 {
                        assert(rest[i] == text[i]);
                    }
                }
            }
            if is_blank(text) {
                assert forall|i: int| 0 <= i < rest.len() implies is_white_space(
                    #[trigger] rest[i],
                ) by {
                    assert(rest[i] == text[i]);
                }
            }
        } else {
            assert(!is_white_space(text[text.len() - 1]));
        }
    }
}

/// The decimal digits of a number.
pub open spec fn decimal(number: nat) -> Seq<char>
    decreases number,
{
    if number < 10 {
        seq![digit(number)]
    } else {
        decimal(number / 10).push(digit(number % 10))
    }
}

/// The character of one digit.
pub open spec fn digit(value: nat) -> char {
    if value == 0 {
        '0'
    } else if value == 1 {
        '1'
    } else if value == 2 {
        '2'
    } else if value == 3 {
        '3'
    } else if value == 4 {
        '4'
    } else if value == 5 {
        '5'
    } else if value == 6 {
        '6'
    } else if value == 7 {
        '7'
    } else if value == 8 {
        '8'
    } else {
        '9'
    }
}

fn push_digit(text: &mut String, value: u64)
    requires
        value < 10,
    ensures
        final(text)@ == old(text)@.push(digit(value as nat)),
{
    let glyph = match value {
        0 => "0",
        1 => "1",
        2 => "2",
        3 => "3",
        4 => "4",
        5 => "5",
        6 => "6",
        7 => "7",
        8 => "8",
        _ => "9",
    };
    proof {
        reveal_strlit("0");
        reveal_strlit("1");
        reveal_strlit("2");
        reveal_strlit("3");
        reveal_strlit("4");
        reveal_strlit("5");
        reveal_strlit("6");
        reveal_strlit("7");
        reveal_strlit("8");
        reveal_strlit("9");
        assert(glyph@ =~= seq![digit(value as nat)]);
        assert(text@ + glyph@ =~= text@.push(digit(value as nat)));
    }
    text.append(glyph);
}

/// Appends the decimal digits of a number.
pub fn push_decimal(text: &mut String, number: u64)
    ensures
        final(text)@ == old(text)@ + decimal(number as nat),
    decreases number,
{
    if number >= 10 {
        push_decimal(text, number / 10);
        push_digit(text, number % 10);
        assert(text@ =~= old(text)@ + decimal(number as nat));
    } else {
        push_digit(text, number);
        assert(text@ =~= old(text)@ + decimal(number as nat));
    }
}

proof fn decimal_is_not_empty(number: nat)
    ensures
        decimal(number).len() >= 1,
        number >= 10 ==> decimal(number).len() >= 2,
    decreases number,
{
    if number >= 10 {
        decimal_is_not_empty(number / 10);
    }
}

/// Different numbers have different digits.
pub proof fn decimals_are_distinct(first: nat, second: nat)
    requires
        decimal(first) == decimal(second),
    ensures
        first == second,
    decreases first,
{
    decimal_is_not_empty(first);
    decimal_is_not_empty(second);
    if first < 10 || second < 10 {
        assert(first < 10 && second < 10);
        assert(decimal(first)[0] == digit(first));
        assert(decimal(second)[0] == digit(second));
    } else {
        let a = decimal(first);
        let b = decimal(second);
        assert(a.last() == digit(first % 10));
        assert(b.last() == digit(second % 10));
        assert(a.drop_last() =~= decimal(first / 10));
        assert(b.drop_last() =~= decimal(second / 10));
        decimals_are_distinct(first / 10, second / 10);
    }
}

proof fn start_stops_at_text(text: Seq<char>, before: Seq<char>)
    requires
        is_blank(before),
        text.len() > 0 ==> !is_white_space(text[0]),
    ensures
        trimmed_start(before + text) == text,
    decreases before.len(),
{
    let whole = before + text;
    if before.len() == 0 {
        assert(whole =~= text);
    } else {
        assert(whole[0] == before[0]);
        let rest = before.subrange(1, before.len() as int);
        assert forall|i: int| 0 <= i < rest.len() implies is_white_space(#[trigger] rest[i]) by {
            assert(rest[i] == before[i + 1]);
        }
        start_stops_at_text(text, rest);
        assert(whole.subrange(1, whole.len() as int) =~= rest + text);
    }
}

proof fn end_stops_at_text(text: Seq<char>, after: Seq<char>)
    requires
        is_blank(after),
        text.len() > 0 ==> !is_white_space(text.last()),
    ensures
        trimmed_end(text + after) == text,
    decreases after.len(),
{
    let whole = text + after;
    if after.len() == 0 {
        assert(whole =~= text);
    } else {
        assert(whole.last() == after.last());
        assert(is_white_space(after[after.len() - 1]));
        let rest = after.drop_last();
        assert forall|i: int| 0 <= i < rest.len() implies is_white_space(#[trigger] rest[i]) by {
            assert(rest[i] == after[i]);
        }
        end_stops_at_text(text, rest);
        assert(whole.drop_last() =~= text + rest);
    }
}

/// Trimming removes exactly the white space around a text: whatever stands around a
/// text that neither begins nor ends with white space, the text is what is left.
pub proof fn trimming_leaves_the_text(before: Seq<char>, text: Seq<char>, after: Seq<char>)
    requires
        is_blank(before),
        is_blank(after),
        text.len() > 0,
        !is_white_space(text[0]),
        !is_white_space(text.last()),
    ensures
        trimmed(before + text + after) == text,
        trimmed(text) == text,
{
    assert(before + text + after =~= before + (text + after));
    assert((text + after)[0] == text[0]);
    start_stops_at_text(text + after, before);
    end_stops_at_text(text, after);
    let nothing = Seq::<char>::empty();
    assert(text =~= nothing + text);
    start_stops_at_text(text, nothing);
    assert(text =~= text + nothing);
    end_stops_at_text(text, nothing);
}

/// Space, tab and the ends of lines are white space; letters, digits and signs are
/// not.
pub proof fn visible_characters_are_no_white_space(c: char)
    ensures
        is_white_space(' ') && is_white_space('\t') && is_white_space('\n') && is_white_space('\r'),
        '!' <= c <= '~' ==> !is_white_space(c),
{
}

/// The digits of a number stand for that number, and are digits.
pub proof fn decimals_stand_for_their_number(number: nat)
    ensures
        crate::build_config::number(decimal(number)) == number,
        decimal(number).len() > 0,
        forall|i: int|
            0 <= i < decimal(number).len() ==> crate::build_config::is_digit(
                #[trigger] decimal(number)[i],
            ),
    decreases number,
{
    let digits = decimal(number);
    if number < 10 {
        assert(digits.drop_last() =~= Seq::<char>::empty());
        assert(crate::build_config::number(digits.drop_last()) == 0);
    } else {
        decimals_stand_for_their_number(number / 10);
        assert(digits.drop_last() =~= decimal(number / 10));
        assert(digits.last() == digit(number % 10));
        assert forall|i: int| 0 <= i < digits.len() implies crate::build_config::is_digit(
            #[trigger] digits[i],
        ) by {
            if i < digits.len() - 1 {
                assert(digits[i] == decimal(number / 10)[i]);
            }
        }
    }
}

} // verus!
