//! Laws of text: lines, repeated lines, numerals and quotes.

use crate::data::{HideData, NonSendHideData};
use crate::text::{
    decimal, first_occurrences, joined, line_end, lines, lines_of, or_empty, texts, unique_lines,
    write_decimal, write_quoted, write_signed_decimal,
};
use vstd::prelude::*;

verus! {

proof fn line_ends_before_the_rest(line: Seq<char>, rest: Seq<char>)
    requires
        !line.contains('\n'),
    ensures
        line_end(line + seq!['\n'] + rest) == line.len(),
    decreases line.len(),
{
    let whole = line + seq!['\n'] + rest;
    if line.len() > 0 {
        assert(line.contains(line[0]));
        let shorter = line.skip(1);
        assert(!shorter.contains('\n')) by {
            if shorter.contains('\n') {
                let i = choose|i: int| 0 <= i < shorter.len() && shorter[i] == '\n';
                assert(line[i + 1] == '\n');
            }
        }
        line_ends_before_the_rest(shorter, rest);
        assert(whole.skip(1) =~= shorter + seq!['\n'] + rest);
        assert(whole[0] == line[0]);
    } else {
        assert(whole[0] == '\n');
    }
}

proof fn line_without_end(line: Seq<char>)
    requires
        !line.contains('\n'),
    ensures
        line_end(line) == line.len(),
    decreases line.len(),
{
    if line.len() > 0 {
        assert(line.contains(line[0]));
        let shorter = line.skip(1);
        assert(!shorter.contains('\n')) by {
            if shorter.contains('\n') {
                let i = choose|i: int| 0 <= i < shorter.len() && shorter[i] == '\n';
                assert(line[i + 1] == '\n');
            }
        }
        line_without_end(shorter);
    }
}

proof fn lines_are_shown(text: &str, list: Vec<String>)
    requires
        call_ensures(lines, (text,), list),
    ensures
        list@.len() == lines_of(text@).len(),
        forall|i: int| 0 <= i < list@.len() ==> (#[trigger] list@[i])@ == lines_of(text@)[i],
{
    let shown = texts(list@);
    assert(shown == lines_of(text@));
    assert(shown.len() == list@.len());
    assert forall|i: int| 0 <= i < list@.len() implies (#[trigger] list@[i])@ == shown[i] by {}
}

/// What stands before the first line feed is the first line, without the carriage return that ends
/// it if one does, and the other lines are those of what stands after it.
pub proof fn first_line_ends_at_the_line_feed(
    line: Seq<char>,
    rest: &str,
    whole: &str,
    list: Vec<String>,
    rest_list: Vec<String>,
)
    requires
        !line.contains('\n'),
        whole@ == line + seq!['\n'] + rest@,
        call_ensures(lines, (whole,), list),
        call_ensures(lines, (rest,), rest_list),
    ensures
        list@.len() == rest_list@.len() + 1,
        line.len() > 0 && line.last() == '\r' ==> list@[0]@ == line.drop_last(),
        !(line.len() > 0 && line.last() == '\r') ==> list@[0]@ == line,
        forall|i: int| 0 <= i < rest_list@.len() ==> list@[i + 1]@ == (#[trigger] rest_list@[i])@,
{
    lines_are_shown(whole, list);
    lines_are_shown(rest, rest_list);
    line_ends_before_the_rest(line, rest@);
    let end = line.len() as int;
    assert(whole@.take(end) =~= line);
    assert(whole@.skip(end + 1) =~= rest@);
    assert(lines_of(whole@) == seq![lines_of(whole@)[0]] + lines_of(rest@));
}

/// A text without a line feed is one line, and nothing where it is empty.
pub proof fn last_line_needs_no_line_feed(text: &str, list: Vec<String>)
    requires
        !text@.contains('\n'),
        call_ensures(lines, (text,), list),
    ensures
        text@.len() == 0 ==> list@.len() == 0,
        text@.len() > 0 ==> list@.len() == 1 && list@[0]@ == text@,
{
    lines_are_shown(text, list);
    line_without_end(text@);
}

/// Items are joined one after the other, with the separator between each two and nowhere else.
pub proof fn items_are_joined_in_order(list: Seq<Seq<char>>, sep: Seq<char>, item: Seq<char>)
    ensures
        joined(Seq::empty(), sep) == Seq::<char>::empty(),
        joined(seq![item], sep) == item,
        list.len() > 0 ==> joined(list.push(item), sep) == joined(list, sep) + sep + item,
{
    assert(list.push(item).drop_last() =~= list);
}

/// An item that was seen before is dropped, and any other is kept, after those that are kept already.
pub proof fn items_are_kept_where_they_first_occur(list: Seq<Seq<char>>, item: Seq<char>)
    ensures
        first_occurrences(Seq::empty()) == Seq::<Seq<char>>::empty(),
        list.contains(item) ==> first_occurrences(list.push(item)) == first_occurrences(list),
        !list.contains(item) ==> first_occurrences(list.push(item)) == first_occurrences(list).push(
            item,
        ),
{
    assert(list.push(item).drop_last() =~= list);
}

/// What is left of a text are its lines, each where it first occurs, with a line feed between each
/// two.
pub proof fn unique_lines_are_joined(text: &str, list: Vec<String>, result: String)
    requires
        call_ensures(lines, (text,), list),
        call_ensures(unique_lines, (text,), result),
    ensures
        result@ == joined(first_occurrences(list@.map_values(|s: String| s@)), seq!['\n']),
{
    reveal_strlit("\n");
    lines_are_shown(text, list);
    assert("\n"@ =~= seq!['\n']);
    assert(list@.map_values(|s: String| s@) =~= lines_of(text@));
}

/// A text without a line feed stays as it is.
pub proof fn text_of_one_line_stays(text: &str, result: String)
    requires
        !text@.contains('\n'),
        call_ensures(unique_lines, (text,), result),
    ensures
        result@ == text@,
{
    line_without_end(text@);
    if text@.len() > 0 {
        let list = lines_of(text@);
        assert(list =~= seq![text@]);
        assert(list.drop_last() =~= Seq::<Seq<char>>::empty());
        assert(first_occurrences(list.drop_last()) =~= Seq::<Seq<char>>::empty());
        assert(!list.drop_last().contains(text@));
        assert(first_occurrences(list) =~= seq![text@]);
    } else {
        assert(lines_of(text@) =~= Seq::<Seq<char>>::empty());
        assert(result@ =~= text@);
    }
}

/// The number that decimal digits stand for.
pub open spec fn read_decimal(digits: Seq<char>) -> int
    decreases digits.len(),
{
    if digits.len() == 0 {
        0
    } else {
        10 * read_decimal(digits.drop_last()) + (digits.last() as int - '0' as int)
    }
}

proof fn decimal_reads_back(value: nat)
    ensures
        decimal(value).len() > 0,
        read_decimal(decimal(value)) == value,
        forall|i: int| 0 <= i < decimal(value).len() ==> '0' <= #[trigger] decimal(value)[i] <= '9',
        decimal(value).len() > 1 ==> decimal(value)[0] != '0',
    decreases value,
{
    reveal_with_fuel(read_decimal, 2);
    if value < 10 {
        assert(decimal(value).drop_last() =~= Seq::<char>::empty());
    } else {
        decimal_reads_back(value / 10);
        assert(decimal(value).drop_last() =~= decimal(value / 10));
        if decimal(value / 10).len() == 1 {
            assert(read_decimal(decimal(value / 10)) == value / 10);
            assert(decimal(value / 10).drop_last() =~= Seq::<char>::empty());
        }
    }
}

/// A numeral reads back as the number that was written, has digits only, and starts with a zero only
/// where it has no other digit.
pub proof fn numerals_read_back(value: u128, text: String)
    requires
        call_ensures(write_decimal, (value,), text),
    ensures
        text@.len() > 0,
        read_decimal(text@) == value,
        forall|i: int| 0 <= i < text@.len() ==> '0' <= #[trigger] text@[i] <= '9',
        text@.len() > 1 ==> text@[0] != '0',
{
    decimal_reads_back(value as nat);
}

/// A number below zero has a minus sign before the numeral of what it is below zero by, and any
/// other is written without a sign.
pub proof fn signed_numerals_read_back(value: i64, text: String)
    requires
        call_ensures(write_signed_decimal, (value,), text),
    ensures
        value >= 0 ==> read_decimal(text@) == value && text@[0] != '-',
        value < 0 ==> {
            &&& text@.len() > 0
            &&& text@[0] == '-'
            &&& read_decimal(text@.skip(1)) == -value
        },
{
    if value < 0 {
        decimal_reads_back((-value) as nat);
        assert(text@.skip(1) =~= decimal((-value) as nat));
    } else {
        decimal_reads_back(value as nat);
        assert('0' <= text@[0] <= '9');
    }
}

/// A quoted text has a quote at each end and all of the text between them.
pub proof fn quotes_stand_around_the_text(text: &str, result: String)
    requires
        call_ensures(write_quoted, (text,), result),
    ensures
        result@.len() == text@.len() + 2,
        result@[0] == '"',
        result@.last() == '"',
        result@.subrange(1, text@.len() as int + 1) == text@,
{
    assert(result@.subrange(1, text@.len() as int + 1) =~= text@);
}

/// A text that is there is taken whole, and one that is not is empty.
pub proof fn missing_text_is_empty<'a>(text: Option<String>, result: &'a str)
    requires
        call_ensures(or_empty, (&text,), result),
    ensures
        text matches Some(s) ==> result@ == s@,
        text is None ==> result@.len() == 0,
{
    reveal_strlit("");
}

/// New data show the same, whether or not they can be sent.
pub proof fn new_data_show_the_same(
    one: NonSendHideData,
    other: HideData,
    text: String,
    other_text: String,
)
    requires
        call_ensures(NonSendHideData::new, (), one),
        call_ensures(HideData::new, (), other),
        call_ensures(NonSendHideData::hide_data, (&one,), text),
        call_ensures(HideData::hide_data, (&other,), other_text),
    ensures
        text@ == other_text@,
        ("content"@ + " - "@).is_prefix_of(text@),
{
}

} // verus!
