//! Text as sequences of characters: lines, joining, quoting and decimal numerals.

use itertools::Itertools;
use vstd::prelude::*;
use vstd::string::*;

verus! {

/// The contents of a list of strings.
pub open spec fn texts(list: Seq<String>) -> Seq<Seq<char>> {
    list.map_values(|s: String| s@)
}

/// The contents of an optional string.
pub open spec fn text_of(text: Option<String>) -> Option<Seq<char>> {
    match text {
        Some(s) => Some(s@),
        None => None,
    }
}

/// What `text` holds, which is nothing if there is none.
pub fn or_empty(text: &Option<String>) -> (result: &str)
    ensures
        result@ == match text {
            Some(s) => s@,
            None => ""@,
        },
{
    match text {
        Some(s) => s.as_str(),
        None => "",
    }
}

/// `line` without the carriage return that ends it, if one does.
pub open spec fn without_carriage_return(line: Seq<char>) -> Seq<char> {
    if line.len() > 0 && line.last() == '\r' {
        line.drop_last()
    } else {
        line
    }
}

/// The position of the first line feed in `text`, or the length of `text` if it has none.
pub open spec fn line_end(text: Seq<char>) -> int
    decreases text.len(),
{
    if text.len() == 0 || text[0] == '\n' {
        0
    } else {
        1 + line_end(text.skip(1))
    }
}

/// The lines of `text`: each ends at `\n` or `\r\n`, which is no part of it, and the ending of the
/// last line may be absent.
pub open spec fn lines_of(text: Seq<char>) -> Seq<Seq<char>>
    decreases text.len(),
{
    let end = line_end(text);
    if text.len() == 0 {
        seq![]
    } else if end >= text.len() || end < 0 {
        seq![text]
    } else {
        seq![without_carriage_return(text.take(end))] + lines_of(text.skip(end + 1))
    }
}

/// The items of `list` in order, each at the place where it first occurs.
pub open spec fn first_occurrences(list: Seq<Seq<char>>) -> Seq<Seq<char>>
    decreases list.len(),
{
    if list.len() == 0 {
        seq![]
    } else if list.drop_last().contains(list.last()) {
        first_occurrences(list.drop_last())
    } else {
        first_occurrences(list.drop_last()).push(list.last())
    }
}

/// The items of `list` with `sep` between each two neighbours.
pub open spec fn joined(list: Seq<Seq<char>>, sep: Seq<char>) -> Seq<char>
    decreases list.len(),
{
    if list.len() == 0 {
        seq![]
    } else if list.len() == 1 {
        list[0]
    } else {
        joined(list.drop_last(), sep) + sep + list.last()
    }
}

/// `text` with every line kept only where it first occurs, the lines separated by `\n`.
pub open spec fn with_unique_lines(text: Seq<char>) -> Seq<char> {
    joined(first_occurrences(lines_of(text)), "\n"@)
}

proof fn line_end_is_first_line_feed(text: Seq<char>, end: int)
    requires
        0 <= end <= text.len(),
        forall|i: int| 0 <= i < end ==> text[i] != '\n',
        end < text.len() ==> text[end] == '\n',
    ensures
        line_end(text) == end,
    decreases text.len(),
{
    if end > 0 {
        assert forall|i: int| 0 <= i < end - 1 implies text.skip(1)[i] != '\n' by {
            assert(text.skip(1)[i] == text[i + 1]);
        }
        line_end_is_first_line_feed(text.skip(1), end - 1);
    }
}

/// The lines of `text`, as `str::lines` of the standard library splits them.
pub fn lines(text: &str) -> (list: Vec<String>)
    ensures
        texts(list@) == lines_of(text@),
{
    let mut list: Vec<String> = Vec::new();
    let length: usize = text.unicode_len();
    let mut start: usize = 0;
    let mut at: usize = 0;
    assert(text@.skip(0) =~= text@);
    assert(texts(list@) + lines_of(text@.skip(0)) =~= lines_of(text@));
    while at < length
        invariant
            start <= at <= length,
            length == text@.len(),
            forall|i: int| start <= i < at ==> text@[i] != '\n',
            texts(list@) + lines_of(text@.skip(start as int)) =~= lines_of(text@),
        decreases length - at,
    {
        if text.get_char(at) == '\n' {
            let ghost rest = text@.skip(start as int);
            let ghost before = texts(list@);
            let end: usize = if at > start && text.get_char(at - 1) == '\r' {
                at - 1
            } else {
                at
            };
            let line = text.substring_char(start, end).to_string();
            proof {
                line_end_is_first_line_feed(rest, at - start);
                assert(rest.take(at - start) =~= text@.subrange(start as int, at as int));
                assert(line@ =~= without_carriage_return(rest.take(at - start)));
                assert(rest.skip(at - start + 1) =~= text@.skip(at + 1));
            }
            list.push(line);
            proof {
                assert(texts(list@) =~= before.push(line@));
                assert(lines_of(rest) =~= seq![line@] + lines_of(text@.skip(at + 1)));
                assert(before + lines_of(rest) =~= texts(list@) + lines_of(text@.skip(at + 1)));
            }
            start = at + 1;
        }
        at = at + 1;
    }
    let ghost rest = text@.skip(start as int);
    proof {
        line_end_is_first_line_feed(rest, rest.len() as int);
    }
    if start < length {
        let ghost before = texts(list@);
        let line = text.substring_char(start, length).to_string();
        assert(line@ =~= rest);
        list.push(line);
        assert(texts(list@) =~= before.push(line@));
        assert(before + lines_of(rest) =~= texts(list@));
    }
    list
}

/// Calls `Itertools::unique`, which drops every item that equals an earlier one and keeps the
/// others in order.
#[verifier::external_body]
fn unique(list: Vec<String>) -> (kept: Vec<String>)
    ensures
        texts(kept@) == first_occurrences(texts(list@)),
{
    list.into_iter().unique().collect()
}

/// Calls `Itertools::join`, which writes the items one after the other with `sep` between them.
#[verifier::external_body]
fn join(list: &Vec<String>, sep: &str) -> (text: String)
    ensures
        text@ == joined(texts(list@), sep@),
{
    list.iter().join(sep)
}

/// `text` with every repeated line taken out.
pub fn unique_lines(text: &str) -> (result: String)
    ensures
        result@ == with_unique_lines(text@),
{
    let list = unique(lines(text));
    join(&list, "\n")
}

/// The digit `value` as a character.
pub open spec fn digit(value: nat) -> char {
    (48 + value) as char
}

/// `value` in decimal.
pub open spec fn decimal(value: nat) -> Seq<char>
    decreases value,
{
    if value < 10 {
        seq![digit(value)]
    } else {
        decimal(value / 10).push(digit(value % 10))
    }
}

/// `value` in decimal, with a minus sign if it is negative.
pub open spec fn signed_decimal(value: int) -> Seq<char> {
    if value < 0 {
        seq!['-'] + decimal((-value) as nat)
    } else {
        decimal(value as nat)
    }
}

/// A character that stands for itself between double quotes.
pub open spec fn is_plain(c: char) -> bool {
    ' ' <= c <= '~' && c != '"' && c != '\\'
}

/// Every character of `text` stands for itself between double quotes.
pub open spec fn all_plain(text: Seq<char>) -> bool {
    forall|i: int| 0 <= i < text.len() ==> is_plain(#[trigger] text[i])
}

/// `text` between double quotes.
pub open spec fn quoted(text: Seq<char>) -> Seq<char> {
    seq!['"'] + text + seq!['"']
}

fn digit_text(value: u128) -> (text: &'static str)
    requires
        value < 10,
    ensures
        text@ == seq![digit(value as nat)],
{
    proof {
        reveal_strlit("0");
        reveal_strlit("1");
        reveal_strlit("2");
        reveal_strlit("3");
        reveal_strlit("4");
        reveal_strlit("5");
        reveal_strlit("6");
        reveal_strlit("7");
        reveal_strlit("8");
        reveal_strlit("9");
    }
    let text = match value {
        0 => "0",
        1 => "1",
        2 => "2",
        3 => "3",
        4 => "4",
        5 => "5",
        6 => "6",
        7 => "7",
        8 => "8",
        _ => "9",
    };
    assert(text@ =~= seq![digit(value as nat)]);
    text
}

/// `value` in decimal.
pub fn write_decimal(value: u128) -> (text: String)
    ensures
        text@ == decimal(value as nat),
    decreases value,
{
    if value < 10 {
        digit_text(value).to_string()
    } else {
        let front = write_decimal(value / 10);
        let text = front.concat(digit_text(value % 10));
        assert(text@ =~= decimal(value as nat));
        text
    }
}

/// `value` in decimal, with a minus sign if it is negative.
pub fn write_signed_decimal(value: i64) -> (text: String)
    ensures
        text@ == signed_decimal(value as int),
{
    if value < 0 {
        proof {
            reveal_strlit("-");
        }
        let size = write_decimal((-(value as i128)) as u128);
        let text = "-".to_string().concat(size.as_str());
        assert(text@ =~= signed_decimal(value as int));
        text
    } else {
        write_decimal(value as u128)
    }
}

/// Writes `text` between double quotes, where nothing in it needs an escape.
pub fn write_quoted(text: &str) -> (result: String)
    requires
        all_plain(text@),
    ensures
        result@ == quoted(text@),
{
    proof {
        reveal_strlit("\"");
    }
    let result = "\"".to_string().concat(text).concat("\"");
    assert(result@ =~= quoted(text@));
    result
}

/// Taking repeated items out leaves every item that there was, and each of them once.
pub proof fn first_occurrences_are_the_items(list: Seq<Seq<char>>)
    ensures
        first_occurrences(list).no_duplicates(),
        forall|item: Seq<char>| #[trigger]
            first_occurrences(list).contains(item) <==> list.contains(item),
    decreases list.len(),
{
    if list.len() > 0 {
        let front = list.drop_last();
        let kept = first_occurrences(front);
        first_occurrences_are_the_items(front);
        assert forall|item: Seq<char>| #[trigger]
            first_occurrences(list).contains(item) <==> list.contains(item) by {
            assert(list =~= front.push(list.last()));
            assert(list[list.len() - 1] == list.last());
            if front.contains(item) {
                let i = choose|i: int| 0 <= i < front.len() && front[i] == item;
                assert(list[i] == item);
                assert(kept.contains(item));
                let k = choose|k: int| 0 <= k < kept.len() && kept[k] == item;
                assert(first_occurrences(list)[k] == item);
            }
            if list.contains(item) && !front.contains(item) {
                let i = choose|i: int| 0 <= i < list.len() && list[i] == item;
                assert(i == list.len() - 1) by {
                    if i < front.len() {
                        assert(front[i] == item);
                    }
                }
                assert(first_occurrences(list)[kept.len() as int] == item);
            }
            if first_occurrences(list).contains(item) {
                let k = choose|k: int|
                    0 <= k < first_occurrences(list).len() && first_occurrences(list)[k] == item;
                if k < kept.len() {
                    assert(kept[k] == item);
                    assert(kept.contains(item));
                }
            }
        }
        if !front.contains(list.last()) {
            assert(!kept.contains(list.last()));
            assert(kept.push(list.last()).no_duplicates());
        }
    }
}

/// Where no item is repeated, none is taken out.
pub proof fn distinct_items_are_kept(list: Seq<Seq<char>>)
    requires
        list.no_duplicates(),
    ensures
        first_occurrences(list) == list,
    decreases list.len(),
{
    if list.len() > 0 {
        distinct_items_are_kept(list.drop_last());
        assert(!list.drop_last().contains(list.last()));
        assert(list.drop_last().push(list.last()) =~= list);
    }
}

/// A line that can stand in a text before another: no part of a line ending is in it.
pub open spec fn is_whole_line(line: Seq<char>) -> bool {
    !line.contains('\n') && (line.len() > 0 ==> line.last() != '\r')
}

/// The lines of a text that was joined from lines are those lines, as long as the last is not
/// empty.
pub proof fn joined_lines_come_apart(list: Seq<Seq<char>>)
    requires
        forall|i: int| 0 <= i < list.len() ==> is_whole_line(#[trigger] list[i]),
        list.len() > 0 ==> list.last().len() > 0,
    ensures
        lines_of(joined(list, "\n"@)) == list,
    decreases list.len(),
{
    if list.len() == 1 {
        let text = list[0];
        line_end_is_first_line_feed_in_line(text);
        assert(lines_of(text) =~= list);
    } else if list.len() > 1 {
        let first = list[0];
        let rest = list.skip(1);
        joined_from_the_front(list, "\n"@);
        reveal_strlit("\n");
        let tail = joined(rest, "\n"@);
        let text = first + "\n"@ + tail;
        assert(joined(list, "\n"@) == text);
        assert forall|i: int| 0 <= i < first.len() implies text[i] != '\n' by {
            assert(text[i] == first[i]);
            assert(first.contains(first[i]));
            assert(is_whole_line(list[0]));
        }
        line_end_is_first_line_feed(text, first.len() as int);
        assert(text.take(first.len() as int) =~= first);
        assert(text.skip(first.len() as int + 1) =~= tail);
        assert forall|i: int| 0 <= i < rest.len() implies is_whole_line(#[trigger] rest[i]) by {
            assert(rest[i] == list[i + 1]);
        }
        joined_lines_come_apart(rest);
        assert(is_whole_line(list[0]));
        assert(without_carriage_return(first) == first);
        assert(lines_of(text) =~= seq![first] + rest);
        assert(seq![first] + rest =~= list);
    }
}

proof fn line_end_is_first_line_feed_in_line(line: Seq<char>)
    requires
        !line.contains('\n'),
    ensures
        line_end(line) == line.len(),
{
    assert forall|i: int| 0 <= i < line.len() implies line[i] != '\n' by {
        assert(line.contains(line[i]));
    }
    line_end_is_first_line_feed(line, line.len() as int);
}

proof fn joined_from_the_front(list: Seq<Seq<char>>, sep: Seq<char>)
    requires
        list.len() > 1,
    ensures
        joined(list, sep) == list[0] + sep + joined(list.skip(1), sep),
    decreases list.len(),
{
    let rest = list.skip(1);
    if list.len() == 2 {
        assert(joined(list.drop_last(), sep) == list[0]);
        assert(joined(rest, sep) == list[1]);
    } else {
        joined_from_the_front(list.drop_last(), sep);
        assert(list.drop_last().skip(1) =~= rest.drop_last());
        assert(joined(list, sep) =~= list[0] + sep + joined(rest, sep));
    }
}

/// The lines of a text without carriage returns are whole lines.
proof fn lines_are_whole(text: Seq<char>, i: int)
    requires
        !text.contains('\r'),
        0 <= i < lines_of(text).len(),
    ensures
        is_whole_line(lines_of(text)[i]),
    decreases text.len(),
{
    line_end_stops_at_line_feed(text);
    let end = line_end(text);
    if end >= text.len() {
        if text.contains('\n') {
            let k = choose|k: int| 0 <= k < text.len() && text[k] == '\n';
            assert(text[k] == '\n');
        }
        if text.len() > 0 {
            assert(text.contains(text.last()));
        }
    } else {
        let line = text.take(end);
        let rest = text.skip(end + 1);
        if line.len() > 0 {
            assert(text.contains(text[end - 1]));
            assert(line.last() == text[end - 1]);
        }
        if line.contains('\n') {
            let k = choose|k: int| 0 <= k < line.len() && line[k] == '\n';
            assert(text[k] == '\n');
        }
        if rest.contains('\r') {
            let k = choose|k: int| 0 <= k < rest.len() && rest[k] == '\r';
            assert(text[k + end + 1] == '\r');
        }
        if i > 0 {
            lines_are_whole(rest, i - 1);
        }
    }
}

proof fn line_end_stops_at_line_feed(text: Seq<char>)
    ensures
        0 <= line_end(text) <= text.len(),
        forall|i: int| 0 <= i < line_end(text) ==> text[i] != '\n',
        line_end(text) < text.len() ==> text[line_end(text)] == '\n',
    decreases text.len(),
{
    if text.len() > 0 && text[0] != '\n' {
        let rest = text.skip(1);
        line_end_stops_at_line_feed(rest);
        assert forall|i: int| 0 <= i < line_end(text) implies text[i] != '\n' by {
            if i > 0 {
                assert(rest[i - 1] == text[i]);
            }
        }
    }
}

/// Taking the repeated lines out of a text leaves a text whose lines are those that it had, each of
/// them once, as long as the text has no carriage return and the last line that is kept is not
/// empty.
pub proof fn unique_lines_are_the_lines(text: Seq<char>)
    requires
        !text.contains('\r'),
        first_occurrences(lines_of(text)).len() > 0 ==> first_occurrences(
            lines_of(text),
        ).last().len() > 0,
    ensures
        lines_of(with_unique_lines(text)) == first_occurrences(lines_of(text)),
        with_unique_lines(with_unique_lines(text)) == with_unique_lines(text),
{
    let list = lines_of(text);
    let kept = first_occurrences(list);
    first_occurrences_are_the_items(list);
    assert forall|i: int| 0 <= i < kept.len() implies is_whole_line(#[trigger] kept[i]) by {
        assert(kept.contains(kept[i]));
        let k = choose|k: int| 0 <= k < list.len() && list[k] == kept[i];
        lines_are_whole(text, k);
    }
    joined_lines_come_apart(kept);
    distinct_items_are_kept(kept);
}

} // verus!
