//! Text as the contracts see it: lines by their characters, numbers in
//! decimal, the search for one run of bytes inside another, and the lines of
//! a text.
use vstd::prelude::*;
use vstd::string::*;
use vstd::utf8::*;

verus! {

/// The characters of each line, in order.
pub open spec fn texts(lines: Seq<String>) -> Seq<Seq<char>> {
    Seq::new(lines.len(), |i: int| lines[i]@)
}

/// Whether `line` begins with `opening`.
pub open spec fn opens_with(line: Seq<char>, opening: Seq<char>) -> bool {
    &&& opening.len() <= line.len()
    &&& line.subrange(0, opening.len() as int) == opening
}

/// The character for a decimal digit.
pub open spec fn digit(d: nat) -> char {
    if d == 0 {
        '0'
    } else if d == 1 {
        '1'
    } else if d == 2 {
        '2'
    } else if d == 3 {
        '3'
    } else if d == 4 {
        '4'
    } else if d == 5 {
        '5'
    } else if d == 6 {
        '6'
    } else if d == 7 {
        '7'
    } else if d == 8 {
        '8'
    } else {
        '9'
    }
}

/// A number in decimal, without sign or leading zeros.
pub open spec fn decimal(n: nat) -> Seq<char>
    decreases n,
{
    if n < 10 {
        seq![digit(n)]
    } else {
        decimal(n / 10).push(digit(n % 10))
    }
}

/// The digit that a character stands for; 0 for any other character.
pub open spec fn digit_value(c: char) -> nat {
    if c == '1' {
        1
    } else if c == '2' {
        2
    } else if c == '3' {
        3
    } else if c == '4' {
        4
    } else if c == '5' {
        5
    } else if c == '6' {
        6
    } else if c == '7' {
        7
    } else if c == '8' {
        8
    } else if c == '9' {
        9
    } else {
        0
    }
}

/// The number that a run of digits denotes, read in base ten.
pub open spec fn decimal_value(digits: Seq<char>) -> nat
    decreases digits.len(),
{
    if digits.len() == 0 {
        0
    } else {
        decimal_value(digits.drop_last()) * 10 + digit_value(digits.last())
    }
}

/// A number written in decimal reads back as itself, has at least one digit,
/// and starts with a zero only where it is zero.
pub proof fn lemma_decimal_reads_back(n: nat)
    ensures
        decimal_value(decimal(n)) == n,
        decimal(n).len() >= 1,
        n > 0 ==> decimal(n)[0] != '0',
    decreases n,
{
    if n < 10 {
        assert(decimal(n).drop_last() =~= Seq::<char>::empty());
        assert(decimal_value(decimal(n).drop_last()) == 0);
    } else {
        lemma_decimal_reads_back(n / 10);
        assert(decimal(n).drop_last() =~= decimal(n / 10));
        assert(decimal(n)[0] == decimal(n / 10)[0]);
    }
}

/// The text of one decimal digit.
fn digit_text(d: usize) -> (text: &'static str)
    requires
        d < 10,
    ensures
        text@ == seq![digit(d as nat)],
{
    proof {
        reveal_strlit("0");
        reveal_strlit("1");
        reveal_strlit("2");
        reveal_strlit("3");
        reveal_strlit("4");
        reveal_strlit("5");
        reveal_strlit("6");
        reveal_strlit("7");
        reveal_strlit("8");
        reveal_strlit("9");
    }
    let text = if d == 0 {
        "0"
    } else if d == 1 {
        "1"
    } else if d == 2 {
        "2"
    } else if d == 3 {
        "3"
    } else if d == 4 {
        "4"
    } else if d == 5 {
        "5"
    } else if d == 6 {
        "6"
    } else if d == 7 {
        "7"
    } else if d == 8 {
        "8"
    } else {
        "9"
    };
    assert(text@ =~= seq![digit(d as nat)]);
    text
}

/// Writes a number in decimal.
pub fn decimal_text(n: usize) -> (text: String)
    ensures
        text@ == decimal(n as nat),
    decreases n,
{
    if n < 10 {
        digit_text(n).to_string()
    } else {
        let mut text = decimal_text(n / 10);
        text.append(digit_text(n % 10));
        assert(text@ =~= decimal(n as nat));
        text
    }
}

/// Whether `needle` stands in `haystack` at offset `at`, item for item.
pub open spec fn occurs_at<T>(haystack: Seq<T>, needle: Seq<T>, at: int) -> bool {
    &&& 0 <= at
    &&& at + needle.len() <= haystack.len()
    &&& haystack.subrange(at, at + needle.len()) == needle
}

/// Whether `needle` stands somewhere in `haystack`.
pub open spec fn occurs_in<T>(haystack: Seq<T>, needle: Seq<T>) -> bool {
    exists|at: int| occurs_at(haystack, needle, at)
}

/// In text of the ASCII range a byte is a character: one text stands at an
/// offset in another, taken as bytes, exactly when it does so taken as
/// characters.
pub proof fn lemma_ascii_occurs_at_by_characters(haystack: Seq<char>, needle: Seq<char>, at: int)
    requires
        is_ascii_chars(haystack),
        is_ascii_chars(needle),
    ensures
        occurs_at(encode_utf8(haystack), encode_utf8(needle), at) <==> occurs_at(
            haystack,
            needle,
            at,
        ),
{
    is_ascii_chars_encode_utf8(haystack);
    is_ascii_chars_encode_utf8(needle);
    let hay = encode_utf8(haystack);
    let pin = encode_utf8(needle);
    if occurs_at(hay, pin, at) {
        assert forall|j: int| 0 <= j < needle.len() implies haystack[at + j] == needle[j] by {
            assert(hay.subrange(at, at + pin.len())[j] == pin[j]);
            assert(hay[at + j] == haystack[at + j] as u8);
            assert(pin[j] == needle[j] as u8);
        }
        assert(haystack.subrange(at, at + needle.len()) =~= needle);
    }
    if occurs_at(haystack, needle, at) {
        assert forall|j: int| 0 <= j < pin.len() implies hay[at + j] == pin[j] by {
            assert(haystack.subrange(at, at + needle.len())[j] == needle[j]);
            assert(hay[at + j] == haystack[at + j] as u8);
            assert(pin[j] == needle[j] as u8);
        }
        assert(hay.subrange(at, at + pin.len()) =~= pin);
    }
}

/// In text of the ASCII range, one text stands in another, taken as bytes,
/// exactly when it does so taken as characters.
pub proof fn lemma_ascii_occurs_in_by_characters(haystack: Seq<char>, needle: Seq<char>)
    requires
        is_ascii_chars(haystack),
        is_ascii_chars(needle),
    ensures
        occurs_in(encode_utf8(haystack), encode_utf8(needle)) <==> occurs_in(haystack, needle),
{
    if occurs_in(encode_utf8(haystack), encode_utf8(needle)) {
        let at = choose|at: int| occurs_at(encode_utf8(haystack), encode_utf8(needle), at);
        lemma_ascii_occurs_at_by_characters(haystack, needle, at);
    }
    if occurs_in(haystack, needle) {
        let at = choose|at: int| occurs_at(haystack, needle, at);
        lemma_ascii_occurs_at_by_characters(haystack, needle, at);
    }
}

/// Compares `needle` with the bytes of `haystack` that start at `at`.
fn matches_at(haystack: &[u8], needle: &[u8], at: usize) -> (matched: bool)
    requires
        at + needle@.len() <= haystack@.len(),
    ensures
        matched == occurs_at(haystack@, needle@, at as int),
{
    let end: usize = haystack.len();
    let mut i: usize = 0;
    while i < needle.len()
        invariant
            i <= needle@.len(),
            at + needle@.len() <= haystack@.len() == end,
            forall|j: int| 0 <= j < i ==> haystack@[at + j] == needle@[j],
        decreases needle@.len() - i,
    {
        if haystack[at + i] != needle[i] {
            assert(haystack@.subrange(at as int, at + needle@.len())[i as int] != needle@[i as int]);
            return false;
        }
        i += 1;
    }
    assert(haystack@.subrange(at as int, at + needle@.len()) =~= needle@);
    true
}

/// Searches `haystack` for `needle`, offset by offset from the front.
pub fn contains_bytes(haystack: &[u8], needle: &[u8]) -> (found: bool)
    ensures
        found == occurs_in(haystack@, needle@),
{
    if needle.len() > haystack.len() {
        return false;
    }
    let last: usize = haystack.len() - needle.len();
    let mut at: usize = 0;
    loop
        invariant
            at <= last,
            last == haystack@.len() - needle@.len(),
            forall|k: int| 0 <= k < at ==> !occurs_at(haystack@, needle@, k),
        decreases last - at,
    {
        if matches_at(haystack, needle, at) {
            return true;
        }
        if at == last {
            return false;
        }
        at += 1;
    }
}

/// The encoded text of each line, in order.
pub open spec fn encoded(lines: Seq<String>) -> Seq<Seq<u8>> {
    Seq::new(lines.len(), |i: int| encode_utf8(lines[i]@))
}

/// The offset of the first line feed, or the length where there is none.
pub open spec fn line_end(bytes: Seq<u8>) -> nat
    decreases bytes.len(),
{
    if bytes.len() == 0 || bytes[0] == 0x0a {
        0
    } else {
        1 + line_end(bytes.drop_first())
    }
}

/// A line without the carriage return that may stand before its line feed.
pub open spec fn without_return(line: Seq<u8>) -> Seq<u8> {
    if line.len() > 0 && line.last() == 0x0d {
        line.drop_last()
    } else {
        line
    }
}

/// The lines of a text. A line ends with a line feed, or with a carriage
/// return and a line feed; neither belongs to the line. What follows the last
/// line feed is a line too, unless it is empty; a carriage return at its end
/// stays.
pub open spec fn lines_of(bytes: Seq<u8>) -> Seq<Seq<u8>>
    decreases bytes.len(),
{
    let end = line_end(bytes) as int;
    if bytes.len() == 0 {
        seq![]
    } else if end >= bytes.len() {
        seq![bytes]
    } else {
        seq![without_return(bytes.take(end))] + lines_of(bytes.skip(end + 1))
    }
}

/// The first line feed is the one before which there is none.
proof fn lemma_line_end_is_first_feed(bytes: Seq<u8>, cut: int)
    requires
        0 <= cut <= bytes.len(),
        forall|j: int| 0 <= j < cut ==> bytes[j] != 0x0a,
        cut < bytes.len() ==> bytes[cut] == 0x0a,
    ensures
        line_end(bytes) == cut,
    decreases bytes.len(),
{
    if cut > 0 {
        lemma_line_end_is_first_feed(bytes.drop_first(), cut - 1);
    }
}

/// A character starts right after a byte that is a character of its own.
proof fn lemma_boundary_after_single_byte(bytes: Seq<u8>)
    requires
        valid_utf8(bytes),
        bytes.len() > 0,
        bytes[0] <= 0x7f,
    ensures
        is_char_boundary(bytes, 1),
{
    assert(length_of_first_scalar(bytes) == 1);
    assert(valid_utf8(pop_first_scalar(bytes)));
    is_char_boundary_start_end_of_seq(pop_first_scalar(bytes));
    reveal_with_fuel(is_char_boundary, 2);
}

/// Finds the end of the first line.
fn find_line_end(bytes: &[u8]) -> (cut: usize)
    ensures
        cut == line_end(bytes@),
        cut <= bytes@.len(),
        cut < bytes@.len() ==> bytes@[cut as int] == 0x0a,
{
    let mut cut: usize = 0;
    while cut < bytes.len() && bytes[cut] != 0x0a
        invariant
            cut <= bytes@.len(),
            forall|j: int| 0 <= j < cut ==> bytes@[j] != 0x0a,
        decreases bytes@.len() - cut,
    {
        cut += 1;
    }
    proof {
        lemma_line_end_is_first_feed(bytes@, cut as int);
    }
    cut
}

/// Takes a carriage return off the end of a line.
fn strip_return(line: &str) -> (stripped: &str)
    ensures
        stripped.spec_bytes() == without_return(line.spec_bytes()),
{
    let bytes = line.as_bytes();
    let length: usize = bytes.len();
    if length > 0 && bytes[length - 1] == 0x0d {
        proof {
            encode_utf8_valid_utf8(line@);
            is_char_boundary_iff_not_is_continuation_byte(line.spec_bytes(), length - 1);
        }
        let (stripped, _) = line.split_at(length - 1);
        assert(stripped.spec_bytes() =~= line.spec_bytes().drop_last());
        stripped
    } else {
        line
    }
}

/// Splits a text into its lines.
pub fn split_lines(text: &str) -> (lines: Vec<String>)
    ensures
        encoded(lines@) == lines_of(text.spec_bytes()),
{
    let mut lines: Vec<String> = Vec::new();
    let mut rest: &str = text;
    loop
        invariant_except_break
            encoded(lines@) + lines_of(rest.spec_bytes()) == lines_of(text.spec_bytes()),
        ensures
            encoded(lines@) == lines_of(text.spec_bytes()),
        decreases rest.spec_bytes().len(),
    {
        let bytes = rest.as_bytes();
        let ghost before = encoded(lines@);
        if bytes.len() == 0 {
            assert(before + lines_of(rest.spec_bytes()) =~= before);
            break ;
        }
        let cut = find_line_end(bytes);
        if cut == bytes.len() {
            lines.push(rest.to_string());
            assert(encoded(lines@) =~= before + lines_of(rest.spec_bytes()));
            break ;
        }
        proof {
            encode_utf8_valid_utf8(rest@);
            is_char_boundary_iff_not_is_continuation_byte(rest.spec_bytes(), cut as int);
        }
        let (head, tail) = rest.split_at(cut);
        proof {
            encode_utf8_valid_utf8(tail@);
            assert(tail.spec_bytes()[0] == rest.spec_bytes()[cut as int]);
            lemma_boundary_after_single_byte(tail.spec_bytes());
        }
        let (_, after) = tail.split_at(1);
        let line = strip_return(head);
        lines.push(line.to_string());
        proof {
            let all = rest.spec_bytes();
            assert(head.spec_bytes() =~= all.take(cut as int));
            assert(after.spec_bytes() =~= all.skip(cut + 1));
            assert(encoded(lines@) =~= before + seq![without_return(all.take(cut as int))]);
            assert(encoded(lines@) + lines_of(after.spec_bytes()) =~= before + lines_of(all));
        }
        rest = after;
    }
    lines
}

} // verus!
