//! Text operations: what each one returns is stated over the characters of its arguments.

use vstd::prelude::*;
use vstd::string::StringExecFns;

verus! {

/// The text with each ASCII upper-case letter replaced by its lower-case letter.
pub open spec fn ascii_lower(text: Seq<char>) -> Seq<char> {
    text.map_values(|c: char| ascii_lower_char(c))
}

/// An ASCII upper-case letter becomes its lower-case letter; any other character stays.
pub open spec fn ascii_lower_char(c: char) -> char {
    if 'A' <= c && c <= 'Z' {
        ((c as u32) + 32) as char
    } else {
        c
    }
}

/// `needle` stands somewhere in `haystack`, as one unbroken run of characters.
pub open spec fn occurs_in(needle: Seq<char>, haystack: Seq<char>) -> bool {
    exists|at: int|
        0 <= at <= haystack.len() - needle.len() && #[trigger] haystack.subrange(
            at,
            at + needle.len(),
        ) == needle
}

/// Whether `c` is white space by Unicode's `White_Space` property.
pub open spec fn white_space(c: char) -> bool {
    let code = c as u32;
    ||| 0x9 <= code <= 0xd
    ||| code == 0x20
    ||| code == 0x85
    ||| code == 0xa0
    ||| code == 0x1680
    ||| 0x2000 <= code <= 0x200a
    ||| code == 0x2028
    ||| code == 0x2029
    ||| code == 0x202f
    ||| code == 0x205f
    ||| code == 0x3000
}

/// Whether `c` is a control code: the C0 codes, delete, and the C1 codes.
pub open spec fn control_code(c: char) -> bool {
    (c as u32) < 32 || (127 <= c as u32 && c as u32 <= 159)
}

/// The lower-case form of a text, by Unicode's `Lowercase` mappings.
pub uninterp spec fn lowercase(text: Seq<char>) -> Seq<char>;

/// The text that the bytes hold, with what is no UTF-8 replaced.
pub uninterp spec fn lossy_text(bytes: Seq<u8>) -> Seq<char>;

/// `char::is_whitespace`: Unicode's `White_Space` property.
pub assume_specification[ char::is_whitespace ](c: char) -> (white: bool)
    ensures
        white == white_space(c),
;

/// `char::is_control`: general category `Cc`, that is the C0 codes, delete and the C1 codes.
pub assume_specification[ char::is_control ](c: char) -> (control: bool)
    ensures
        control == control_code(c),
;

/// `String::push` appends one character.
pub assume_specification[ String::push ](string: &mut String, c: char)
    ensures
        final(string)@ == old(string)@.push(c),
;

/// `String::pop` removes the last character and returns it, if there is one.
pub assume_specification[ String::pop ](string: &mut String) -> (last: Option<char>)
    ensures
        old(string)@.len() == 0 ==> last is None && final(string)@ == old(string)@,
        old(string)@.len() > 0 ==> last == Some(old(string)@.last()) && final(string)@
            == old(string)@.drop_last(),
;

/// `<str as PartialEq>::eq`: two texts are equal when their characters are.
pub assume_specification[ <str as PartialEq<str>>::eq ](left: &str, right: &str) -> (same: bool)
    ensures
        same == (left@ == right@),
;

/// `str::to_lowercase`. The result has a name; on ASCII text it is the text with its upper-case
/// letters lowered.
#[verifier::external_body]
pub(crate) fn to_lowercase(text: &str) -> (lower: String)
    ensures
        lower@ == lowercase(text@),
        text.is_ascii() ==> lower@ == ascii_lower(text@),
{
    text.to_lowercase()
}

/// `String::from_utf8_lossy`. The result has a name; of bytes that are valid UTF-8 it is the text
/// that they spell.
#[verifier::external_body]
pub(crate) fn decode_lossy(bytes: &[u8]) -> (text: String)
    ensures
        text@ == lossy_text(bytes@),
        vstd::utf8::valid_utf8(bytes@) ==> text@ == vstd::utf8::decode_utf8(bytes@),
{
    String::from_utf8_lossy(bytes).into_owned()
}

/// The characters of a text, in order.
pub fn characters(text: &str) -> (chars: Vec<char>)
    ensures
        chars@ == text@,
{
    let mut chars: Vec<char> = Vec::new();
    for c in it: text.chars()
        invariant
            it.seq() == text@,
            chars@ == text@.take(it.index()),
    {
        chars.push(c);
        assert(text@.take(it.index() + 1) == text@.take(it.index()).push(text@[it.index()]));
    }
    assert(text@.take(text@.len() as int) == text@);
    chars
}

/// The characters from `from` to `to`, as a text.
pub fn from_characters(chars: &Vec<char>, from: usize, to: usize) -> (text: String)
    requires
        from <= to <= chars@.len(),
    ensures
        text@ == chars@.subrange(from as int, to as int),
{
    let mut text = String::new();
    let mut at: usize = from;
    while at < to
        invariant
            from <= at <= to <= chars@.len(),
            text@ == chars@.subrange(from as int, at as int),
        decreases to - at,
    {
        text.push(chars[at]);
        at += 1;
        assert(chars@.subrange(from as int, at as int) == chars@.subrange(
            from as int,
            at - 1,
        ).push(chars@[at - 1]));
    }
    text
}

/// Whether the part of `whole` from `at` on begins with `part`.
fn stands_at(whole: &Vec<char>, part: &Vec<char>, at: usize) -> (stands: bool)
    requires
        at + part@.len() <= whole@.len(),
    ensures
        stands == (whole@.subrange(at as int, at + part@.len()) == part@),
{
    let mut i: usize = 0;
    while i < part.len()
        invariant
            i <= part@.len(),
            at + part@.len() <= whole.len(),
            forall|k: int| 0 <= k < i ==> whole@[at + k] == #[trigger] part@[k],
        decreases part@.len() - i,
    {
        if whole[at + i] != part[i] {
            assert(whole@.subrange(at as int, at + part@.len())[i as int] != part@[i as int]);
            return false;
        }
        i += 1;
    }
    assert(whole@.subrange(at as int, at + part@.len()) =~= part@);
    true
}

/// Whether the needle stands somewhere in the haystack.
pub fn contains(haystack: &str, needle: &str) -> (found: bool)
    ensures
        found == occurs_in(needle@, haystack@),
{
    let whole = characters(haystack);
    let part = characters(needle);
    if part.len() > whole.len() {
        return false;
    }
    let last = whole.len() - part.len();
    let mut at: usize = 0;
    loop
        invariant
            whole@ == haystack@,
            part@ == needle@,
            last == whole@.len() - part@.len(),
            at <= last,
            forall|k: int|
                0 <= k < at ==> #[trigger] haystack@.subrange(k, k + needle@.len()) != needle@,
        decreases last - at,
    {
        if stands_at(&whole, &part, at) {
            return true;
        }
        if at == last {
            return false;
        }
        at += 1;
    }
}

/// Whether the text begins with the prefix.
pub fn starts_with(text: &str, prefix: &str) -> (starts: bool)
    ensures
        starts == prefix@.is_prefix_of(text@),
{
    let whole = characters(text);
    let part = characters(prefix);
    part.len() <= whole.len() && stands_at(&whole, &part, 0)
}

/// Whether the text ends with the suffix.
pub fn ends_with(text: &str, suffix: &str) -> (ends: bool)
    ensures
        ends == suffix@.is_suffix_of(text@),
{
    let whole = characters(text);
    let part = characters(suffix);
    part.len() <= whole.len() && stands_at(&whole, &part, whole.len() - part.len())
}

/// Two texts, one after the other.
pub fn join2(first: &str, second: &str) -> (text: String)
    ensures
        text@ == first@ + second@,
{
    let mut text = first.to_owned();
    text.append(second);
    text
}

/// Three texts, one after the other.
pub fn join3(first: &str, second: &str, third: &str) -> (text: String)
    ensures
        text@ == first@ + second@ + third@,
{
    let mut text = join2(first, second);
    text.append(third);
    text
}

/// Four texts, one after the other.
pub fn join4(first: &str, second: &str, third: &str, fourth: &str) -> (text: String)
    ensures
        text@ == first@ + second@ + third@ + fourth@,
{
    let mut text = join3(first, second, third);
    text.append(fourth);
    text
}

/// The text with each ASCII upper-case letter lowered.
pub fn to_ascii_lowercase(text: &str) -> (lower: String)
    ensures
        lower@ == ascii_lower(text@),
{
    let mut lower = String::new();
    for c in it: text.chars()
        invariant
            it.seq() == text@,
            lower@ == ascii_lower(text@.take(it.index())),
    {
        let lowered = if 'A' <= c && c <= 'Z' {
            ((c as u8) + 32) as char
        } else {
            c
        };
        lower.push(lowered);
        assert(text@.take(it.index() + 1) == text@.take(it.index()).push(text@[it.index()]));
        assert(ascii_lower(text@.take(it.index() + 1)) == ascii_lower(
            text@.take(it.index()),
        ).push(ascii_lower_char(c)));
    }
    assert(text@.take(text@.len() as int) == text@);
    lower
}

/// The text without the white space at its start.
pub open spec fn trimmed_start(text: Seq<char>) -> Seq<char>
    decreases text.len(),
{
    if text.len() > 0 && white_space(text[0]) {
        trimmed_start(text.drop_first())
    } else {
        text
    }
}

/// The text without the white space at its end.
pub open spec fn trimmed_end(text: Seq<char>) -> Seq<char>
    decreases text.len(),
{
    if text.len() > 0 && white_space(text.last()) {
        trimmed_end(text.drop_last())
    } else {
        text
    }
}

/// The text without the white space at its start and at its end.
pub open spec fn trimmed(text: Seq<char>) -> Seq<char> {
    trimmed_end(trimmed_start(text))
}

/// The parts of `text` between its separators, from left to right: one part more than there are
/// separators.
pub open spec fn split(text: Seq<char>, separator: char) -> Seq<Seq<char>>
    decreases text.len(),
{
    if text.len() == 0 {
        seq![Seq::empty()]
    } else {
        let parts = split(text.drop_last(), separator);
        if text.last() == separator {
            parts.push(Seq::empty())
        } else {
            parts.drop_last().push(parts.last().push(text.last()))
        }
    }
}

/// The line without the carriage return at its end, if it has one.
pub open spec fn without_return(line: Seq<char>) -> Seq<char> {
    if line.len() > 0 && line.last() == '\r' {
        line.drop_last()
    } else {
        line
    }
}

/// The lines of a text: its parts between line feeds, each without the carriage return before
/// its line feed. The part behind the last line feed counts only if something stands there.
pub open spec fn lines_of(text: Seq<char>) -> Seq<Seq<char>> {
    let parts = split(text, '\n');
    let ended = parts.drop_last().map_values(|line: Seq<char>| without_return(line));
    if parts.last().len() == 0 {
        ended
    } else {
        ended.push(parts.last())
    }
}

/// The character for a digit below ten.
pub open spec fn digit(n: nat) -> char {
    ((n % 10) + 48) as char
}

/// The decimal digits of `n`.
pub open spec fn decimal(n: nat) -> Seq<char>
    decreases n,
{
    if n < 10 {
        seq![digit(n)]
    } else {
        decimal(n / 10).push(digit(n))
    }
}

pub(crate) proof fn lemma_decimal_encoded(n: nat)
    ensures
        decimal(n).len() > 0,
        !vstd::utf8::encode_utf8(decimal(n)).contains(47),
{
    lemma_decimal_digits(n);
    let digits = decimal(n);
    assert(vstd::utf8::is_ascii_chars(digits));
    vstd::utf8::is_ascii_chars_encode_utf8(digits);
    let bytes = vstd::utf8::encode_utf8(digits);
    assert forall|i: int| 0 <= i < bytes.len() implies #[trigger] bytes[i] != 47 by {
        assert('0' <= digits[i] <= '9');
    }
}

proof fn lemma_decimal_digits(n: nat)
    ensures
        decimal(n).len() > 0,
        forall|i: int| 0 <= i < decimal(n).len() ==> '0' <= #[trigger] decimal(n)[i] <= '9',
    decreases n,
{
    if n >= 10 {
        lemma_decimal_digits(n / 10);
    }
}

/// The UTF-8 of a text is that of its parts, one behind the other.
pub(crate) proof fn lemma_encode_append(left: Seq<char>, right: Seq<char>)
    ensures
        vstd::utf8::encode_utf8(left + right) == vstd::utf8::encode_utf8(left)
            + vstd::utf8::encode_utf8(right),
    decreases left.len(),
{
    if left.len() == 0 {
        assert(left + right =~= right);
        assert(vstd::utf8::encode_utf8(left) + vstd::utf8::encode_utf8(right)
            =~= vstd::utf8::encode_utf8(right));
    } else {
        assert((left + right).drop_first() =~= left.drop_first() + right);
        lemma_encode_append(left.drop_first(), right);
        assert(vstd::utf8::encode_utf8(left + right) =~= vstd::utf8::encode_utf8(left)
            + vstd::utf8::encode_utf8(right));
    }
}

/// The texts of a list.
pub open spec fn views(texts: Seq<String>) -> Seq<Seq<char>> {
    texts.map_values(|text: String| text@)
}

proof fn lemma_split_nonempty(text: Seq<char>, separator: char)
    ensures
        split(text, separator).len() > 0,
    decreases text.len(),
{
    if text.len() > 0 {
        lemma_split_nonempty(text.drop_last(), separator);
    }
}

/// The text without the white space around it.
pub fn trim(text: &str) -> (inner: String)
    ensures
        inner@ == trimmed(text@),
{
    let chars = characters(text);
    let mut from: usize = 0;
    assert(chars@.skip(0) == chars@);
    while from < chars.len() && chars[from].is_whitespace()
        invariant
            from <= chars@.len(),
            trimmed_start(chars@) == trimmed_start(chars@.skip(from as int)),
        decreases chars@.len() - from,
    {
        assert(chars@.skip(from as int).drop_first() == chars@.skip(from + 1));
        from += 1;
    }
    assert(trimmed_start(chars@) == chars@.skip(from as int));
    let mut to: usize = chars.len();
    assert(chars@.subrange(from as int, to as int) == chars@.skip(from as int));
    while from < to && chars[to - 1].is_whitespace()
        invariant
            from <= to <= chars@.len(),
            trimmed(text@) == trimmed_end(chars@.subrange(from as int, to as int)),
        decreases to,
    {
        assert(chars@.subrange(from as int, to as int).drop_last() == chars@.subrange(
            from as int,
            to - 1,
        ));
        to -= 1;
    }
    from_characters(&chars, from, to)
}

/// The parts of the text between its separators.
pub fn split_text(text: &str, separator: char) -> (parts: Vec<String>)
    ensures
        views(parts@) == split(text@, separator),
{
    let mut parts: Vec<String> = Vec::new();
    let mut current = String::new();
    for c in it: text.chars()
        invariant
            it.seq() == text@,
            views(parts@).push(current@) == split(text@.take(it.index()), separator),
    {
        let ghost before = views(parts@);
        let ghost seen = text@.take(it.index());
        assert(text@.take(it.index() + 1) == seen.push(c));
        assert(seen.push(c).drop_last() == seen);
        assert(before.push(current@).drop_last() == before);
        if c == separator {
            parts.push(current);
            current = String::new();
            assert(views(parts@) == before.push(split(seen, separator).last()));
            assert(split(seen, separator) == before.push(split(seen, separator).last()));
        } else {
            current.push(c);
        }
    }
    assert(text@.take(text@.len() as int) == text@);
    let ghost before = views(parts@);
    let ghost last = current@;
    parts.push(current);
    assert(views(parts@) == before.push(last));
    parts
}

/// The lines of the text.
pub fn lines(text: &str) -> (lines: Vec<String>)
    ensures
        views(lines@) == lines_of(text@),
{
    let parts = split_text(text, '\n');
    proof {
        lemma_split_nonempty(text@, '\n');
        assert(views(parts@).len() == parts@.len());
    }
    let ghost pieces = split(text@, '\n');
    let ghost ended = pieces.drop_last().map_values(|line: Seq<char>| without_return(line));
    let mut lines: Vec<String> = Vec::new();
    let mut i: usize = 0;
    while i < parts.len() - 1
        invariant
            pieces == views(parts@),
            parts@.len() > 0,
            ended == pieces.drop_last().map_values(|line: Seq<char>| without_return(line)),
            i <= parts@.len() - 1,
            views(lines@) == ended.take(i as int),
        decreases parts@.len() - i,
    {
        let mut line = parts[i].clone();
        assert(pieces[i as int] == line@);
        let chars = characters(&line);
        if chars.len() > 0 && chars[chars.len() - 1] == '\r' {
            line.pop();
        }
        assert(line@ == ended[i as int]);
        let ghost before = views(lines@);
        lines.push(line);
        assert(views(lines@) == before.push(ended[i as int]));
        assert(ended.take(i + 1) == ended.take(i as int).push(ended[i as int]));
        i += 1;
    }
    assert(ended.take(i as int) == ended);
    let last = parts[i].clone();
    assert(pieces[i as int] == last@);
    if !last.as_str().is_empty() {
        let ghost before = views(lines@);
        lines.push(last);
        assert(views(lines@) == before.push(pieces.last()));
    }
    lines
}

/// The decimal digits of a number.
pub fn number(n: u128) -> (digits: String)
    ensures
        digits@ == decimal(n as nat),
    decreases n,
{
    let last = ((n % 10) as u8 + 48) as char;
    let mut digits = if n < 10 {
        String::new()
    } else {
        number(n / 10)
    };
    digits.push(last);
    assert(n < 10 ==> digits@ == seq![digit(n as nat)]);
    digits
}

/// The texts of a list with a separator between them.
pub open spec fn joined(texts: Seq<Seq<char>>, separator: Seq<char>) -> Seq<char>
    decreases texts.len(),
{
    if texts.len() == 0 {
        Seq::empty()
    } else if texts.len() == 1 {
        texts[0]
    } else {
        joined(texts.drop_last(), separator) + separator + texts.last()
    }
}

/// One text made of the texts of a list, with the separator between them.
pub fn join(texts: &Vec<String>, separator: &str) -> (text: String)
    ensures
        text@ == joined(views(texts@), separator@),
{
    let mut text = String::new();
    let mut i: usize = 0;
    let ghost all = views(texts@);
    while i < texts.len()
        invariant
            i <= texts@.len(),
            all == views(texts@),
            text@ == joined(all.take(i as int), separator@),
        decreases texts@.len() - i,
    {
        if i > 0 {
            text.append(separator);
        }
        text.append(&texts[i]);
        i += 1;
        assert(all.take(i as int).drop_last() == all.take(i - 1));
        assert(all.take(i as int).last() == all[i - 1]);
    }
    assert(all.take(i as int) == all);
    text
}

/// What stands between two other texts occurs in the whole, and what occurs stands so.
pub proof fn occurring_is_standing_inside(needle: Seq<char>, haystack: Seq<char>)
    ensures
        occurs_in(needle, haystack) <==> exists|before: Seq<char>, after: Seq<char>|
            haystack == #[trigger] (before + needle + after),
{
    if occurs_in(needle, haystack) {
        let at = choose|at: int|
            0 <= at <= haystack.len() - needle.len() && #[trigger] haystack.subrange(
                at,
                at + needle.len(),
            ) == needle;
        let before = haystack.subrange(0, at);
        let after = haystack.subrange(at + needle.len(), haystack.len() as int);
        assert(haystack =~= before + needle + after);
    }
    if exists|before: Seq<char>, after: Seq<char>|
        haystack == #[trigger] (before + needle + after) {
        let (before, after) = choose|before: Seq<char>, after: Seq<char>|
            haystack == #[trigger] (before + needle + after);
        let at = before.len() as int;
        assert(haystack.subrange(at, at + needle.len()) =~= needle);
    }
}

/// A text contains another exactly where that one stands between two parts of it, begins with it
/// where it stands before the rest, and ends with it where it stands behind the rest.
pub proof fn parts_of_a_text_are_found(
    whole: &str,
    part: &str,
    found: bool,
    starts: bool,
    ends: bool,
)
    requires
        call_ensures(contains, (whole, part), found),
        call_ensures(starts_with, (whole, part), starts),
        call_ensures(ends_with, (whole, part), ends),
    ensures
        found <==> exists|before: Seq<char>, after: Seq<char>|
            whole@ == #[trigger] (before + part@ + after),
        starts <==> exists|rest: Seq<char>| whole@ == #[trigger] (part@ + rest),
        ends <==> exists|rest: Seq<char>| whole@ == #[trigger] (rest + part@),
{
    occurring_is_standing_inside(part@, whole@);
    if starts {
        let rest = whole@.skip(part@.len() as int);
        assert(whole@ =~= part@ + rest);
    }
    if ends {
        let rest = whole@.take(whole@.len() - part@.len());
        assert(whole@ =~= rest + part@);
    }
    if exists|rest: Seq<char>| whole@ == #[trigger] (part@ + rest) {
        let rest = choose|rest: Seq<char>| whole@ == #[trigger] (part@ + rest);
        assert(whole@.subrange(0, part@.len() as int) =~= part@);
        assert(part@.is_prefix_of(whole@));
    }
    if exists|rest: Seq<char>| whole@ == #[trigger] (rest + part@) {
        let rest = choose|rest: Seq<char>| whole@ == #[trigger] (rest + part@);
        assert(whole@.subrange(rest.len() as int, whole@.len() as int) =~= part@);
        assert(part@.is_suffix_of(whole@));
    }
}

/// All of the text is white space.
pub open spec fn all_white(text: Seq<char>) -> bool {
    forall|i: int| 0 <= i < text.len() ==> white_space(#[trigger] text[i])
}

/// A trimmed text is what is left between white space: it neither begins nor ends with any, and
/// together with what was taken off it is the text.
pub proof fn trimming_takes_the_white_space_off(text: &str, inner: String)
    requires
        call_ensures(trim, (text,), inner),
    ensures
        exists|lead: Seq<char>, tail: Seq<char>|
            all_white(lead) && all_white(tail) && text@ == #[trigger] (lead + inner@ + tail),
        inner@.len() > 0 ==> !white_space(inner@[0]) && !white_space(inner@.last()),
{
    let lead = lemma_lead(text@);
    let rest = trimmed_start(text@);
    let tail = lemma_tail(rest);
    assert(text@ =~= lead + inner@ + tail);
}

proof fn lemma_lead(text: Seq<char>) -> (lead: Seq<char>)
    ensures
        all_white(lead),
        text == lead + trimmed_start(text),
        trimmed_start(text).len() > 0 ==> !white_space(trimmed_start(text)[0]),
    decreases text.len(),
{
    if text.len() > 0 && white_space(text[0]) {
        let rest = lemma_lead(text.drop_first());
        let lead = seq![text[0]] + rest;
        assert forall|i: int| 0 <= i < lead.len() implies white_space(#[trigger] lead[i]) by {
            if i > 0 {
                assert(lead[i] == rest[i - 1]);
            }
        }
        assert(text =~= seq![text[0]] + text.drop_first());
        assert(text =~= lead + trimmed_start(text));
        lead
    } else {
        assert(text =~= Seq::<char>::empty() + text);
        Seq::empty()
    }
}

proof fn lemma_tail(text: Seq<char>) -> (tail: Seq<char>)
    ensures
        all_white(tail),
        text == trimmed_end(text) + tail,
        trimmed_end(text).len() > 0 ==> !white_space(trimmed_end(text).last())
            && trimmed_end(text)[0] == text[0],
    decreases text.len(),
{
    if text.len() > 0 && white_space(text.last()) {
        let rest = lemma_tail(text.drop_last());
        let tail = rest.push(text.last());
        assert(text =~= text.drop_last().push(text.last()));
        assert(text =~= trimmed_end(text) + tail);
        tail
    } else {
        assert(text =~= text + Seq::<char>::empty());
        Seq::empty()
    }
}

proof fn lemma_joined_split(text: Seq<char>, separator: char)
    ensures
        split(text, separator).len() > 0,
        joined(split(text, separator), seq![separator]) == text,
        forall|i: int|
            0 <= i < split(text, separator).len() ==> !(#[trigger] split(
                text,
                separator,
            )[i]).contains(separator),
    decreases text.len(),
{
    let between = seq![separator];
    if text.len() > 0 {
        let shorter = text.drop_last();
        lemma_joined_split(shorter, separator);
        let parts = split(shorter, separator);
        let all = split(text, separator);
        if text.last() == separator {
            assert(all.drop_last() =~= parts);
            assert(joined(all, between) =~= text);
        } else {
            let longer = parts.last().push(text.last());
            assert(!parts[parts.len() - 1].contains(separator));
            assert forall|i: int| 0 <= i < longer.len() implies longer[i] != separator by {
                if i < parts.last().len() {
                    assert(parts.last().contains(parts.last()[i]));
                }
            }
            assert(all.drop_last() =~= parts.drop_last());
            assert(text =~= joined(parts, between).push(text.last()));
            if parts.len() == 1 {
                assert(joined(all, between) == longer);
                assert(joined(parts, between) == parts.last());
            }
            assert(joined(all, between) =~= text);
        }
    }
}

/// The parts of a text hold no separator, and joined with it they are the text again.
pub proof fn parts_join_to_the_text(
    text: &str,
    separator: char,
    parts: Vec<String>,
    between: &str,
    whole: String,
)
    requires
        call_ensures(split_text, (text, separator), parts),
        between@ == seq![separator],
        call_ensures(join, (&parts, between), whole),
    ensures
        whole@ == text@,
        forall|i: int| 0 <= i < parts@.len() ==> !(#[trigger] parts@[i])@.contains(separator),
{
    lemma_joined_split(text@, separator);
    assert forall|i: int| 0 <= i < parts@.len() implies !(#[trigger] parts@[i])@.contains(
        separator,
    ) by {
        assert(views(parts@)[i] == parts@[i]@);
    }
}

/// The lines with this ending behind each of them, one after the other.
pub open spec fn ended_lines(lines: Seq<Seq<char>>, ending: Seq<char>) -> Seq<char>
    decreases lines.len(),
{
    if lines.len() == 0 {
        Seq::empty()
    } else {
        ended_lines(lines.drop_last(), ending) + lines.last() + ending
    }
}

proof fn lemma_split_append(start: Seq<char>, rest: Seq<char>, separator: char)
    requires
        !rest.contains(separator),
    ensures
        split(start, separator).len() > 0,
        split(start + rest, separator) == split(start, separator).drop_last().push(
            split(start, separator).last() + rest,
        ),
    decreases rest.len(),
{
    lemma_split_nonempty(start, separator);
    let parts = split(start, separator);
    if rest.len() == 0 {
        assert(start + rest == start);
        assert(parts.last() + rest == parts.last());
        assert(parts.drop_last().push(parts.last()) == parts);
    } else {
        let shorter = rest.drop_last();
        assert forall|i: int| 0 <= i < shorter.len() implies shorter[i] != separator by {
            assert(rest.contains(rest[i]));
        }
        lemma_split_append(start, shorter, separator);
        assert((start + rest).drop_last() == start + shorter);
        assert(rest.contains(rest.last()));
        assert(split(start + shorter, separator).drop_last() == parts.drop_last());
        assert((parts.last() + shorter).push(rest.last()) == parts.last() + rest);
    }
}

proof fn lemma_split_ended(lines: Seq<Seq<char>>, extra: Seq<char>)
    requires
        forall|i: int| 0 <= i < lines.len() ==> !(#[trigger] lines[i]).contains('\n'),
        !extra.contains('\n'),
    ensures
        split(ended_lines(lines, extra.push('\n')), '\n').len() == lines.len() + 1,
        split(ended_lines(lines, extra.push('\n')), '\n').last().len() == 0,
        forall|i: int|
            0 <= i < lines.len() ==> #[trigger] split(
                ended_lines(lines, extra.push('\n')),
                '\n',
            )[i] == lines[i] + extra,
    decreases lines.len(),
{
    let ending = extra.push('\n');
    if lines.len() > 0 {
        let shorter = lines.drop_last();
        assert forall|i: int| 0 <= i < shorter.len() implies !(#[trigger] shorter[i]).contains(
            '\n',
        ) by {
            assert(shorter[i] == lines[i]);
        }
        lemma_split_ended(shorter, extra);
        let start = ended_lines(shorter, ending);
        let line = lines.last() + extra;
        assert(!lines[lines.len() - 1].contains('\n'));
        assert forall|i: int| 0 <= i < line.len() implies line[i] != '\n' by {
            if i < lines.last().len() {
                assert(lines.last().contains(lines.last()[i]));
            } else {
                assert(extra.contains(extra[i - lines.last().len()]));
            }
        }
        lemma_split_append(start, line, '\n');
        let whole = ended_lines(lines, ending);
        assert(whole =~= (start + line).push('\n'));
        assert(whole.drop_last() =~= start + line);
        let parts = split(start, '\n');
        assert(parts.last() + line =~= line);
        let all = split(whole, '\n');
        assert(all =~= parts.drop_last().push(line).push(Seq::empty()));
        assert forall|i: int| 0 <= i < lines.len() implies #[trigger] all[i] == lines[i]
            + extra by {
            if i < shorter.len() {
                assert(parts[i] == shorter[i] + extra);
            }
        }
    }
}

/// The lines of a text are the lines that it was made of, whether each ends in a line feed or in a
/// carriage return and a line feed, and whether or not the last one is ended.
pub proof fn lines_are_read_back(
    lines_in: Seq<Seq<char>>,
    last: Seq<char>,
    ended: (&str, &str, &str),
    found: (Vec<String>, Vec<String>, Vec<String>),
)
    requires
        forall|i: int|
            0 <= i < lines_in.len() ==> !(#[trigger] lines_in[i]).contains('\n')
                && !lines_in[i].contains('\r'),
        last.len() > 0 && !last.contains('\n'),
        ended.0@ == ended_lines(lines_in, seq!['\n']),
        ended.1@ == ended_lines(lines_in, seq!['\r', '\n']),
        ended.2@ == ended_lines(lines_in, seq!['\n']) + last,
        call_ensures(lines, (ended.0,), found.0),
        call_ensures(lines, (ended.1,), found.1),
        call_ensures(lines, (ended.2,), found.2),
    ensures
        views(found.0@) == lines_in,
        views(found.1@) == lines_in,
        views(found.2@) == lines_in.push(last),
{
    let nothing = Seq::<char>::empty();
    lemma_split_ended(lines_in, nothing);
    assert(nothing.push('\n') =~= seq!['\n']);
    lemma_split_ended(lines_in, seq!['\r']);
    assert(seq!['\r'].push('\n') =~= seq!['\r', '\n']);
    let plain = split(ended.0@, '\n');
    assert forall|i: int| 0 <= i < lines_in.len() implies without_return(plain[i])
        == #[trigger] lines_in[i] by {
        assert(plain[i] == lines_in[i] + nothing);
        assert(lines_in[i] + nothing =~= lines_in[i]);
        if lines_in[i].len() > 0 {
            assert(lines_in[i].contains(lines_in[i].last()));
        }
    }
    assert(views(found.0@) =~= lines_in);
    let returned = split(ended.1@, '\n');
    assert forall|i: int| 0 <= i < lines_in.len() implies without_return(returned[i])
        == #[trigger] lines_in[i] by {
        assert(returned[i] == lines_in[i] + seq!['\r']);
        assert((lines_in[i] + seq!['\r']).drop_last() =~= lines_in[i]);
    }
    assert(views(found.1@) =~= lines_in);
    lemma_split_append(ended.0@, last, '\n');
    let open = split(ended.2@, '\n');
    assert(plain.last() + last =~= last);
    assert(open.drop_last() =~= plain.drop_last());
    assert(views(found.2@) =~= lines_in.push(last));
}

/// The number that decimal digits stand for.
pub open spec fn value_of(digits: Seq<char>) -> nat
    decreases digits.len(),
{
    if digits.len() == 0 {
        0
    } else {
        10 * value_of(digits.drop_last()) + (digits.last() as nat - '0' as nat) as nat
    }
}

pub(crate) proof fn lemma_decimal_value(n: nat)
    ensures
        value_of(decimal(n)) == n,
        n > 0 ==> decimal(n)[0] != '0',
    decreases n,
{
    let last = digit(n);
    assert(last as nat == 48 + n % 10);
    if n < 10 {
        assert(decimal(n).drop_last() =~= Seq::empty());
        assert(value_of(Seq::<char>::empty()) == 0);
    } else {
        lemma_decimal_value(n / 10);
        lemma_decimal_digits(n / 10);
        assert(decimal(n).drop_last() =~= decimal(n / 10));
    }
}

/// A number is written in decimal digits that stand for it, without a zero in front.
pub proof fn a_number_is_written_out(n: u128, digits: String)
    requires
        call_ensures(number, (n,), digits),
    ensures
        value_of(digits@) == n,
        forall|i: int| 0 <= i < digits@.len() ==> '0' <= #[trigger] digits@[i] <= '9',
        digits@.len() > 0,
        digits@[0] == '0' ==> n == 0 && digits@.len() == 1,
{
    lemma_decimal_value(n as nat);
    lemma_decimal_digits(n as nat);
}

/// Lowering a text takes each letter from `A` to `Z` to the one in the same place from `a` to `z`,
/// and leaves every other character.
pub proof fn lowering_keeps_the_letters(text: &str, lower: String)
    requires
        call_ensures(to_ascii_lowercase, (text,), lower),
    ensures
        lower@.len() == text@.len(),
        forall|i: int|
            0 <= i < text@.len() && 65 <= (#[trigger] text@[i]) as u32 <= 90
                ==> lower@[i] as u32 - 97
                == text@[i] as u32 - 65,
        forall|i: int|
            0 <= i < text@.len() && !(65 <= (#[trigger] text@[i]) as u32 <= 90) ==> lower@[i]
                == text@[i],
{
}

} // verus!
