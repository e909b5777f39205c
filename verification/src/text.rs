//! Texts: decimal numbers, joined lists, words and whitespace, and the
//! encodings of a text for HTML and for an address.

use vstd::prelude::*;
use vstd::string::*;
use vstd::utf8::*;

verus! {

/// The decimal digit for `d`.
pub open spec fn digit_char(d: int) -> char {
    if d == 0 {
        '0'
    } else if d == 1 {
        '1'
    } else if d == 2 {
        '2'
    } else if d == 3 {
        '3'
    } else if d == 4 {
        '4'
    } else if d == 5 {
        '5'
    } else if d == 6 {
        '6'
    } else if d == 7 {
        '7'
    } else if d == 8 {
        '8'
    } else {
        '9'
    }
}

/// The decimal numeral of `n`, without leading zeros.
pub open spec fn decimal(n: nat) -> Seq<char>
    decreases n,
{
    if n < 10 {
        seq![digit_char(n as int)]
    } else {
        decimal(n / 10).push(digit_char((n % 10) as int))
    }
}

/// The decimal numeral of `n`, with a minus sign before a negative number.
pub open spec fn signed_decimal(n: int) -> Seq<char> {
    if n < 0 {
        seq!['-'] + decimal((-n) as nat)
    } else {
        decimal(n as nat)
    }
}

fn digit_str(d: u64) -> (s: &'static str)
    requires
        d < 10,
    ensures
        s@ == seq![digit_char(d as int)],
{
    proof {
        reveal_strlit("0");
        reveal_strlit("1");
        reveal_strlit("2");
        reveal_strlit("3");
        reveal_strlit("4");
        reveal_strlit("5");
        reveal_strlit("6");
        reveal_strlit("7");
        reveal_strlit("8");
        reveal_strlit("9");
    }
    let s = if d == 0 {
        "0"
    } else if d == 1 {
        "1"
    } else if d == 2 {
        "2"
    } else if d == 3 {
        "3"
    } else if d == 4 {
        "4"
    } else if d == 5 {
        "5"
    } else if d == 6 {
        "6"
    } else if d == 7 {
        "7"
    } else if d == 8 {
        "8"
    } else {
        "9"
    };
    assert(s@ =~= seq![digit_char(d as int)]);
    s
}

/// Appends the decimal numeral of `n` to `text`.
pub fn push_decimal(text: &mut String, n: u64)
    ensures
        final(text)@ == old(text)@ + decimal(n as nat),
    decreases n,
{
    if n >= 10 {
        push_decimal(text, n / 10);
    }
    text.append(digit_str(n % 10));
    assert(text@ =~= old(text)@ + decimal(n as nat));
}

/// The decimal numeral of `n`.
pub fn u64_text(n: u64) -> (text: String)
    ensures
        text@ == decimal(n as nat),
{
    let mut text = String::new();
    push_decimal(&mut text, n);
    assert(text@ =~= decimal(n as nat));
    text
}

/// The decimal numeral of `n`, with a minus sign before a negative number.
pub fn i64_text(n: i64) -> (text: String)
    ensures
        text@ == signed_decimal(n as int),
{
    if n < 0 {
        let magnitude: u64 = (-(n as i128)) as u64;
        let mut text = String::from_str("-");
        proof {
            reveal_strlit("-");
        }
        push_decimal(&mut text, magnitude);
        assert(text@ =~= signed_decimal(n as int));
        text
    } else {
        u64_text(n as u64)
    }
}

/// The decimal numeral of `n`, with a minus sign before a negative number.
pub fn i32_text(n: i32) -> (text: String)
    ensures
        text@ == signed_decimal(n as int),
{
    i64_text(n as i64)
}

/// The views of the texts in `parts`.
pub open spec fn texts(parts: Seq<String>) -> Seq<Seq<char>> {
    parts.map_values(|part: String| part@)
}

/// The texts in `parts`, in order, with `sep` between each two neighbours.
pub open spec fn joined(parts: Seq<Seq<char>>, sep: Seq<char>) -> Seq<char>
    decreases parts.len(),
{
    if parts.len() == 0 {
        Seq::empty()
    } else if parts.len() == 1 {
        parts[0]
    } else {
        joined(parts.drop_last(), sep) + sep + parts.last()
    }
}

/// A joined text holds every part whole and in order: what is joined up to
/// the part `i` starts the whole text, and it ends with that part, which
/// follows a separator unless it comes first.
pub proof fn lemma_joined_holds_parts(parts: Seq<Seq<char>>, sep: Seq<char>, i: int)
    requires
        0 <= i < parts.len(),
    ensures
        joined(parts.take(i + 1), sep).is_prefix_of(joined(parts, sep)),
        joined(parts.take(i + 1), sep) == joined(parts.take(i), sep) + (if i > 0 {
            sep
        } else {
            Seq::empty()
        }) + parts[i],
    decreases parts.len(),
{
    let upto = parts.take(i + 1);
    assert(upto.drop_last() =~= parts.take(i));
    assert(upto.last() == parts[i]);
    if i == 0 {
        assert(joined(upto, sep) =~= joined(parts.take(0), sep) + Seq::<char>::empty() + parts[0]);
    }
    if i == parts.len() - 1 {
        assert(upto =~= parts);
    } else {
        let shorter = parts.drop_last();
        lemma_joined_holds_parts(shorter, sep, i);
        assert(shorter.take(i + 1) =~= upto);
    }
}

/// The length of a joined text: that of all its parts, and of one separator
/// less than there are parts.
pub open spec fn joined_len(parts: Seq<Seq<char>>, sep: Seq<char>) -> nat
    decreases parts.len(),
{
    if parts.len() == 0 {
        0
    } else if parts.len() == 1 {
        parts[0].len()
    } else {
        joined_len(parts.drop_last(), sep) + sep.len() + parts.last().len()
    }
}

/// Nothing of the parts is lost in joining them.
pub proof fn lemma_joined_len(parts: Seq<Seq<char>>, sep: Seq<char>)
    ensures
        joined(parts, sep).len() == joined_len(parts, sep),
    decreases parts.len(),
{
    if parts.len() > 1 {
        lemma_joined_len(parts.drop_last(), sep);
    }
}

/// Joins `parts` with `sep` between each two neighbours.
pub fn join(parts: &Vec<String>, sep: &str) -> (text: String)
    ensures
        text@ == joined(texts(parts@), sep@),
{
    let mut text = String::new();
    let mut i: usize = 0;
    while i < parts.len()
        invariant
            i <= parts.len(),
            text@ == joined(texts(parts@).take(i as int), sep@),
        decreases parts.len() - i,
    {
        if i > 0 {
            text.append(sep);
        }
        text.append(parts[i].as_str());
        proof {
            let before = texts(parts@).take(i as int);
            let after = texts(parts@).take(i + 1);
            assert(after.drop_last() =~= before);
            assert(after.last() == parts@[i as int]@);
            if i == 0 {
                assert(text@ =~= parts@[0]@);
            }
        }
        i += 1;
    }
    proof {
        assert(texts(parts@).take(parts.len() as int) =~= texts(parts@));
    }
    text
}

/// Where the last word of `text[..end]` starts: behind the last space, or at
/// the start of a text without one.
pub open spec fn last_word_start(text: Seq<char>, end: int) -> int
    decreases end,
{
    if end <= 0 {
        0
    } else if text[end - 1] == ' ' {
        end
    } else {
        last_word_start(text, end - 1)
    }
}

/// What follows the last space of `text`; all of a text without a space.
pub open spec fn last_word(text: Seq<char>) -> Seq<char> {
    text.subrange(last_word_start(text, text.len() as int), text.len() as int)
}

/// The last word holds no space, ends the text, and starts the text or
/// stands right behind a space.
pub proof fn lemma_last_word(text: Seq<char>)
    ensures
        last_word(text).len() <= text.len(),
        last_word(text) == text.skip(text.len() - last_word(text).len()),
        forall|i: int| 0 <= i < last_word(text).len() ==> last_word(text)[i] != ' ',
        last_word(text).len() < text.len() ==> text[text.len() - last_word(text).len() - 1]
            == ' ',
{
    lemma_last_word_start(text, text.len() as int);
}

proof fn lemma_last_word_start(text: Seq<char>, end: int)
    requires
        0 <= end <= text.len(),
    ensures
        0 <= last_word_start(text, end) <= end,
        forall|i: int| last_word_start(text, end) <= i < end ==> text[i] != ' ',
        last_word_start(text, end) > 0 ==> text[last_word_start(text, end) - 1] == ' ',
    decreases end,
{
    if end > 0 && text[end - 1] != ' ' {
        lemma_last_word_start(text, end - 1);
    }
}

/// What follows the last space of `text`; all of a text without a space.
pub fn last_word_of(text: &str) -> (word: String)
    ensures
        word@ == last_word(text@),
{
    let len = text.unicode_len();
    let mut start: usize = 0;
    let mut index: usize = 0;
    for at in it: text.chars()
        invariant
            it.seq() == text@,
            len == text@.len(),
            index == it.index(),
            start == last_word_start(text@, index as int),
            start <= index,
    {
        index += 1;
        if at == ' ' {
            start = index;
        }
    }
    text.substring_char(start, len).to_owned()
}

/// Whether `char::is_whitespace` holds of `c`.
pub uninterp spec fn white_space(c: char) -> bool;

/// Calls `char::is_whitespace`, which tells whether a character has the
/// Unicode property `White_Space`. The answer depends on the character alone.
#[verifier::external_body]
pub(crate) fn is_whitespace(c: char) -> (space: bool)
    ensures
        space == white_space(c),
{
    c.is_whitespace()
}

/// The number of whitespace characters with which `text[from..]` starts.
pub open spec fn leading_whitespace(text: Seq<char>, from: int) -> nat
    decreases text.len() - from,
{
    if 0 <= from < text.len() && white_space(text[from]) {
        1 + leading_whitespace(text, from + 1)
    } else {
        0
    }
}

/// `text` without the whitespace that it starts with.
pub open spec fn trimmed_start(text: Seq<char>) -> Seq<char> {
    text.skip(leading_whitespace(text, 0) as int)
}

/// Where the first space of `text[from..]` stands; the length of a text
/// that has none there.
pub open spec fn first_space(text: Seq<char>, from: int) -> int
    decreases text.len() - from,
{
    if 0 <= from < text.len() && text[from] != ' ' {
        first_space(text, from + 1)
    } else {
        from
    }
}

/// What a user has put behind the word that calls an action: what follows
/// the first space of `text`, without the whitespace that it starts with;
/// nothing for a text without a space.
pub open spec fn input_of(text: Seq<char>) -> Seq<char> {
    if first_space(text, 0) < text.len() {
        trimmed_start(text.skip(first_space(text, 0) + 1))
    } else {
        Seq::empty()
    }
}

/// The input starts with no whitespace, and it ends the text: before it
/// stand the first word, one space, and whitespace only.
pub proof fn lemma_input_of(text: Seq<char>)
    ensures
        input_of(text).len() > 0 ==> !white_space(input_of(text)[0]),
        input_of(text).len() <= text.len(),
        input_of(text) == text.skip(text.len() - input_of(text).len()),
        forall|i: int| 0 <= i < first_space(text, 0) ==> text[i] != ' ',
        first_space(text, 0) < text.len() ==> text[first_space(text, 0)] == ' ',
        forall|i: int|
            first_space(text, 0) < i < text.len() - input_of(text).len() ==> white_space(text[i]),
{
    lemma_first_space(text, 0);
    if first_space(text, 0) < text.len() {
        let rest = text.skip(first_space(text, 0) + 1);
        lemma_leading_whitespace(rest, 0);
        assert(input_of(text) =~= text.skip(text.len() - input_of(text).len()));
        assert forall|i: int|
            first_space(text, 0) < i < text.len() - input_of(text).len() implies white_space(
            text[i],
        ) by {
            assert(text[i] == rest[i - first_space(text, 0) - 1]);
        }
    } else {
        assert(input_of(text) =~= text.skip(text.len() - input_of(text).len()));
    }
}

proof fn lemma_first_space(text: Seq<char>, from: int)
    requires
        0 <= from <= text.len(),
    ensures
        from <= first_space(text, from) <= text.len(),
        forall|i: int| from <= i < first_space(text, from) ==> text[i] != ' ',
        first_space(text, from) < text.len() ==> text[first_space(text, from)] == ' ',
    decreases text.len() - from,
{
    if from < text.len() && text[from] != ' ' {
        lemma_first_space(text, from + 1);
    }
}

proof fn lemma_leading_whitespace(text: Seq<char>, from: int)
    requires
        0 <= from <= text.len(),
    ensures
        from + leading_whitespace(text, from) <= text.len(),
        forall|i: int| from <= i < from + leading_whitespace(text, from) ==> white_space(text[i]),
        from + leading_whitespace(text, from) < text.len() ==> !white_space(
            text[from + leading_whitespace(text, from)],
        ),
    decreases text.len() - from,
{
    if from < text.len() && white_space(text[from]) {
        lemma_leading_whitespace(text, from + 1);
    }
}

/// The number of whitespace characters with which `text[..end]` ends.
pub open spec fn trailing_whitespace(text: Seq<char>, end: int) -> nat
    decreases end,
{
    if 0 < end <= text.len() && white_space(text[end - 1]) {
        1 + trailing_whitespace(text, end - 1)
    } else {
        0
    }
}

/// `text` without the whitespace that it ends with.
pub open spec fn trimmed_end(text: Seq<char>) -> Seq<char> {
    text.take(text.len() - trailing_whitespace(text, text.len() as int))
}

proof fn lemma_trailing_whitespace(text: Seq<char>, end: int)
    requires
        0 <= end <= text.len(),
    ensures
        trailing_whitespace(text, end) <= end,
        forall|i: int| end - trailing_whitespace(text, end) <= i < end ==> white_space(text[i]),
        end - trailing_whitespace(text, end) > 0 ==> !white_space(
            text[end - trailing_whitespace(text, end) - 1],
        ),
    decreases end,
{
    if end > 0 && white_space(text[end - 1]) {
        lemma_trailing_whitespace(text, end - 1);
    }
}

/// A text trimmed at its end starts the text, does not end with
/// whitespace, and leaves out nothing but whitespace.
pub proof fn lemma_trimmed_end(text: Seq<char>)
    ensures
        trimmed_end(text).is_prefix_of(text),
        trimmed_end(text).len() > 0 ==> !white_space(trimmed_end(text).last()),
        forall|i: int| trimmed_end(text).len() <= i < text.len() ==> white_space(text[i]),
{
    lemma_trailing_whitespace(text, text.len() as int);
}

/// `text` without the whitespace that it ends with.
pub fn trim_end(text: &str) -> (trimmed: String)
    ensures
        trimmed@ == trimmed_end(text@),
{
    let len = text.unicode_len();
    let mut end: usize = 0;
    let mut index: usize = 0;
    for at in it: text.chars()
        invariant
            it.seq() == text@,
            len == text@.len(),
            index == it.index(),
            end == index - trailing_whitespace(text@, index as int),
    {
        index += 1;
        if !is_whitespace(at) {
            end = index;
        }
    }
    text.substring_char(0, end).to_owned()
}

/// Whether `c` stands somewhere in `text`.
pub fn contains_char(text: &str, c: char) -> (found: bool)
    ensures
        found == text@.contains(c),
{
    for at in it: text.chars()
        invariant
            it.seq() == text@,
            forall|j: int| 0 <= j < it.index() ==> text@[j] != c,
    {
        if at == c {
            return true;
        }
    }
    false
}

/// `text` with `with` in place of each `c`.
pub open spec fn replaced(text: Seq<char>, c: char, with: Seq<char>) -> Seq<char>
    decreases text.len(),
{
    if text.len() == 0 {
        Seq::empty()
    } else if text.last() == c {
        replaced(text.drop_last(), c, with) + with
    } else {
        replaced(text.drop_last(), c, with).push(text.last())
    }
}

/// `text` with `with` in place of each `c`.
pub fn replace_char(text: &str, c: char, with: &str) -> (replaced: String)
    ensures
        replaced@ == self::replaced(text@, c, with@),
{
    let len = text.unicode_len();
    let mut out = String::new();
    let mut kept: usize = 0;
    let mut index: usize = 0;
    proof {
        assert(text@.take(0) =~= Seq::<char>::empty());
        assert(out@ + text@.subrange(0, 0) =~= Seq::<char>::empty());
    }
    for at in it: text.chars()
        invariant
            it.seq() == text@,
            len == text@.len(),
            index == it.index(),
            kept <= index,
            out@ + text@.subrange(kept as int, index as int) == self::replaced(
                text@.take(index as int),
                c,
                with@,
            ),
    {
        proof {
            assert(text@.take(index + 1).drop_last() =~= text@.take(index as int));
            assert(text@.take(index + 1).last() == at);
        }
        if at == c {
            out.append(text.substring_char(kept, index));
            out.append(with);
            kept = index + 1;
            proof {
                assert(out@ + text@.subrange(kept as int, index + 1) =~= self::replaced(
                    text@.take(index + 1),
                    c,
                    with@,
                ));
            }
        } else {
            proof {
                assert(out@ + text@.subrange(kept as int, index + 1) =~= (out@ + text@.subrange(
                    kept as int,
                    index as int,
                )).push(at));
            }
        }
        index += 1;
    }
    out.append(text.substring_char(kept, len));
    proof {
        assert(text@.take(len as int) =~= text@);
    }
    out
}

fn find_first_space(text: &str, len: usize) -> (space: usize)
    requires
        len == text@.len(),
    ensures
        space == first_space(text@, 0),
        space <= len,
{
    let mut index: usize = 0;
    for at in it: text.chars()
        invariant
            it.seq() == text@,
            len == text@.len(),
            index == it.index(),
            first_space(text@, 0) == first_space(text@, index as int),
    {
        if at == ' ' {
            return index;
        }
        index += 1;
    }
    index
}

/// The first word of `text`: what stands before its first space.
pub fn first_word(text: &str) -> (word: String)
    ensures
        word@ == text@.take(first_space(text@, 0)),
{
    let len = text.unicode_len();
    let space = find_first_space(text, len);
    text.substring_char(0, space).to_owned()
}

/// What a user has put behind the word that calls an action: what follows
/// the first space of `text`, without the whitespace that it starts with.
pub fn input(text: &str) -> (input: String)
    ensures
        input@ == input_of(text@),
{
    let len = text.unicode_len();
    let mut space: Option<usize> = None;
    let mut index: usize = 0;
    for at in it: text.chars()
        invariant
            it.seq() == text@,
            len == text@.len(),
            index == it.index(),
            space is None ==> first_space(text@, 0) == first_space(text@, index as int),
            space matches Some(found) ==> found < index && found == first_space(text@, 0)
                && leading_whitespace(text@.skip(found + 1), 0) == (index - found - 1)
                + leading_whitespace(text@.skip(found + 1), index - found - 1),
    {
        match space {
            None => {
                if at == ' ' {
                    space = Some(index);
                }
            },
            Some(found) => {
                let ghost rest = text@.skip(found + 1);
                assert(rest[index - found - 1] == at);
                if !is_whitespace(at) {
                    proof {
                        assert(rest.skip(index - found - 1) =~= text@.subrange(
                            index as int,
                            len as int,
                        ));
                    }
                    return text.substring_char(index, len).to_owned();
                }
            },
        }
        index += 1;
    }
    proof {
        match space {
            Some(found) => {
                let rest = text@.skip(found + 1);
                assert(rest.skip(len - found - 1) =~= Seq::<char>::empty());
            },
            None => {},
        }
    }
    String::new()
}

/// What `htmlescape::encode_minimal` writes for one character.
pub open spec fn escaped_char(c: char) -> Seq<char> {
    if c == '"' {
        "&quot;"@
    } else if c == '&' {
        "&amp;"@
    } else if c == '\'' {
        "&#x27;"@
    } else if c == '<' {
        "&lt;"@
    } else if c == '>' {
        "&gt;"@
    } else {
        seq![c]
    }
}

/// `text` with the five characters that HTML reserves written as entities.
pub open spec fn escaped(text: Seq<char>) -> Seq<char> {
    text.map_values(|c: char| escaped_char(c)).flatten()
}

/// Calls `htmlescape::encode_minimal`, which goes through the characters of
/// its argument in order and writes `&quot;` for `"`, `&amp;` for `&`,
/// `&#x27;` for `'`, `&lt;` for `<`, `&gt;` for `>`, and every other
/// character as it is.
#[verifier::external_body]
pub(crate) fn encode_minimal(text: &str) -> (encoded: String)
    ensures
        encoded@ == escaped(text@),
{
    htmlescape::encode_minimal(text)
}

/// The digit of `n` to the base sixteen, in capitals.
pub open spec fn hex_digit(n: int) -> char {
    if n < 10 {
        digit_char(n)
    } else if n == 10 {
        'A'
    } else if n == 11 {
        'B'
    } else if n == 12 {
        'C'
    } else if n == 13 {
        'D'
    } else if n == 14 {
        'E'
    } else {
        'F'
    }
}

/// Whether `byte` stands for itself in an address: an ASCII letter or
/// digit, `-`, `.`, `_` or `~`.
pub open spec fn unreserved(byte: u8) -> bool {
    ||| 0x30 <= byte <= 0x39
    ||| 0x41 <= byte <= 0x5a
    ||| 0x61 <= byte <= 0x7a
    ||| byte == 0x2d
    ||| byte == 0x2e
    ||| byte == 0x5f
    ||| byte == 0x7e
}

/// What `urlencoding::encode` writes for one byte: the byte itself if it
/// is unreserved, else a percent sign and its two digits to the base
/// sixteen.
pub open spec fn percent_encoded_byte(byte: u8) -> Seq<char> {
    if unreserved(byte) {
        seq![byte as char]
    } else {
        seq!['%', hex_digit(byte as int / 16), hex_digit(byte as int % 16)]
    }
}

/// `bytes` with all but the unreserved ones percent-encoded.
pub open spec fn percent_encoded(bytes: Seq<u8>) -> Seq<char>
    decreases bytes.len(),
{
    if bytes.len() == 0 {
        Seq::empty()
    } else {
        percent_encoded(bytes.drop_last()) + percent_encoded_byte(bytes.last())
    }
}

/// Calls `urlencoding::encode`, which goes through the bytes of its
/// argument in order, keeps ASCII letters and digits and `-`, `.`, `_`, `~`,
/// and writes every other byte as a percent sign and two digits to the base
/// sixteen, in capitals.
#[verifier::external_body]
pub(crate) fn url_encode(text: &str) -> (encoded: String)
    ensures
        encoded@ == percent_encoded(text.spec_bytes()),
{
    urlencoding::encode(text).into_owned()
}

/// The text that `String::from_utf8_lossy` reads from `bytes`.
pub uninterp spec fn lossy_text(bytes: Seq<u8>) -> Seq<char>;

/// Calls `String::from_utf8_lossy`, which reads bytes as UTF-8 and puts the
/// replacement character where they are not. The result depends on the bytes
/// alone; of bytes that are UTF-8 it is the text that they encode.
#[verifier::external_body]
pub(crate) fn from_utf8_lossy(bytes: &[u8]) -> (text: String)
    ensures
        text@ == lossy_text(bytes@),
        valid_utf8(bytes@) ==> text@ == decode_utf8(bytes@),
{
    String::from_utf8_lossy(bytes).into_owned()
}

} // verus!
