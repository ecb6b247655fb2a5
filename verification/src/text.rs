//! Small operations on text, stated over sequences of characters.

use vstd::prelude::*;

verus! {

/// The characters of `s`, in order.
pub fn to_chars(s: &str) -> (chars: Vec<char>)
    ensures
        chars@ == s@,
{
    let mut chars: Vec<char> = Vec::new();
    for c in it: s.chars()
        invariant
            chars@ == it.seq().take(it.index()),
    {
        chars.push(c);
    }
    chars
}

/// Appends one character to a string.
///
/// Calls `String::push` of the standard library; the contract says that the
/// string afterwards is the old string with `c` at its end.
#[verifier::external_body]
fn push_char(s: &mut String, c: char)
    ensures
        final(s)@ == old(s)@.push(c),
{
    s.push(c)
}

/// The text made of `chars[from..to]`.
pub fn text_of(chars: &Vec<char>, from: usize, to: usize) -> (s: String)
    requires
        from <= to <= chars.len(),
    ensures
        s@ == chars@.subrange(from as int, to as int),
{
    let mut s = String::new();
    let mut i: usize = from;
    while i < to
        invariant
            from <= i <= to <= chars.len(),
            s@ == chars@.subrange(from as int, i as int),
        decreases to - i,
    {
        push_char(&mut s, chars[i]);
        i = i + 1;
        assert(chars@.subrange(from as int, i as int) == chars@.subrange(
            from as int,
            i as int - 1,
        ).push(chars@[i as int - 1]));
    }
    s
}

/// Whether two sequences of characters are the same.
pub fn same_chars(a: &Vec<char>, b: &Vec<char>) -> (same: bool)
    ensures
        same == (a@ == b@),
{
    if a.len() != b.len() {
        return false;
    }
    let mut i: usize = 0;
    while i < a.len()
        invariant
            i <= a.len() == b.len(),
            a@.take(i as int) == b@.take(i as int),
        decreases a.len() - i,
    {
        if a[i] != b[i] {
            return false;
        }
        i = i + 1;
        assert(a@.take(i as int) == a@.take(i as int - 1).push(a@[i as int - 1]));
        assert(b@.take(i as int) == b@.take(i as int - 1).push(b@[i as int - 1]));
    }
    assert(a@.take(i as int) == a@ && b@.take(i as int) == b@);
    true
}

/// Whether two texts hold the same characters.
pub fn same_text(a: &str, b: &str) -> (same: bool)
    ensures
        same == (a@ == b@),
{
    let x = to_chars(a);
    let y = to_chars(b);
    same_chars(&x, &y)
}

/// Whether `chars` begins with `prefix`.
pub fn begins_with(chars: &Vec<char>, prefix: &Vec<char>) -> (begins: bool)
    ensures
        begins == prefix@.is_prefix_of(chars@),
{
    if prefix.len() > chars.len() {
        return false;
    }
    let mut i: usize = 0;
    while i < prefix.len()
        invariant
            i <= prefix.len() <= chars.len(),
            chars@.take(i as int) == prefix@.take(i as int),
        decreases prefix.len() - i,
    {
        if chars[i] != prefix[i] {
            assert(chars@.subrange(0, prefix@.len() as int)[i as int] != prefix@[i as int]);
            return false;
        }
        i = i + 1;
        assert(chars@.take(i as int) == chars@.take(i as int - 1).push(chars@[i as int - 1]));
        assert(prefix@.take(i as int) == prefix@.take(i as int - 1).push(prefix@[i as int - 1]));
    }
    assert(prefix@.take(i as int) == prefix@);
    true
}

/// Whether `c` is white space: one of the characters that Unicode gives the
/// property `White_Space`.
pub open spec fn is_whitespace(c: char) -> bool {
    let code = c as u32;
    ||| 0x09 <= code <= 0x0D
    ||| code == 0x20
    ||| code == 0x85
    ||| code == 0xA0
    ||| code == 0x1680
    ||| 0x2000 <= code <= 0x200A
    ||| code == 0x2028
    ||| code == 0x2029
    ||| code == 0x202F
    ||| code == 0x205F
    ||| code == 0x3000
}

/// Tells whether `c` is white space.
pub fn whitespace(c: char) -> (white: bool)
    ensures
        white == is_whitespace(c),
{
    let code: u32 = c as u32;
    (0x09 <= code && code <= 0x0D) || code == 0x20 || code == 0x85 || code == 0xA0 || code
        == 0x1680 || (0x2000 <= code && code <= 0x200A) || code == 0x2028 || code == 0x2029
        || code == 0x202F || code == 0x205F || code == 0x3000
}

/// The words of a text: its longest runs of characters that are not white
/// space, in order.
///
/// Read from the left, one character more either is white space and adds
/// nothing, or goes on with the word that the text ended in, or starts a new
/// word.
pub open spec fn words_of(text: Seq<char>) -> Seq<Seq<char>>
    decreases text.len(),
{
    if text.len() == 0 {
        Seq::empty()
    } else {
        let before = words_of(text.drop_last());
        if is_whitespace(text.last()) {
            before
        } else if text.len() >= 2 && !is_whitespace(text[text.len() - 2]) && before.len() > 0 {
            before.drop_last().push(before.last().push(text.last()))
        } else {
            before.push(seq![text.last()])
        }
    }
}

/// A line without the carriage return that may stand at its end.
pub open spec fn without_return(line: Seq<char>) -> Seq<char> {
    if line.len() > 0 && line.last() == '\r' {
        line.drop_last()
    } else {
        line
    }
}

/// The lines of a text. A line ends with a line feed, or with a carriage
/// return and a line feed, and neither belongs to the line; the last line
/// need not end so. A carriage return that no line feed follows stays where
/// it is.
///
/// Read from the left, one character more either starts a new line (after a
/// line feed, or at the very beginning), or is the line feed that completes
/// the line that the text ended in, or goes on with that line.
pub open spec fn lines_of(text: Seq<char>) -> Seq<Seq<char>>
    decreases text.len(),
{
    if text.len() == 0 {
        Seq::empty()
    } else {
        let before = lines_of(text.drop_last());
        let open = text.len() >= 2 && text[text.len() - 2] != '\n' && before.len() > 0;
        if open {
            if text.last() == '\n' {
                before.drop_last().push(without_return(before.last()))
            } else {
                before.drop_last().push(before.last().push(text.last()))
            }
        } else {
            if text.last() == '\n' {
                before.push(Seq::empty())
            } else {
                before.push(seq![text.last()])
            }
        }
    }
}

/// A text without the white space at its beginning.
pub open spec fn trimmed_start(text: Seq<char>) -> Seq<char>
    decreases text.len(),
{
    if text.len() > 0 && is_whitespace(text[0]) {
        trimmed_start(text.skip(1))
    } else {
        text
    }
}

/// A text without the white space at its end.
pub open spec fn trimmed_end(text: Seq<char>) -> Seq<char>
    decreases text.len(),
{
    if text.len() > 0 && is_whitespace(text.last()) {
        trimmed_end(text.drop_last())
    } else {
        text
    }
}

/// A text without the white space at its beginning and at its end.
pub open spec fn trimmed(text: Seq<char>) -> Seq<char> {
    trimmed_end(trimmed_start(text))
}

/// The views of a list of texts.
pub open spec fn texts_view(texts: Seq<String>) -> Seq<Seq<char>> {
    Seq::new(texts.len(), |i: int| texts[i]@)
}

/// The words of `text`, in order.
pub fn words(text: &str) -> (words: Vec<String>)
    ensures
        texts_view(words@) == words_of(text@),
{
    let chars = to_chars(text);
    let mut done: Vec<String> = Vec::new();
    let mut current = String::new();
    let mut i: usize = 0;
    while i < chars.len()
        invariant
            i <= chars.len(),
            chars@ == text@,
            i > 0 && !is_whitespace(chars@[i - 1]) ==> current@.len() > 0 && words_of(
                chars@.take(i as int),
            ) == texts_view(done@).push(current@),
            !(i > 0 && !is_whitespace(chars@[i - 1])) ==> current@.len() == 0 && words_of(
                chars@.take(i as int),
            ) == texts_view(done@),
        decreases chars.len() - i,
    {
        let c = chars[i];
        proof {
            let upto = chars@.take(i + 1);
            assert(upto.drop_last() == chars@.take(i as int));
            assert(upto.last() == c);
            if i > 0 {
                assert(upto[upto.len() - 2] == chars@[i - 1]);
            }
        }
        if whitespace(c) {
            if i > 0 && !whitespace(chars[i - 1]) {
                let ghost before = texts_view(done@);
                done.push(current);
                assert(texts_view(done@) == before.push(current@));
                current = String::new();
            }
        } else {
            let ghost open = current@;
            push_char(&mut current, c);
            proof {
                let before = words_of(chars@.take(i as int));
                if i > 0 && !is_whitespace(chars@[i - 1]) {
                    assert(before.drop_last() == texts_view(done@));
                    assert(before.last() == open);
                } else {
                    assert(open.push(c) == seq![c]);
                }
            }
        }
        i = i + 1;
    }
    assert(chars@.take(i as int) == chars@);
    if i > 0 && !whitespace(chars[i - 1]) {
        let ghost before = texts_view(done@);
        done.push(current);
        assert(texts_view(done@) == before.push(current@));
    }
    done
}

/// The lines of `text`, in order.
pub fn lines(text: &str) -> (lines: Vec<String>)
    ensures
        texts_view(lines@) == lines_of(text@),
{
    let chars = to_chars(text);
    let mut done: Vec<String> = Vec::new();
    let mut start: usize = 0;
    let mut i: usize = 0;
    while i < chars.len()
        invariant
            start <= i <= chars.len(),
            chars@ == text@,
            start == 0 || chars@[start - 1] == '\n',
            forall|j: int| start <= j < i ==> chars@[j] != '\n',
            start < i ==> lines_of(chars@.take(i as int)) == texts_view(done@).push(
                chars@.subrange(start as int, i as int),
            ),
            start == i ==> lines_of(chars@.take(i as int)) == texts_view(done@),
        decreases chars.len() - i,
    {
        let c = chars[i];
        proof {
            let upto = chars@.take(i + 1);
            assert(upto.drop_last() == chars@.take(i as int));
            assert(upto.last() == c);
            if i > 0 {
                assert(upto[upto.len() - 2] == chars@[i - 1]);
            }
            if start < i {
                assert(texts_view(done@).push(chars@.subrange(start as int, i as int)).drop_last()
                    == texts_view(done@));
                assert(chars@.subrange(start as int, i as int).push(c) == chars@.subrange(
                    start as int,
                    i + 1,
                ));
            } else {
                assert(Seq::<char>::empty().push(c) == chars@.subrange(start as int, i + 1));
                assert(seq![c] == chars@.subrange(start as int, i + 1));
            }
        }
        if c == '\n' {
            let end: usize = if start < i && chars[i - 1] == '\r' {
                i - 1
            } else {
                i
            };
            let line = text_of(&chars, start, end);
            proof {
                let whole = chars@.subrange(start as int, i as int);
                if start < i {
                    assert(whole.last() == chars@[i - 1]);
                    assert(whole.drop_last() == chars@.subrange(start as int, i - 1));
                    assert(line@ == without_return(whole));
                } else {
                    assert(line@ == Seq::<char>::empty());
                }
            }
            let ghost before = texts_view(done@);
            done.push(line);
            assert(texts_view(done@) == before.push(line@));
            start = i + 1;
        }
        i = i + 1;
    }
    assert(chars@.take(i as int) == chars@);
    if start < i {
        let line = text_of(&chars, start, i);
        let ghost before = texts_view(done@);
        done.push(line);
        assert(texts_view(done@) == before.push(line@));
    }
    done
}

/// `text` without the white space at its beginning and at its end.
pub fn trim(text: &str) -> (short: String)
    ensures
        short@ == trimmed(text@),
{
    let chars = to_chars(text);
    let mut from: usize = 0;
    assert(chars@.skip(0) == chars@);
    while from < chars.len() && whitespace(chars[from])
        invariant
            from <= chars.len(),
            trimmed_start(chars@) == trimmed_start(chars@.skip(from as int)),
        decreases chars.len() - from,
    {
        assert(chars@.skip(from as int).skip(1) == chars@.skip(from + 1));
        from = from + 1;
    }
    assert(trimmed_start(chars@) == chars@.skip(from as int));
    let mut to: usize = chars.len();
    assert(chars@.subrange(from as int, to as int) == chars@.skip(from as int));
    while to > from && whitespace(chars[to - 1])
        invariant
            from <= to <= chars.len(),
            trimmed_end(chars@.skip(from as int)) == trimmed_end(
                chars@.subrange(from as int, to as int),
            ),
        decreases to,
    {
        assert(chars@.subrange(from as int, to as int).drop_last() == chars@.subrange(
            from as int,
            to - 1,
        ));
        to = to - 1;
    }
    text_of(&chars, from, to)
}

/// Whether `text` is one of `texts`.
pub open spec fn lists(texts: Seq<String>, text: Seq<char>) -> bool {
    exists|i: int| 0 <= i < texts.len() && (#[trigger] texts[i])@ == text
}

/// Tells whether `text` is one of `texts`.
pub fn listed(texts: &Vec<String>, text: &str) -> (found: bool)
    ensures
        found == lists(texts@, text@),
{
    let mut i: usize = 0;
    while i < texts.len()
        invariant
            i <= texts.len(),
            forall|j: int| 0 <= j < i ==> (#[trigger] texts@[j])@ != text@,
        decreases texts.len() - i,
    {
        if same_text(texts[i].as_str(), text) {
            return true;
        }
        i = i + 1;
    }
    false
}

/// No word is empty, and no word holds white space.
pub proof fn lemma_words_hold_no_whitespace(text: Seq<char>, index: int, at: int)
    requires
        0 <= index < words_of(text).len(),
        0 <= at < words_of(text)[index].len(),
    ensures
        !is_whitespace(words_of(text)[index][at]),
    decreases text.len(),
{
    if text.len() > 0 {
        let before = words_of(text.drop_last());
        let c = text.last();
        if is_whitespace(c) {
            lemma_words_hold_no_whitespace(text.drop_last(), index, at);
        } else if text.len() >= 2 && !is_whitespace(text[text.len() - 2]) && before.len() > 0 {
            if index < before.len() - 1 {
                lemma_words_hold_no_whitespace(text.drop_last(), index, at);
            } else if at < before.last().len() {
                lemma_words_hold_no_whitespace(text.drop_last(), index, at);
            }
        } else if index < before.len() {
            lemma_words_hold_no_whitespace(text.drop_last(), index, at);
        }
    }
}

/// Every word has a character.
pub proof fn lemma_words_are_not_empty(text: Seq<char>, index: int)
    requires
        0 <= index < words_of(text).len(),
    ensures
        words_of(text)[index].len() > 0,
    decreases text.len(),
{
    if text.len() > 0 {
        let before = words_of(text.drop_last());
        let c = text.last();
        if is_whitespace(c) {
            lemma_words_are_not_empty(text.drop_last(), index);
        } else if text.len() >= 2 && !is_whitespace(text[text.len() - 2]) && before.len() > 0 {
            if index < before.len() - 1 {
                lemma_words_are_not_empty(text.drop_last(), index);
            }
        } else if index < before.len() {
            lemma_words_are_not_empty(text.drop_last(), index);
        }
    }
}

/// No line holds a line feed.
pub proof fn lemma_lines_hold_no_line_feed(text: Seq<char>, index: int, at: int)
    requires
        0 <= index < lines_of(text).len(),
        0 <= at < lines_of(text)[index].len(),
    ensures
        lines_of(text)[index][at] != '\n',
    decreases text.len(),
{
    if text.len() > 0 {
        let before = lines_of(text.drop_last());
        let open = text.len() >= 2 && text[text.len() - 2] != '\n' && before.len() > 0;
        if index < before.len() - 1 || (!open && index < before.len()) {
            lemma_lines_hold_no_line_feed(text.drop_last(), index, at);
        } else if open && at < before.last().len() {
            lemma_lines_hold_no_line_feed(text.drop_last(), index, at);
        }
    }
}

/// A trimmed text neither begins nor ends with white space.
pub proof fn lemma_trimmed_is_bare(text: Seq<char>)
    ensures
        trimmed(text).len() > 0 ==> !is_whitespace(trimmed(text)[0]) && !is_whitespace(
            trimmed(text).last(),
        ),
{
    lemma_trimmed_start(text);
    lemma_trimmed_end(trimmed_start(text));
}

proof fn lemma_trimmed_start(text: Seq<char>)
    ensures
        trimmed_start(text).len() > 0 ==> !is_whitespace(trimmed_start(text)[0]),
        trimmed_start(text).len() <= text.len(),
    decreases text.len(),
{
    if text.len() > 0 && is_whitespace(text[0]) {
        lemma_trimmed_start(text.skip(1));
    }
}

proof fn lemma_trimmed_end(text: Seq<char>)
    ensures
        trimmed_end(text).len() > 0 ==> !is_whitespace(trimmed_end(text).last()),
        trimmed_end(text).len() > 0 ==> trimmed_end(text)[0] == text[0],
    decreases text.len(),
{
    if text.len() > 0 && is_whitespace(text.last()) {
        lemma_trimmed_end(text.drop_last());
    }
}

} // verus!
