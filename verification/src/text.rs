//! The text that the parent prints of a child's output stream: the bytes
//! decoded as UTF-8 (invalid sequences replaced), trimmed of surrounding
//! white space, with every double quote removed.

use vstd::prelude::*;
use vstd::utf8::*;

verus! {

/// The characters of Unicode's `White_Space` property, which `str::trim`
/// removes.
pub open spec fn is_white_space(c: char) -> bool {
    let u = c as u32;
    ||| 0x9 <= u <= 0xD
    ||| u == 0x20
    ||| u == 0x85
    ||| u == 0xA0
    ||| u == 0x1680
    ||| 0x2000 <= u <= 0x200A
    ||| u == 0x2028
    ||| u == 0x2029
    ||| u == 0x202F
    ||| u == 0x205F
    ||| u == 0x3000
}

/// `s` without its leading white space.
pub open spec fn trim_start_spec(s: Seq<char>) -> Seq<char>
    decreases s.len(),
{
    if s.len() > 0 && is_white_space(s[0]) {
        trim_start_spec(s.drop_first())
    } else {
        s
    }
}

/// `s` without its trailing white space.
pub open spec fn trim_end_spec(s: Seq<char>) -> Seq<char>
    decreases s.len(),
{
    if s.len() > 0 && is_white_space(s.last()) {
        trim_end_spec(s.drop_last())
    } else {
        s
    }
}

/// `s` without its leading and trailing white space.
pub open spec fn trim_spec(s: Seq<char>) -> Seq<char> {
    trim_end_spec(trim_start_spec(s))
}

/// `s` with every `"` removed.
pub open spec fn without_quotes(s: Seq<char>) -> Seq<char>
    decreases s.len(),
{
    if s.len() == 0 {
        s
    } else if s.last() == '"' {
        without_quotes(s.drop_last())
    } else {
        without_quotes(s.drop_last()).push(s.last())
    }
}

/// What `String::from_utf8_lossy` makes of `bytes`.
pub uninterp spec fn lossy_utf8(bytes: Seq<u8>) -> Seq<char>;

/// Calls `String::from_utf8_lossy` and takes the result as an owned string.
/// Its result is named `lossy_utf8`; as its documentation says, bytes that
/// are valid UTF-8 decode to the characters they encode.
#[verifier::external_body]
fn utf8_lossy(bytes: &[u8]) -> (s: String)
    ensures
        s@ == lossy_utf8(bytes@),
        valid_utf8(bytes@) ==> s@ == decode_utf8(bytes@),
{
    String::from_utf8_lossy(bytes).into_owned()
}

/// Calls `str::trim`, which removes leading and trailing characters that have
/// the Unicode `White_Space` property.
#[verifier::external_body]
fn trim_white_space(s: &str) -> (t: &str)
    ensures
        t@ == trim_spec(s@),
{
    s.trim()
}

/// Calls `String::push`, which appends one character.
#[verifier::external_body]
fn push_char(s: &mut String, c: char)
    ensures
        final(s)@ == old(s)@.push(c),
{
    s.push(c)
}

/// `text` with every `"` removed, as `str::replace("\"", "")` gives it.
pub fn remove_quotes(text: &str) -> (r: String)
    ensures
        r@ == without_quotes(text@),
{
    let mut r = String::new();
    for c in it: text.chars()
        invariant
            it.seq() == text@,
            r@ == without_quotes(text@.take(it.index())),
    {
        assert(text@.take(it.index() + 1).drop_last() =~= text@.take(it.index()));
        if c != '"' {
            push_char(&mut r, c);
        }
    }
    assert(text@.take(text@.len() as int) =~= text@);
    r
}

/// The text that the parent prints of a child's output stream.
pub open spec fn presented_spec(bytes: Seq<u8>) -> Seq<char> {
    without_quotes(trim_spec(lossy_utf8(bytes)))
}

/// Decodes a child's output stream, trims it and removes its double quotes.
pub fn present_stream(bytes: &[u8]) -> (r: String)
    ensures
        r@ == presented_spec(bytes@),
{
    let decoded = utf8_lossy(bytes);
    let trimmed = trim_white_space(decoded.as_str());
    remove_quotes(trimmed)
}

/// Removing quotes leaves no `"` behind and keeps every other character in order.
pub proof fn lemma_without_quotes_has_none(s: Seq<char>)
    ensures
        forall|i: int| 0 <= i < without_quotes(s).len() ==> without_quotes(s)[i] != '"',
        without_quotes(s).len() <= s.len(),
        without_quotes(without_quotes(s)) == without_quotes(s),
    decreases s.len(),
{
    if s.len() > 0 {
        lemma_without_quotes_has_none(s.drop_last());
        let r = without_quotes(s.drop_last());
        if s.last() != '"' {
            assert(r.push(s.last()).drop_last() =~= r);
        }
    }
}

/// Quote removal drops each `"` and keeps every other character, in order:
/// the empty text stays empty, a `"` appended adds nothing, and any other
/// character appended is appended to the result.
pub proof fn lemma_without_quotes_keeps_others(s: Seq<char>, c: char)
    ensures
        without_quotes(Seq::<char>::empty()) == Seq::<char>::empty(),
        c == '"' ==> without_quotes(s.push(c)) == without_quotes(s),
        c != '"' ==> without_quotes(s.push(c)) == without_quotes(s).push(c),
{
    assert(s.push(c).drop_last() =~= s);
    assert(s.push(c).last() == c);
}

/// Quote removal is the filter that keeps exactly the characters other than `"`.
pub proof fn lemma_without_quotes_is_filter(s: Seq<char>)
    ensures
        without_quotes(s) == s.filter(|x: char| x != '"'),
    decreases s.len(),
{
    reveal_with_fuel(Seq::filter, 1);
    if s.len() > 0 {
        lemma_without_quotes_is_filter(s.drop_last());
        assert(s.drop_last().push(s.last()) =~= s);
        Seq::filter_distributes_over_add(s.drop_last(), seq![s.last()], |x: char| x != '"');
        assert(seq![s.last()].filter(|x: char| x != '"') =~= (if s.last() != '"' {
            seq![s.last()]
        } else {
            Seq::<char>::empty()
        })) by {
            reveal_with_fuel(Seq::filter, 2);
        }
        assert(s.drop_last() + seq![s.last()] =~= s);
    } else {
        assert(s.filter(|x: char| x != '"') =~= s);
    }
}

/// The text printed of a child's stream never holds a double quote.
pub proof fn lemma_presented_text_has_no_quotes(bytes: Seq<u8>)
    ensures
        forall|i: int| 0 <= i < presented_spec(bytes).len() ==> presented_spec(bytes)[i] != '"',
{
    lemma_without_quotes_has_none(trim_spec(lossy_utf8(bytes)));
}

} // verus!
