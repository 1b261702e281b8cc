use vstd::prelude::*;
use vstd::utf8::decode_utf8;
use vstd::utf8::valid_utf8;

verus! {

/// `needle` stands in `hay` starting at position `start`.
pub open spec fn occurs_at(hay: Seq<char>, needle: Seq<char>, start: int) -> bool {
    &&& 0 <= start
    &&& start + needle.len() <= hay.len()
    &&& hay.subrange(start, start + needle.len()) == needle
}

/// `needle` stands somewhere in `hay`; the empty text stands in every text.
pub open spec fn contains_text(hay: Seq<char>, needle: Seq<char>) -> bool {
    exists|start: int| occurs_at(hay, needle, start)
}

/// A text contains every text that stands in it between two others, and
/// the empty text; it contains no text longer than itself.
pub proof fn lemma_contains_text(before: Seq<char>, needle: Seq<char>, after: Seq<char>)
    ensures
        contains_text(before + needle + after, needle),
        contains_text(before, Seq::<char>::empty()),
        needle.len() > before.len() ==> !contains_text(before, needle),
{
    let hay = before + needle + after;
    assert(hay.subrange(before.len() as int, (before.len() + needle.len()) as int) =~= needle);
    assert(occurs_at(hay, needle, before.len() as int));
    assert(before.subrange(0, 0) =~= Seq::<char>::empty());
    assert(occurs_at(before, Seq::<char>::empty(), 0));
}

/// The characters of a string slice, one by one.
fn chars_of(s: &str) -> (r: Vec<char>)
    ensures
        r@ == s@,
{
    let n = s.unicode_len();
    let mut out: Vec<char> = Vec::new();
    let mut i: usize = 0;
    while i < n
        invariant
            n == s@.len(),
            i <= n,
            out@ == s@.subrange(0, i as int),
        decreases n - i,
    {
        out.push(s.get_char(i));
        i = i + 1;
    }
    out
}

/// Whether `needle` stands in `hay` at position `start`.
fn matches_at(hay: &Vec<char>, needle: &Vec<char>, start: usize) -> (r: bool)
    requires
        start + needle@.len() <= hay@.len(),
    ensures
        r == occurs_at(hay@, needle@, start as int),
{
    let hay_len = hay.len();
    let mut j: usize = 0;
    while j < needle.len()
        invariant
            hay_len == hay@.len(),
            start + needle@.len() <= hay@.len(),
            j <= needle@.len(),
            forall|k: int| 0 <= k < j ==> hay@[start + k] == needle@[k],
        decreases needle@.len() - j,
    {
        assert(start + j < hay@.len());
        if hay[start + j] != needle[j] {
            assert(hay@.subrange(start as int, start + needle@.len())[j as int] != needle@[j as int]);
            return false;
        }
        j = j + 1;
    }
    assert(hay@.subrange(start as int, start + needle@.len()) =~= needle@);
    true
}

/// Whether `needle` stands anywhere in `hay`, both given as characters.
fn contains_chars(h: &Vec<char>, n: &Vec<char>) -> (r: bool)
    ensures
        r == contains_text(h@, n@),
{
    if n.len() > h.len() {
        assert forall|start: int| !occurs_at(h@, n@, start) by {}
        return false;
    }
    let last: usize = h.len() - n.len();
    let mut start: usize = 0;
    while start < last
        invariant
            last + n@.len() == h@.len(),
            start <= last,
            forall|k: int| 0 <= k < start ==> !occurs_at(h@, n@, k),
        decreases last - start,
    {
        if matches_at(h, n, start) {
            return true;
        }
        start = start + 1;
    }
    if matches_at(h, n, last) {
        return true;
    }
    assert forall|k: int| !occurs_at(h@, n@, k) by {
        if 0 <= k < start {
        }
    }
    false
}

/// Whether `needle` stands anywhere in `hay`, as `str::contains` answers
/// for a string pattern.
pub fn contains(hay: &str, needle: &str) -> (r: bool)
    ensures
        r == contains_text(hay@, needle@),
{
    let h = chars_of(hay);
    let n = chars_of(needle);
    contains_chars(&h, &n)
}

/// A character with an ASCII capital letter made small; every other
/// character is left as it is.
pub open spec fn ascii_lower(c: char) -> char {
    if 'A' <= c <= 'Z' {
        ((c as u32) + 32) as char
    } else {
        c
    }
}

/// A text with every ASCII capital letter made small.
pub open spec fn ascii_lower_text(s: Seq<char>) -> Seq<char> {
    s.map_values(|c: char| ascii_lower(c))
}

/// `needle` stands somewhere in `hay` when ASCII letters are compared
/// without regard to case.
pub open spec fn contains_text_ignoring_case(hay: Seq<char>, needle: Seq<char>) -> bool {
    contains_text(ascii_lower_text(hay), ascii_lower_text(needle))
}

/// Making ASCII capitals small turns each of `A` to `Z` into the same
/// letter in small, and leaves every other character, small letters
/// included, as it is; a text that contains another one also contains it
/// when case is ignored.
pub proof fn lemma_ascii_lower(c: char, hay: Seq<char>, needle: Seq<char>)
    ensures
        'A' <= c <= 'Z' ==> 'a' <= ascii_lower(c) <= 'z' && ascii_lower(c) as u32 == c as u32 + 32,
        !('A' <= c <= 'Z') ==> ascii_lower(c) == c,
        ascii_lower('L') == 'l',
        contains_text(hay, needle) ==> contains_text_ignoring_case(hay, needle),
{
    if contains_text(hay, needle) {
        let k = choose|k: int| occurs_at(hay, needle, k);
        let lh = ascii_lower_text(hay);
        let ln = ascii_lower_text(needle);
        assert(lh.subrange(k, k + ln.len()) =~= ln);
        assert(occurs_at(lh, ln, k));
    }
}

/// The characters of a string slice with ASCII capitals made small.
fn lower_chars_of(s: &str) -> (r: Vec<char>)
    ensures
        r@ == ascii_lower_text(s@),
{
    let chars = chars_of(s);
    let mut out: Vec<char> = Vec::new();
    let mut i: usize = 0;
    while i < chars.len()
        invariant
            chars@ == s@,
            i <= chars@.len(),
            out@ == ascii_lower_text(s@.subrange(0, i as int)),
        decreases chars@.len() - i,
    {
        let c = chars[i];
        let l: char = if 'A' <= c && c <= 'Z' {
            let code: u8 = (c as u32 + 32) as u8;
            code as char
        } else {
            c
        };
        assert(l == ascii_lower(c));
        out.push(l);
        assert(s@.subrange(0, i + 1) =~= s@.subrange(0, i as int).push(c));
        i = i + 1;
        assert(out@ =~= ascii_lower_text(s@.subrange(0, i as int)));
    }
    assert(s@.subrange(0, chars@.len() as int) =~= s@);
    out
}

/// Whether `needle` stands anywhere in `hay` when ASCII letters are
/// compared without regard to case.
pub fn contains_ignoring_case(hay: &str, needle: &str) -> (r: bool)
    ensures
        r == contains_text_ignoring_case(hay@, needle@),
{
    let h = lower_chars_of(hay);
    let n = lower_chars_of(needle);
    contains_chars(&h, &n)
}

/// The title that a window gets when none is given or the given one is not
/// text.
pub open spec fn default_title() -> Seq<char> {
    "Obito Engine"@
}

/// The window title for the raw bytes of a C string, without its closing
/// nul: `None` stands for a null pointer. Bytes that are not UTF-8 give the
/// default title, as does a null pointer.
pub open spec fn title_for(raw: Option<Seq<u8>>) -> Seq<char> {
    match raw {
        None => default_title(),
        Some(bytes) => if valid_utf8(bytes) {
            decode_utf8(bytes)
        } else {
            default_title()
        },
    }
}

/// Calls `std::str::from_utf8` and copies the text out. The contract claims
/// that it succeeds exactly on well-formed UTF-8, as vstd's `valid_utf8`
/// states it, and that the text is then the decoding that vstd's
/// `decode_utf8` states.
#[verifier::external_body]
fn utf8_text(bytes: &[u8]) -> (r: Option<String>)
    ensures
        r is Some <==> valid_utf8(bytes@),
        r matches Some(s) ==> s@ == decode_utf8(bytes@),
{
    match std::str::from_utf8(bytes) {
        Ok(s) => Some(s.to_string()),
        Err(_) => None,
    }
}

/// The title from what decoding the given bytes gave: the decoded text, or
/// the default title where there was none.
pub fn title_or_default(decoded: Option<String>) -> (r: String)
    ensures
        decoded matches Some(s) ==> r@ == s@,
        decoded is None ==> r@ == default_title(),
{
    match decoded {
        Some(s) => s,
        None => String::from_str("Obito Engine"),
    }
}

/// The window title for the raw bytes of a C string (`None` for a null
/// pointer).
pub fn window_title(raw: Option<&[u8]>) -> (r: String)
    ensures
        r@ == title_for(
            match raw {
                Some(b) => Some(b@),
                None => None,
            },
        ),
{
    match raw {
        None => String::from_str("Obito Engine"),
        Some(bytes) => title_or_default(utf8_text(bytes)),
    }
}

/// A null pointer and bytes that are not UTF-8 both give the engine's own
/// name as the title, "Obito Engine"; UTF-8 bytes give exactly their text.
pub proof fn lemma_title_choice(bytes: Seq<u8>)
    ensures
        title_for(None) == "Obito Engine"@,
        !valid_utf8(bytes) ==> title_for(Some(bytes)) == title_for(None),
        valid_utf8(bytes) ==> title_for(Some(bytes)) == decode_utf8(bytes),
{
}

} // verus!
