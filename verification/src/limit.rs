use vstd::prelude::*;
use vstd::string::*;
use vstd::utf8::encode_utf8;

verus! {

/// What the row limit appends to a statement.
pub const AUTO_LIMIT_SUFFIX: &'static str = " LIMIT 1000";

/// An ASCII capital letter as its small letter, any other byte as itself.
pub open spec fn lower(b: u8) -> int {
    if 65 <= b && b <= 90 {
        b + 32
    } else {
        b as int
    }
}

/// Whether the five bytes from position `i` spell `limit` in any mix of
/// capital and small letters.
pub open spec fn limit_at(text: Seq<u8>, i: int) -> bool {
    &&& 0 <= i
    &&& i + 5 <= text.len()
    &&& lower(text[i]) == 108
    &&& lower(text[i + 1]) == 105
    &&& lower(text[i + 2]) == 109
    &&& lower(text[i + 3]) == 105
    &&& lower(text[i + 4]) == 116
}

/// Whether the word `limit` occurs anywhere in a UTF-8 text, in any mix of
/// capital and small letters. In UTF-8 an ASCII byte never stands inside the
/// encoding of another character, so this is the same question asked of the
/// characters.
pub open spec fn mentions_limit(text: Seq<u8>) -> bool {
    exists|i: int| limit_at(text, i)
}

fn lower_byte(b: u8) -> (l: u8)
    ensures
        l == lower(b),
{
    if 65 <= b && b <= 90 {
        b + 32
    } else {
        b
    }
}

fn spells_limit_at(bytes: &[u8], i: usize) -> (found: bool)
    requires
        i + 5 <= bytes@.len(),
    ensures
        found == limit_at(bytes@, i as int),
{
    lower_byte(bytes[i]) == 108 && lower_byte(bytes[i + 1]) == 105 && lower_byte(bytes[i + 2])
        == 109 && lower_byte(bytes[i + 3]) == 105 && lower_byte(bytes[i + 4]) == 116
}

/// Whether a statement already speaks of a limit: a plain search for the
/// word, blind to what the word means where it stands.
pub fn has_limit(text: &str) -> (found: bool)
    ensures
        found == mentions_limit(encode_utf8(text@)),
{
    let bytes = text.as_bytes();
    let n: usize = bytes.len();
    if n < 5 {
        return false;
    }
    let mut i: usize = 0;
    while i <= n - 5
        invariant
            n == bytes@.len(),
            n >= 5,
            i <= n - 4,
            bytes@ == encode_utf8(text@),
            forall|j: int| 0 <= j < i ==> !limit_at(bytes@, j),
        decreases n - i,
    {
        if spells_limit_at(bytes, i) {
            return true;
        }
        i = i + 1;
    }
    false
}

/// The text that runs for a statement: with the row limit appended where
/// the caller asked for it, the statement selects, and no limit is
/// mentioned yet; otherwise unchanged.
pub open spec fn limited(auto_limit: bool, is_query: bool, text: Seq<char>) -> Seq<char> {
    if auto_limit && is_query && !mentions_limit(encode_utf8(text)) {
        text + AUTO_LIMIT_SUFFIX@
    } else {
        text
    }
}

/// Applies the row limit to one statement.
pub fn apply_auto_limit(auto_limit: bool, is_query: bool, text: String) -> (out: String)
    ensures
        out@ == limited(auto_limit, is_query, text@),
{
    if auto_limit && is_query && !has_limit(text.as_str()) {
        text.concat(AUTO_LIMIT_SUFFIX)
    } else {
        text
    }
}

/// A statement that already mentions a limit is never changed, and neither
/// is one that does not select, nor any when the limit was not asked for.
pub proof fn limit_leaves_bounded_statements(auto_limit: bool, is_query: bool, text: Seq<char>)
    requires
        !auto_limit || !is_query || mentions_limit(encode_utf8(text)),
    ensures
        limited(auto_limit, is_query, text) == text,
{
}

/// An unbounded selection ends with the limit suffix once the limit is
/// applied, and starts with the statement as it was.
pub proof fn limit_is_appended(text: Seq<char>)
    requires
        !mentions_limit(encode_utf8(text)),
    ensures
        limited(true, true, text).len() == text.len() + AUTO_LIMIT_SUFFIX@.len(),
        limited(true, true, text).subrange(0, text.len() as int) == text,
        limited(true, true, text).subrange(
            text.len() as int,
            limited(true, true, text).len() as int,
        ) == AUTO_LIMIT_SUFFIX@,
{
    let out = limited(true, true, text);
    assert(out.subrange(0, text.len() as int) =~= text);
    assert(out.subrange(text.len() as int, out.len() as int) =~= AUTO_LIMIT_SUFFIX@);
}

} // verus!
