//! The errors the repositories report, and how a database failure is
//! recognised as a duplicate-key violation.
use crate::model::ObjectId;
use vstd::prelude::*;

verus! {

/// What a failed database operation reports, as plain values.
///
/// `command_code` is the server's error code when the failure is a command
/// error, `write_error_code` the code when it is a write error, and `message`
/// the failure's full text.
#[derive(Clone, Debug)]
pub struct DatabaseError {
    pub command_code: Option<i32>,
    pub write_error_code: Option<i32>,
    pub message: String,
}

/// The errors of the API's storage layer.
#[derive(Clone, Debug)]
pub enum AppError {
    BadRequest(String),
    NotFound(String),
    InternalError(String),
    Database(DatabaseError),
}

/// The server codes of a duplicate-key violation.
pub open spec fn is_duplicate_key_code(code: i32) -> bool {
    code == 11000 || code == 11001 || code == 12582
}

/// `text` holds `part` as a contiguous run of characters.
pub open spec fn mentions(text: Seq<char>, part: Seq<char>) -> bool {
    exists|i: int| 0 <= i && i + part.len() <= text.len() && #[trigger] text.subrange(i, i + part.len()) == part
}

/// A database failure is a duplicate-key violation when its command or write
/// error code says so, or when its text names one.
pub open spec fn duplicate_key_violation(err: DatabaseError) -> bool {
    ||| (err.command_code matches Some(code) && is_duplicate_key_code(code))
    ||| (err.write_error_code matches Some(code) && is_duplicate_key_code(code))
    ||| mentions(err.message@, "E11000"@)
    ||| mentions(err.message@, "duplicate key"@)
    ||| mentions(err.message@, "DuplicateKey"@)
}

/// The characters of `s`, in order.
fn chars_of(s: &str) -> (chars: Vec<char>)
    ensures
        chars@ == s@,
{
    let n = s.unicode_len();
    let mut chars: Vec<char> = Vec::new();
    let mut i: usize = 0;
    while i < n
        invariant
            i <= n,
            n == s@.len(),
            chars@ == s@.subrange(0, i as int),
        decreases n - i,
    {
        chars.push(s.get_char(i));
        i = i + 1;
    }
    assert(chars@ =~= s@);
    chars
}

/// Does `text` hold `part` starting at `start`?
fn occurs_at(text: &Vec<char>, part: &Vec<char>, start: usize) -> (found: bool)
    requires
        start + part.len() <= text.len(),
    ensures
        found == (text@.subrange(start as int, start + part.len()) == part@),
{
    let mut j: usize = 0;
    while j < part.len()
        invariant
            j <= part.len(),
            start + part.len() <= text.len(),
            forall|k: int| 0 <= k < j ==> text@[start + k] == part@[k],
        decreases part.len() - j,
    {
        if text[start + j] != part[j] {
            assert(text@.subrange(start as int, start + part.len())[j as int] != part@[j as int]);
            return false;
        }
        j = j + 1;
    }
    assert(text@.subrange(start as int, start + part.len()) =~= part@);
    true
}

/// Does `text` hold `part` as a contiguous run of characters?
pub fn text_mentions(text: &str, part: &str) -> (found: bool)
    ensures
        found == mentions(text@, part@),
{
    let t = chars_of(text);
    let p = chars_of(part);
    if p.len() > t.len() {
        return false;
    }
    let last = t.len() - p.len();
    let mut start: usize = 0;
    loop
        invariant
            last + p.len() == t.len(),
            t@ == text@,
            p@ == part@,
            start <= last,
            forall|i: int| 0 <= i < start ==> #[trigger] t@.subrange(i, i + p@.len()) != p@,
        decreases last - start,
    {
        if occurs_at(&t, &p, start) {
            assert(t@.subrange(start as int, start + p@.len()) == p@);
            return true;
        }
        if start == last {
            return false;
        }
        start = start + 1;
    }
}

/// Is the failure a duplicate-key violation (server codes 11000, 11001 or
/// 12582, or a text naming `E11000`, `duplicate key` or `DuplicateKey`)?
pub fn is_duplicate_key_error(err: &DatabaseError) -> (duplicate: bool)
    ensures
        duplicate == duplicate_key_violation(*err),
{
    if let Some(code) = err.command_code {
        if code == 11000 || code == 11001 || code == 12582 {
            return true;
        }
    }
    if let Some(code) = err.write_error_code {
        if code == 11000 || code == 11001 || code == 12582 {
            return true;
        }
    }
    let text = err.message.as_str();
    text_mentions(text, "E11000") || text_mentions(text, "duplicate key") || text_mentions(text, "DuplicateKey")
}

/// Any occurrence of `part` in `text`, at any position where it fits, counts
/// as a mention, including one that ends at the very end of `text`.
pub proof fn lemma_occurrence_is_mention(text: Seq<char>, part: Seq<char>, i: int)
    requires
        0 <= i,
        i + part.len() <= text.len(),
        text.subrange(i, i + part.len()) == part,
    ensures
        mentions(text, part),
{
}

/// A failure whose write error code is 11000, 11001 or 12582 is a
/// duplicate-key violation, whatever its text and command code.
pub proof fn lemma_duplicate_key_write_codes(err: DatabaseError)
    requires
        err.write_error_code == Some(11000i32) || err.write_error_code == Some(11001i32)
            || err.write_error_code == Some(12582i32),
    ensures
        duplicate_key_violation(err),
{
}

/// A failure whose command error code is 11000, 11001 or 12582 is a
/// duplicate-key violation, whatever its text and write error code.
pub proof fn lemma_duplicate_key_command_codes(err: DatabaseError)
    requires
        err.command_code == Some(11000i32) || err.command_code == Some(11001i32)
            || err.command_code == Some(12582i32),
    ensures
        duplicate_key_violation(err),
{
}

/// A failure whose text contains `E11000`, `duplicate key` or
/// `DuplicateKey` at position `i` is a duplicate-key violation, whatever its
/// codes.
pub proof fn lemma_duplicate_key_texts(err: DatabaseError, i: int)
    requires
        0 <= i,
        err.message@.subrange(i, i + 6) == seq!['E', '1', '1', '0', '0', '0'] && i + 6 <= err.message@.len()
        || err.message@.subrange(i, i + 13) == seq!['d', 'u', 'p', 'l', 'i', 'c', 'a', 't', 'e', ' ', 'k', 'e', 'y']
            && i + 13 <= err.message@.len()
        || err.message@.subrange(i, i + 12) == seq!['D', 'u', 'p', 'l', 'i', 'c', 'a', 't', 'e', 'K', 'e', 'y']
            && i + 12 <= err.message@.len(),
    ensures
        duplicate_key_violation(err),
{
    reveal_strlit("E11000");
    reveal_strlit("duplicate key");
    reveal_strlit("DuplicateKey");
    let m = err.message@;
    if i + 6 <= m.len() && m.subrange(i, i + 6) == seq!['E', '1', '1', '0', '0', '0'] {
        assert(m.subrange(i, i + "E11000"@.len()) == "E11000"@);
    } else if i + 13 <= m.len() && m.subrange(i, i + 13) == seq!['d', 'u', 'p', 'l', 'i', 'c', 'a', 't', 'e', ' ', 'k', 'e', 'y'] {
        assert(m.subrange(i, i + "duplicate key"@.len()) == "duplicate key"@);
    } else {
        assert(m.subrange(i, i + "DuplicateKey"@.len()) == "DuplicateKey"@);
    }
}

/// A failure is a duplicate-key violation only for those reasons: with no
/// code among 11000, 11001 and 12582 and none of the three texts anywhere in
/// its message, it is not one.
pub proof fn lemma_duplicate_key_only_for_those_reasons(err: DatabaseError)
    requires
        err.command_code != Some(11000i32) && err.command_code != Some(11001i32)
            && err.command_code != Some(12582i32),
        err.write_error_code != Some(11000i32) && err.write_error_code != Some(11001i32)
            && err.write_error_code != Some(12582i32),
        forall|i: int| 0 <= i && i + 6 <= err.message@.len()
            ==> #[trigger] err.message@.subrange(i, i + 6) != seq!['E', '1', '1', '0', '0', '0'],
        forall|i: int| 0 <= i && i + 13 <= err.message@.len()
            ==> #[trigger] err.message@.subrange(i, i + 13)
                != seq!['d', 'u', 'p', 'l', 'i', 'c', 'a', 't', 'e', ' ', 'k', 'e', 'y'],
        forall|i: int| 0 <= i && i + 12 <= err.message@.len()
            ==> #[trigger] err.message@.subrange(i, i + 12)
                != seq!['D', 'u', 'p', 'l', 'i', 'c', 'a', 't', 'e', 'K', 'e', 'y'],
    ensures
        !duplicate_key_violation(err),
{
    reveal_strlit("E11000");
    reveal_strlit("duplicate key");
    reveal_strlit("DuplicateKey");
    assert("E11000"@ =~= seq!['E', '1', '1', '0', '0', '0']);
    assert("duplicate key"@ =~= seq!['d', 'u', 'p', 'l', 'i', 'c', 'a', 't', 'e', ' ', 'k', 'e', 'y']);
    assert("DuplicateKey"@ =~= seq!['D', 'u', 'p', 'l', 'i', 'c', 'a', 't', 'e', 'K', 'e', 'y']);
}

} // verus!
