//! Telling UUIDs from usernames.

use vstd::prelude::*;
use vstd::string::StringSliceAdditionalSpecFns;
use vstd::utf8::is_ascii_chars;

verus! {

/// The two kinds of lookup key.
#[derive(Clone, Copy, Debug, PartialEq, Eq, Structural)]
pub enum IdKind {
    /// The key has the canonical text form of a UUID.
    Uuid,
    /// Anything else.
    Username,
}

/// Number of characters in the canonical text form of a UUID.
pub const UUID_TEXT_LEN: usize = 36;

/// `c` is one of `0-9`, `a-f`, `A-F`.
pub open spec fn is_hex_digit(c: char) -> bool {
    ||| '0' <= c <= '9'
    ||| 'a' <= c <= 'f'
    ||| 'A' <= c <= 'F'
}

/// The positions of the four hyphens that separate the 8-4-4-4-12 groups.
pub open spec fn is_hyphen_position(i: int) -> bool {
    i == 8 || i == 13 || i == 18 || i == 23
}

/// The character at position `i` is what the canonical form wants there:
/// a hyphen between groups, a hex digit inside one.
pub open spec fn fits_uuid_at(s: Seq<char>, i: int) -> bool {
    if is_hyphen_position(i) {
        s[i] == '-'
    } else {
        is_hex_digit(s[i])
    }
}

/// `s` is a UUID in canonical text form: 36 characters, hex digits of
/// either case in groups of 8, 4, 4, 4 and 12, one hyphen between groups.
pub open spec fn is_uuid_text(s: Seq<char>) -> bool {
    &&& s.len() == UUID_TEXT_LEN
    &&& forall|i: int| 0 <= i < UUID_TEXT_LEN ==> #[trigger] fits_uuid_at(s, i)
}

/// The kind of the key `s`.
pub open spec fn kind_of(s: Seq<char>) -> IdKind {
    if is_uuid_text(s) {
        IdKind::Uuid
    } else {
        IdKind::Username
    }
}

/// A UUID in canonical text form holds ASCII characters only.
pub proof fn uuid_text_is_ascii(s: Seq<char>)
    requires
        is_uuid_text(s),
    ensures
        is_ascii_chars(s),
{
    assert forall|i: int| 0 <= i < s.len() implies '\0' <= #[trigger] s[i] <= '\u{7f}' by {
        assert(fits_uuid_at(s, i));
    }
}

/// Whether the ASCII byte `b` is a hex digit.
fn is_hex_byte(b: u8) -> (r: bool)
    ensures
        r == (0x30 <= b <= 0x39 || 0x61 <= b <= 0x66 || 0x41 <= b <= 0x46),
{
    (0x30 <= b && b <= 0x39) || (0x61 <= b && b <= 0x66) || (0x41 <= b && b <= 0x46)
}

/// Classifies a lookup key. Never fails: a key that is not a UUID is a
/// username.
pub fn classify(id: &str) -> (kind: IdKind)
    ensures
        kind == kind_of(id@),
{
    if !id.is_ascii() {
        proof {
            if is_uuid_text(id@) {
                uuid_text_is_ascii(id@);
            }
        }
        return IdKind::Username;
    }
    let len: usize = id.as_bytes().len();
    proof {
        vstd::string::is_ascii_spec_bytes(id);
        assert(id.spec_bytes().len() == id@.len());
        assert(len == id@.len());
    }
    if len != UUID_TEXT_LEN {
        return IdKind::Username;
    }
    let mut i: usize = 0;
    while i < UUID_TEXT_LEN
        invariant
            i <= UUID_TEXT_LEN,
            id.is_ascii(),
            id@.len() == UUID_TEXT_LEN,
            forall|j: int| 0 <= j < i ==> #[trigger] fits_uuid_at(id@, j),
        decreases UUID_TEXT_LEN - i,
    {
        let b: u8 = id.get_ascii(i);
        let fits = if i == 8 || i == 13 || i == 18 || i == 23 {
            b == 0x2d
        } else {
            is_hex_byte(b)
        };
        proof {
            let c = id@[i as int];
            assert('\0' <= c <= '\u{7f}');
            assert(c as u8 == b);
            assert(fits == fits_uuid_at(id@, i as int));
        }
        if !fits {
            return IdKind::Username;
        }
        i += 1;
    }
    IdKind::Uuid
}

} // verus!
