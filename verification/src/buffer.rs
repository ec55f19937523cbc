//! The names of the files that payloads are buffered in on disk, and the two
//! states of such a buffer.
use vstd::prelude::*;
use crate::text::push_str;

verus! {

/// The prefix of a buffer's file name when none is given.
pub open spec fn default_prefix() -> Seq<char> {
    "disk-buffer-"@
}

/// The file name of a buffer: its prefix, its identifier and the extension
/// `.bin`.
pub open spec fn spec_buffer_file_name(prefix: Option<Seq<char>>, id: Seq<char>) -> Seq<char> {
    (match prefix {
        Some(p) => p,
        None => default_prefix(),
    }) + id + ".bin"@
}

/// Whether a character is a lower-case hexadecimal digit.
pub open spec fn is_lower_hex_digit(c: char) -> bool {
    ('0' <= c && c <= '9') || ('a' <= c && c <= 'f')
}

/// Whether a text is a random (version 4, RFC 4122 variant) UUID in its
/// hyphenated lower-case form: 36 characters, hyphens at positions 8, 13, 18
/// and 23 and hexadecimal digits elsewhere, the version digit `4` at
/// position 14 and one of `8`, `9`, `a`, `b` at position 19.
pub open spec fn is_v4_uuid_text(id: Seq<char>) -> bool {
    &&& id.len() == 36
    &&& forall|i: int|
        0 <= i < 36 ==> if i == 8 || i == 13 || i == 18 || i == 23 {
            #[trigger] id[i] == '-'
        } else {
            is_lower_hex_digit(id[i])
        }
    &&& id[14] == '4'
    &&& (id[19] == '8' || id[19] == '9' || id[19] == 'a' || id[19] == 'b')
}

/// Draws a fresh identifier for a buffer: `uuid::Uuid::new_v4`, written with
/// `to_string`. `new_v4` masks random bits into a version 4, RFC 4122 variant
/// UUID, and its `Display` writes the hyphenated lower-case form; the
/// contract claims that form (see [`is_v4_uuid_text`]) and leaves open which
/// random identifier comes out.
#[verifier::external_body]
fn new_buffer_id() -> (r: String)
    ensures
        is_v4_uuid_text(r@),
{
    uuid::Uuid::new_v4().to_string()
}

/// The file name of a buffer (see [`spec_buffer_file_name`]).
pub fn buffer_file_name(prefix: Option<&str>, id: &str) -> (r: String)
    ensures
        r@ == spec_buffer_file_name(
            match prefix {
                Some(p) => Some(p@),
                None => None,
            },
            id@,
        ),
{
    let mut name = match prefix {
        Some(p) => String::from_str(p),
        None => String::from_str("disk-buffer-"),
    };
    push_str(&mut name, id);
    push_str(&mut name, ".bin");
    name
}

/// The file name of a new buffer: the prefix, a fresh random UUID in its
/// hyphenated form (see [`is_v4_uuid_text`]) and the extension.
pub fn new_buffer_file_name(prefix: Option<&str>) -> (r: String)
    ensures
        exists|id: Seq<char>| is_v4_uuid_text(id) && r@ == spec_buffer_file_name(
            match prefix {
                Some(p) => Some(p@),
                None => None,
            },
            id,
        ),
{
    let id = new_buffer_id();
    let r = buffer_file_name(prefix, id.as_str());
    assert(is_v4_uuid_text(id@));
    r
}

/// The state of a buffer: written first, then read; a buffer that is read
/// is never written again.
#[derive(Clone, Copy, Debug, PartialEq, Eq, Structural)]
pub enum BufferState {
    Write,
    Read,
}

impl BufferState {
    /// The name of the state.
    pub fn as_str(&self) -> (r: &'static str)
        ensures
            *self == BufferState::Write ==> r@ == "write"@,
            *self == BufferState::Read ==> r@ == "read"@,
    {
        match self {
            BufferState::Write => "write",
            BufferState::Read => "read",
        }
    }

    /// The state after the writing is finished: a written buffer becomes
    /// readable, and a readable one stays so.
    pub fn finish(self) -> (r: BufferState)
        ensures
            r == BufferState::Read,
    {
        BufferState::Read
    }
}

} // verus!
