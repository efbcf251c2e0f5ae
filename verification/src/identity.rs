//! Unique identifiers, and the names that are made from them.

use vstd::prelude::*;
use vstd::string::StringExecFns;
use vstd::string::StrSliceExecFns;

verus! {

/// The digit, in lower case, that stands for a number below sixteen.
pub open spec fn hex_digit(n: u128) -> char {
    if n < 10 {
        ('0' as u128 + n) as char
    } else {
        ('a' as u128 + (n - 10)) as char
    }
}

/// The 32 hexadecimal digits of an identifier, the most significant first.
pub open spec fn hex_digits(id: u128) -> Seq<char> {
    Seq::new(32, |i: int| hex_digit((id >> ((124 - 4 * i) as u128)) & 0xf))
}

/// The digits of an identifier in groups of 8, 4, 4, 4 and 12, with hyphens between them.
pub open spec fn hyphenated(id: u128) -> Seq<char> {
    let d = hex_digits(id);
    d.subrange(0, 8) + seq!['-'] + d.subrange(8, 12) + seq!['-'] + d.subrange(12, 16) + seq!['-']
        + d.subrange(16, 20) + seq!['-'] + d.subrange(20, 32)
}

/// The version and the variant of an identifier say that it was drawn at random.
pub open spec fn is_random_uuid(id: u128) -> bool {
    &&& (id >> 76u128) & 0xf == 4
    &&& (id >> 62u128) & 0x3 == 2
}

/// Draws a new identifier: `uuid::Uuid::new_v4`, as a number.
///
/// What is claimed of it is that its version is the one of random identifiers and that its variant
/// is the standard one. Which number it is, is left to chance.
#[verifier::external_body]
pub(crate) fn random_token() -> (id: u128)
    ensures
        is_random_uuid(id),
{
    uuid::Uuid::new_v4().as_u128()
}

/// Writes an identifier without hyphens: the `Display` form of `uuid::Uuid::simple`.
///
/// What is claimed is that it is the 32 digits of the number in lower case.
#[verifier::external_body]
fn simple_text(id: u128) -> (text: String)
    ensures
        text@ == hex_digits(id),
{
    uuid::Uuid::from_u128(id).simple().to_string()
}

/// Writes an identifier with hyphens: the `Display` form of `uuid::Uuid`.
///
/// What is claimed is that it is the digits of the number in lower case, in the usual groups.
#[verifier::external_body]
fn hyphenated_text(id: u128) -> (text: String)
    ensures
        text@ == hyphenated(id),
{
    uuid::Uuid::from_u128(id).to_string()
}

/// The greatest number of characters that every platform takes in the name of a shared memory
/// object.
pub const SHARED_MEMORY_NAME_LEN: usize = 30;

/// The name under which the shared memory object with this identifier is created: a slash and as
/// many digits as fit.
pub open spec fn spec_shared_memory_name(id: u128) -> Seq<char> {
    ("/"@ + hex_digits(id)).take(SHARED_MEMORY_NAME_LEN as int)
}

/// The name under which the shared memory object with this identifier is created.
pub fn shared_memory_name(id: u128) -> (name: String)
    ensures
        name@ == spec_shared_memory_name(id),
        name@.len() == SHARED_MEMORY_NAME_LEN,
{
    let digits = simple_text(id);
    let whole = String::from_str("/").concat(digits.as_str());
    proof {
        reveal_strlit("/");
    }
    String::from_str(whole.as_str().substring_char(0, SHARED_MEMORY_NAME_LEN))
}

/// A fresh name for a shared memory object.
pub fn new_shared_memory_name() -> (name: String)
    ensures
        exists|id: u128| is_random_uuid(id) && name@ == #[trigger] spec_shared_memory_name(id),
{
    let id: u128 = random_token();
    shared_memory_name(id)
}

/// The name of the object with this identifier, behind a prefix.
pub fn prefixed_name(prefix: &str, id: u128) -> (name: String)
    ensures
        name@ == prefix@ + hyphenated(id),
{
    let text = hyphenated_text(id);
    String::from_str(prefix).concat(text.as_str())
}

/// The file name of a new named socket.
pub fn new_socket_name() -> (name: String)
    ensures
        exists|id: u128| is_random_uuid(id) && name@ == #[trigger] hyphenated(id),
{
    let id: u128 = random_token();
    hyphenated_text(id)
}

/// The name of a new named pipe.
pub fn new_pipe_name() -> (name: String)
    ensures
        exists|id: u128| is_random_uuid(id) && name@ == "\\\\.\\pipe\\"@ + #[trigger] hyphenated(id),
{
    let id: u128 = random_token();
    prefixed_name("\\\\.\\pipe\\", id)
}

/// The name under which a process that waits for its child is known to the bootstrap server.
pub fn new_service_name() -> (name: String)
    ensures
        exists|id: u128|
            is_random_uuid(id) && name@ == "rust.sandbox-ipc-core.child."@ + #[trigger] hyphenated(id),
{
    let id: u128 = random_token();
    prefixed_name("rust.sandbox-ipc-core.child.", id)
}

} // verus!
