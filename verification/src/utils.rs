//! Identity and errors: hashing of bearer keys, fresh keys, the error that
//! every operation of the service answers with, and the authenticated caller.

use sha2::{Digest, Sha256};
use uuid::Uuid;
use vstd::prelude::*;
use vstd::string::StringExecFns;

verus! {

/// The kinds of failure that the service tells apart.
#[derive(Clone, Copy, Debug, PartialEq, Eq, Structural)]
pub enum Status {
    /// A voting, poll or voter does not exist.
    NotFound,
    /// The caller is known but may not do this: wrong admin key, or a voter of
    /// another voting.
    Unauthorized,
    /// The caller presented no credential.
    Unauthenticated,
    /// The request is malformed: a length, a poll count, an index out of range.
    InvalidArgument,
    /// A vote was attempted while no poll, or another poll, is active.
    InvalidState,
    /// The voter has already voted on the poll.
    Conflict,
    /// The store failed or holds inconsistent data.
    Internal,
}

/// The HTTP status code under which a kind of failure is reported.
pub open spec fn status_code(status: Status) -> u16 {
    match status {
        Status::NotFound => 404,
        Status::Unauthorized => 401,
        Status::Unauthenticated => 401,
        Status::InvalidArgument => 400,
        Status::InvalidState => 400,
        Status::Conflict => 409,
        Status::Internal => 500,
    }
}

impl Status {
    /// The HTTP status code of this kind of failure.
    pub fn code(&self) -> (code: u16)
        ensures
            code == status_code(*self),
    {
        match self {
            Status::NotFound => 404,
            Status::Unauthorized => 401,
            Status::Unauthenticated => 401,
            Status::InvalidArgument => 400,
            Status::InvalidState => 400,
            Status::Conflict => 409,
            Status::Internal => 500,
        }
    }
}

/// A failure: its kind and a reason for the human reader. The reason never
/// holds a key.
#[derive(Debug)]
pub struct ErrorResponse {
    pub reason: String,
    pub status: Status,
}

/// What an [`ErrorResponse`] is to the contracts.
pub struct ErrorView {
    pub reason: Seq<char>,
    pub status: Status,
}

impl View for ErrorResponse {
    type V = ErrorView;

    open spec fn view(&self) -> ErrorView {
        ErrorView { reason: self.reason@, status: self.status }
    }
}

/// The failure of kind `status` whose reason is `reason`.
pub open spec fn failure(status: Status, reason: Seq<char>) -> ErrorView {
    ErrorView { reason, status }
}

impl ErrorResponse {
    /// A failure of kind `status` with the given reason.
    pub fn new(status: Status, reason: &str) -> (error: ErrorResponse)
        ensures
            error@ == failure(status, reason@),
    {
        ErrorResponse { reason: String::from_str(reason), status }
    }

    /// A failure of kind `status` whose reason is `prefix` followed by `detail`.
    pub fn with_detail(status: Status, prefix: &str, detail: &str) -> (error: ErrorResponse)
        ensures
            error@ == failure(status, prefix@ + detail@),
    {
        let mut reason = String::from_str(prefix);
        reason.append(detail);
        ErrorResponse { reason, status }
    }
}

/// The SHA-256 digest of a text's UTF-8 bytes, written as 64 upper-case
/// hexadecimal digits.
pub uninterp spec fn sha256_upper_hex(text: Seq<char>) -> Seq<char>;

/// Hashes a key. Calls `sha2::Sha256` (`new`, `update`, `finalize`) on the
/// bytes of `string` and renders the digest with `{:X}`. The contract claims
/// only that the result is a function of the text: the same key always gives
/// the same hash.
#[verifier::external_body]
pub fn hash_string(string: &String) -> (hash: String)
    ensures
        hash@ == sha256_upper_hex(string@),
{
    let mut hasher = Sha256::new();
    hasher.update(string.as_bytes());
    format!("{:X}", hasher.finalize())
}

/// Whether `i` is one of the four places of a hyphen in a hyphenated UUID.
pub open spec fn is_hyphen_place(i: int) -> bool {
    i == 8 || i == 13 || i == 18 || i == 23
}

/// Whether `c` is a lower-case hexadecimal digit.
pub open spec fn is_lower_hex(c: char) -> bool {
    ('0' <= c && c <= '9') || ('a' <= c && c <= 'f')
}

/// The shape of a UUID in its hyphenated lower-case form: 36 characters,
/// hyphens after the 8th, 12th, 16th and 20th hexadecimal digit.
pub open spec fn is_hyphenated_uuid(s: Seq<char>) -> bool {
    &&& s.len() == 36
    &&& forall|i: int|
        0 <= i < 36 ==> if is_hyphen_place(i) {
            #[trigger] s[i] == '-'
        } else {
            is_lower_hex(s[i])
        }
}

/// A fresh random key. Calls `uuid::Uuid::new_v4` and encodes the result with
/// `to_hyphenated().encode_lower(..)`. The contract claims only the shape of
/// the text, which holds of every outcome; which UUID comes back is left open.
/// `new_v4` panics if the operating system cannot supply random bytes.
#[verifier::external_body]
pub fn generate_uuid() -> (id: String)
    ensures
        is_hyphenated_uuid(id@),
{
    String::from(Uuid::new_v4().to_hyphenated().encode_lower(&mut Uuid::encode_buffer()))
}

/// A hyphenated UUID is plain ASCII, so it takes 36 bytes.
pub proof fn lemma_uuid_byte_len(s: Seq<char>)
    requires
        is_hyphenated_uuid(s),
    ensures
        crate::text::byte_len(s) == 36,
{
    assert(vstd::utf8::is_ascii_chars(s)) by {
        assert forall|i: int| 0 <= i < s.len() implies '\0' <= #[trigger] s[i] <= '\u{7f}' by {
            if is_hyphen_place(i) {
                assert(s[i] == '-');
            } else {
                assert(is_lower_hex(s[i]));
            }
        }
    }
    vstd::utf8::is_ascii_chars_encode_utf8(s);
}

/// The caller of a request, known only by the hash of the key it presented.
#[derive(Debug)]
pub struct AuthenticatedUser {
    key_hash: String,
}

impl View for AuthenticatedUser {
    type V = Seq<char>;

    /// The hash of the caller's key.
    closed spec fn view(&self) -> Seq<char> {
        self.key_hash@
    }
}

impl AuthenticatedUser {
    /// Resolves the caller from the value of the `Authorization` header. An
    /// absent header is answered with `Unauthenticated`; a present one always
    /// yields the caller whose identity is the hash of the header's value.
    pub fn from_request(authorization: Option<String>) -> (outcome: Result<
        AuthenticatedUser,
        ErrorResponse,
    >)
        ensures
            match authorization {
                Some(key) => outcome matches Ok(user) && user@ == sha256_upper_hex(key@),
                None => outcome matches Err(error) && error@ == failure(
                    Status::Unauthenticated,
                    "No Authorization header was present"@,
                ),
            },
    {
        match authorization {
            Some(key) => Ok(AuthenticatedUser { key_hash: hash_string(&key) }),
            None => Err(
                ErrorResponse::new(Status::Unauthenticated, "No Authorization header was present"),
            ),
        }
    }

    /// The hash of the caller's key.
    pub fn key_hash(&self) -> (hash: &String)
        ensures
            hash@ == self@,
    {
        &self.key_hash
    }
}

} // verus!
