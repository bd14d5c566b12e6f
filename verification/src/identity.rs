//! Who a session is: its recording id and where its output goes.

use vstd::prelude::*;
use vstd::string::*;

verus! {

/// The identity of a session. Both parts are fixed when it is spawned.
#[derive(Clone, Debug, PartialEq, Eq)]
pub struct SessionIdentity {
    pub recording_id: String,
    pub output_path: String,
}

/// A digit or one of the letters `a` to `f`.
pub open spec fn is_lower_hex(c: char) -> bool {
    ('0' <= c && c <= '9') || ('a' <= c && c <= 'f')
}

/// Where the hyphens stand in a generated id.
pub open spec fn is_hyphen_position(i: int) -> bool {
    i == 8 || i == 13 || i == 18 || i == 23
}

/// The form of a generated id: 36 characters, lower-case hexadecimal digits
/// in groups of 8, 4, 4, 4 and 12 with hyphens between them, where the third
/// group starts with `4` and the fourth with `8`, `9`, `a` or `b`.
pub open spec fn is_generated_id(id: Seq<char>) -> bool {
    &&& id.len() == 36
    &&& forall|i: int|
        0 <= i < 36 ==> if is_hyphen_position(i) {
            #[trigger] id[i] == '-'
        } else {
            is_lower_hex(id[i])
        }
    &&& id[14] == '4'
    &&& (id[19] == '8' || id[19] == '9' || id[19] == 'a' || id[19] == 'b')
}

/// A fresh random id from `uuid::Uuid::new_v4`, written out by its
/// `to_string`. The value is random, so only its form is claimed: the
/// hyphenated lower-case form of a version 4, variant 1 UUID. The call
/// panics if the operating system cannot supply random bytes.
#[verifier::external_body]
fn random_id() -> (id: String)
    ensures
        is_generated_id(id@),
{
    uuid::Uuid::new_v4().to_string()
}

/// Whether a character is a digit or one of the letters `a` to `f`.
fn lower_hex(c: char) -> (b: bool)
    ensures
        b == is_lower_hex(c),
{
    (c >= '0' && c <= '9') || (c >= 'a' && c <= 'f')
}

/// Whether `id` has the form of a generated id.
pub fn has_generated_form(id: &str) -> (b: bool)
    ensures
        b == is_generated_id(id@),
{
    if id.unicode_len() != 36 {
        return false;
    }
    let mut i: usize = 0;
    while i < 36
        invariant
            i <= 36,
            id@.len() == 36,
            forall|j: int|
                0 <= j < i ==> if is_hyphen_position(j) {
                    #[trigger] id@[j] == '-'
                } else {
                    is_lower_hex(id@[j])
                },
        decreases 36 - i,
    {
        let c = id.get_char(i);
        let ok = if i == 8 || i == 13 || i == 18 || i == 23 {
            c == '-'
        } else {
            lower_hex(c)
        };
        if !ok {
            return false;
        }
        i += 1;
    }
    let version = id.get_char(14);
    let variant = id.get_char(19);
    version == '4' && (variant == '8' || variant == '9' || variant == 'a' || variant == 'b')
}

impl SessionIdentity {
    /// The identity of a session whose id the caller chose.
    pub fn new(recording_id: String, output_path: String) -> (identity: SessionIdentity)
        ensures
            identity == (SessionIdentity { recording_id, output_path }),
    {
        SessionIdentity { recording_id, output_path }
    }

    /// The identity of a session with a freshly generated id.
    pub fn generate(output_path: String) -> (identity: SessionIdentity)
        ensures
            identity.output_path == output_path,
            is_generated_id(identity.recording_id@),
    {
        SessionIdentity { recording_id: random_id(), output_path }
    }
}

} // verus!
