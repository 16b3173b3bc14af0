//! Identities: fresh entry ids and the `<host>:<user>` tag of a scan.
use vstd::prelude::*;

verus! {

/// A lowercase hexadecimal digit.
pub open spec fn lower_hex_digit(c: char) -> bool {
    ('0' <= c && c <= '9') || ('a' <= c && c <= 'f')
}

/// Relies on uuid's `Uuid::new_v4` and its `Simple` format: a random
/// version-4 UUID written as 32 lowercase hexadecimal digits.
#[verifier::external_body]
pub fn uuid_v4() -> (r: String)
    ensures
        r@.len() == 32,
        forall|i: int| 0 <= i < 32 ==> lower_hex_digit(#[trigger] r@[i]),
{
    uuid::Uuid::new_v4().as_simple().to_string()
}

/// Relies on `whoami::hostname`: the name of this machine.
#[verifier::external_body]
#[allow(deprecated)]
fn machine_hostname() -> (r: String) {
    whoami::hostname()
}

/// Relies on `whoami::username`: the name of the user running the process.
#[verifier::external_body]
fn user_name() -> (r: String) {
    whoami::username()
}

/// The tag that identifies who performed a scan.
pub open spec fn identity_of(host: Seq<char>, user: Seq<char>) -> Seq<char> {
    host + seq![':'] + user
}

/// Joins a host name and a user name as `<host>:<user>`.
pub fn host_identity(host: &str, user: &str) -> (r: String)
    ensures
        r@ == identity_of(host@, user@),
{
    let mut r = String::from_str(host);
    proof {
        reveal_strlit(":");
    }
    r.append(":");
    r.append(user);
    assert(r@ =~= identity_of(host@, user@));
    r
}

/// The `<host>:<user>` tag of this process.
pub fn local_identity() -> (r: String)
    ensures
        exists|h: Seq<char>, u: Seq<char>| r@ == identity_of(h, u),
{
    let host = machine_hostname();
    let user = user_name();
    host_identity(host.as_str(), user.as_str())
}

} // verus!
