use vstd::prelude::*;

verus! {

/// An ASCII letter or digit.
pub open spec fn is_alphanumeric(c: char) -> bool {
    ('a' <= c && c <= 'z') || ('A' <= c && c <= 'Z') || ('0' <= c && c <= '9')
}

/// A lower-case hexadecimal digit or a hyphen.
pub open spec fn is_hyphenated_hex(c: char) -> bool {
    ('a' <= c && c <= 'f') || ('0' <= c && c <= '9') || c == '-'
}

/// A contract id of the generated form: 36 hex digits and hyphens.
pub open spec fn is_id_form(k: Seq<char>) -> bool {
    &&& k.len() == 36
    &&& forall|i: int| 0 <= i < k.len() ==> is_hyphenated_hex(#[trigger] k[i])
}

/// A passphrase of the generated form: letters and digits.
pub open spec fn is_secret_form(s: Seq<char>, len: nat) -> bool {
    &&& s.len() == len
    &&& forall|i: int| 0 <= i < s.len() ==> is_alphanumeric(#[trigger] s[i])
}

/// Relies on `uuid::Uuid::new_v4` and `Uuid`'s `Display`, which writes the
/// hyphenated lower-case form: 36 characters, hex digits and hyphens.
#[verifier::external_body]
pub(crate) fn fresh_contract_id() -> (r: String)
    ensures
        r@.len() == 36,
        forall|i: int| 0 <= i < r@.len() ==> is_hyphenated_hex(#[trigger] r@[i]),
{
    uuid::Uuid::new_v4().to_string()
}

/// Relies on `rand::distributions::DistString::sample_string` for
/// `Alphanumeric` with `rand::thread_rng`: `len` characters, each drawn from
/// the ASCII letters and digits.
#[verifier::external_body]
pub(crate) fn fresh_secret(len: usize) -> (r: String)
    ensures
        r@.len() == len,
        forall|i: int| 0 <= i < r@.len() ==> is_alphanumeric(#[trigger] r@[i]),
{
    rand::distributions::DistString::sample_string(
        &rand::distributions::Alphanumeric,
        &mut rand::thread_rng(),
        len,
    )
}

} // verus!
