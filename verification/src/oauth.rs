//! The computable part of the credential loader: building the HTTP Basic
//! `Authorization` value for the token request from a client id and a
//! client secret. Reading the environment and sending the request stay
//! outside the library.

use vstd::prelude::*;

verus! {

/// The standard base64 encoding (RFC 4648, with padding) of a byte
/// sequence, as the base64 crate computes it.
pub uninterp spec fn base64_standard_of(bytes: Seq<u8>) -> Seq<u8>;

/// The `client_id:client_secret` line that HTTP Basic authentication
/// encodes.
pub open spec fn credentials_line(id: Seq<u8>, secret: Seq<u8>) -> Seq<u8> {
    id + seq![58u8] + secret  // 58 is the ASCII colon
}

/// The scheme tag that precedes the encoded credentials: `Basic `.
pub open spec fn basic_prefix() -> Seq<u8> {
    seq![66u8, 97u8, 115u8, 105u8, 99u8, 32u8]  // the ASCII bytes of `Basic `
}

/// Relies on base64's `Engine::encode` with the `STANDARD` engine: the
/// result depends on the input bytes alone and holds 4 output bytes for
/// every 3 input bytes, rounded up (padded RFC 4648). `encode` panics only
/// when that output length overflows `usize`, which the bound on the input
/// length rules out.
#[verifier::external_body]
fn base64_standard(input: &Vec<u8>) -> (r: Vec<u8>)
    requires
        input@.len() <= usize::MAX / 8,
    ensures
        r@ == base64_standard_of(input@),
        r@.len() == 4 * ((input@.len() + 2) / 3),
{
    base64::Engine::encode(&base64::engine::general_purpose::STANDARD, input).into_bytes()
}

/// Join a client id and a client secret with `:`, the line that the Basic
/// scheme encodes.
pub fn credentials_bytes(client_id: &Vec<u8>, client_secret: &Vec<u8>) -> (r: Vec<u8>)
    requires
        client_id@.len() + client_secret@.len() + 1 <= usize::MAX,
    ensures
        r@ == credentials_line(client_id@, client_secret@),
{
    let mut r: Vec<u8> = Vec::new();
    let mut i: usize = 0;
    while i < client_id.len()
        invariant
            i <= client_id@.len(),
            r@ == client_id@.subrange(0, i as int),
        decreases client_id@.len() - i,
    {
        r.push(client_id[i]);
        i = i + 1;
    }
    assert(r@ =~= client_id@);
    r.push(58u8);
    let mut j: usize = 0;
    while j < client_secret.len()
        invariant
            j <= client_secret@.len(),
            r@ == client_id@ + seq![58u8] + client_secret@.subrange(0, j as int),
        decreases client_secret@.len() - j,
    {
        r.push(client_secret[j]);
        j = j + 1;
    }
    assert(r@ =~= credentials_line(client_id@, client_secret@));
    r
}

/// Put the `Basic ` scheme tag in front of an already-encoded credential.
pub fn with_basic_prefix(encoded: &Vec<u8>) -> (r: Vec<u8>)
    requires
        encoded@.len() + 6 <= usize::MAX,
    ensures
        r@ == basic_prefix() + encoded@,
{
    let mut r: Vec<u8> = Vec::new();
    r.push(66u8);
    r.push(97u8);
    r.push(115u8);
    r.push(105u8);
    r.push(99u8);
    r.push(32u8);
    assert(r@ =~= basic_prefix());
    let mut i: usize = 0;
    while i < encoded.len()
        invariant
            i <= encoded@.len(),
            r@ == basic_prefix() + encoded@.subrange(0, i as int),
        decreases encoded@.len() - i,
    {
        r.push(encoded[i]);
        i = i + 1;
    }
    assert(r@ =~= basic_prefix() + encoded@);
    r
}

/// The `Authorization` header value for the token request: `Basic `
/// followed by the standard base64 encoding of `client_id:client_secret`.
pub fn authorization_value(client_id: &Vec<u8>, client_secret: &Vec<u8>) -> (r: Vec<u8>)
    requires
        client_id@.len() + client_secret@.len() + 1 <= usize::MAX / 8,
    ensures
        r@ == basic_prefix() + base64_standard_of(
            credentials_line(client_id@, client_secret@),
        ),
{
    let line = credentials_bytes(client_id, client_secret);
    let encoded = base64_standard(&line);
    with_basic_prefix(&encoded)
}

} // verus!
