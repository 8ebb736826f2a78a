//! The bearer credential in an `Authorization` header.
//!
//! A header carries a credential when it starts with the scheme `Bearer `,
//! written exactly so. The credential is everything after that one prefix,
//! character for character: a second `Bearer ` belongs to the credential.

use vstd::prelude::*;

verus! {

/// The scheme prefix, with its trailing blank.
pub open spec fn scheme() -> Seq<char> {
    seq!['B', 'e', 'a', 'r', 'e', 'r', ' ']
}

/// Whether `s` starts with the scheme.
pub open spec fn has_scheme(s: Seq<char>) -> bool {
    s.len() >= 7 && s[0] == 'B' && s[1] == 'e' && s[2] == 'a' && s[3] == 'r' && s[4] == 'e' && s[5]
        == 'r' && s[6] == ' '
}

/// The credential that a header value carries, if it carries one.
pub open spec fn bearer_credential(header: Option<Seq<char>>) -> Option<Seq<char>> {
    match header {
        Some(h) => if has_scheme(h) {
            Some(h.skip(7))
        } else {
            None
        },
        None => None,
    }
}

/// The mathematical value of an optional string slice.
pub open spec fn slice_view(t: Option<&str>) -> Option<Seq<char>> {
    match t {
        Some(s) => Some(s@),
        None => None,
    }
}

/// The scheme is the text `Bearer `.
pub proof fn scheme_is_literal()
    ensures
        scheme() == "Bearer "@,
{
    reveal_strlit("Bearer ");
    assert(scheme() =~= "Bearer "@);
}

/// A text that starts with the scheme is the scheme followed by the rest.
pub proof fn scheme_then_rest(s: Seq<char>)
    requires
        has_scheme(s),
    ensures
        s == scheme() + s.skip(7),
{
    assert(s =~= scheme() + s.skip(7));
}

/// The `Authorization` value that carries `token`.
pub open spec fn bearer_value(token: Seq<char>) -> Seq<char> {
    scheme() + token
}

/// The header made for a credential carries that credential, whatever the
/// credential is.
pub proof fn credential_of_bearer_value(token: Seq<char>)
    ensures
        bearer_credential(Some(bearer_value(token))) == Some(token),
{
    let made = bearer_value(token);
    assert(has_scheme(made));
    assert(made.skip(7) =~= token);
}

/// A header that carries a credential is the one made for it.
pub proof fn bearer_value_of_credential(header: Seq<char>, token: Seq<char>)
    requires
        bearer_credential(Some(header)) == Some(token),
    ensures
        header == bearer_value(token),
{
    scheme_then_rest(header);
}

/// Builds the `Authorization` value that carries `token`.
pub fn bearer_header(token: &str) -> (r: String)
    ensures
        r@ == bearer_value(token@),
{
    proof {
        scheme_is_literal();
    }
    let mut value: String = "Bearer ".to_owned();
    value.append(token);
    value
}

/// Whether `h` starts with the scheme; `n` is the length of `h` in
/// characters.
fn starts_with_scheme(h: &str, n: usize) -> (r: bool)
    requires
        n == h@.len(),
    ensures
        r == has_scheme(h@),
{
    if n < 7 {
        return false;
    }
    h.get_char(0) == 'B' && h.get_char(1) == 'e' && h.get_char(2) == 'a' && h.get_char(3) == 'r'
        && h.get_char(4) == 'e' && h.get_char(5) == 'r' && h.get_char(6) == ' '
}

/// Extracts the bearer credential from the value of an `Authorization`
/// header: what follows the scheme, taken off once. `None` stands for a
/// request without the header, or with one that is not text.
pub fn extract_bearer(header: Option<&str>) -> (r: Option<String>)
    ensures
        crate::store::text_view(r) == bearer_credential(slice_view(header)),
{
    match header {
        None => None,
        Some(h) => {
            let n: usize = h.unicode_len();
            if !starts_with_scheme(h, n) {
                return None;
            }
            assert(h@.skip(7) =~= h@.subrange(7, n as int));
            Some(h.substring_char(7, n).to_owned())
        },
    }
}

} // verus!
