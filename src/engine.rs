use vstd::prelude::*;
use crate::text::decimal_of;

verus! {

/// The header with which the sharing engine starts share number `number`
/// (counted from 1) of a split with threshold `k`.
pub open spec fn share_header(k: nat, number: nat) -> Seq<char> {
    decimal_of(k) + seq!['-'] + decimal_of(number) + seq!['-']
}

/// `s` starts with `prefix`.
pub open spec fn starts_with(s: Seq<char>, prefix: Seq<char>) -> bool {
    prefix.len() <= s.len() && s.subrange(0, prefix.len() as int) == prefix
}

/// The secret that the sharing engine reconstructs from `shares`, if any.
pub uninterp spec fn recovered_secret(shares: Seq<Seq<char>>) -> Option<Seq<u8>>;

/// Relies on `rusty_secrets::generate_shares`: it refuses `k > n`; otherwise it
/// either fails (the system's random source is unavailable) or returns `n`
/// shares, the one at position `i` written `k-(i+1)-<base64 data>`.
#[verifier::external_body]
pub(crate) fn engine_generate(k: u8, n: u8, secret: &Vec<u8>) -> (r: Result<Vec<String>, String>)
    requires
        k >= 1,
    ensures
        k > n ==> r is Err,
        r matches Ok(shares) ==> shares@.len() == n && forall|i: int| 0 <= i < n
            ==> starts_with(#[trigger] shares@[i]@, share_header(k as nat, (i + 1) as nat)),
{
    rusty_secrets::generate_shares(k, n, secret).map_err(|e| e.to_string())
}

/// Relies on `rusty_secrets::recover_secret`: a function of the shares alone;
/// it fails on an empty set, and on fewer shares than the threshold that the
/// first share's header names.
#[verifier::external_body]
pub(crate) fn engine_recover(shares: Vec<String>) -> (r: Result<Vec<u8>, String>)
    ensures
        match r {
            Ok(secret) => recovered_secret(shares.deep_view()) == Some(secret@),
            Err(_) => recovered_secret(shares.deep_view()) is None,
        },
        shares@.len() == 0 ==> r is Err,
        forall|k: nat, number: nat|
            1 <= k <= 255 && shares@.len() > 0 && shares@.len() < k
                && #[trigger] starts_with(shares@[0]@, share_header(k, number)) ==> r is Err,
{
    rusty_secrets::recover_secret(shares).map_err(|e| e.to_string())
}

} // verus!
