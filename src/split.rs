use vstd::prelude::*;
use crate::engine::{engine_generate, share_header, starts_with};
use crate::errors::{fails_as, ErrorReport, Failure};
use crate::naming::{share_file_name, share_name};

verus! {

/// One share ready to be written: its file name within the output directory,
/// and its serialized contents.
#[derive(Clone, Debug)]
pub struct ShareFile {
    pub name: String,
    pub contents: String,
}

/// The share parameters are usable: `1 <= k <= n`.
pub open spec fn valid_parameters(k: u8, n: u8) -> bool {
    1 <= k && k <= n
}

/// Checks the threshold `k` against the number of shares `n`; this comes
/// before the secret is read and before any file is touched.
pub fn check_parameters(k: u8, n: u8) -> (r: Result<(), ErrorReport>)
    ensures
        r is Ok <==> valid_parameters(k, n),
        k == 0 ==> fails_as(r, Failure::ThresholdZero),
        k > n ==> fails_as(r, Failure::ThresholdAboveTotal),
{
    if k > n {
        return Err(ErrorReport::new(Failure::ThresholdAboveTotal));
    }
    if k == 0 {
        return Err(ErrorReport::new(Failure::ThresholdZero));
    }
    Ok(())
}

/// Pairs each share with its file name under `template`, in ordinal order
/// from 0.
pub fn name_shares(template: &str, shares: Vec<String>) -> (r: Vec<ShareFile>)
    ensures
        r@.len() == shares@.len(),
        forall|i: int| 0 <= i < r@.len() ==> (#[trigger] r@[i]).name@ == share_name(template@, i as nat)
            && r@[i].contents == shares@[i],
{
    let mut r: Vec<ShareFile> = Vec::new();
    let mut i: usize = 0;
    while i < shares.len()
        invariant
            i <= shares@.len(),
            r@.len() == i,
            forall|j: int| 0 <= j < i ==> (#[trigger] r@[j]).name@ == share_name(template@, j as nat)
                && r@[j].contents == shares@[j],
        decreases shares@.len() - i,
    {
        let name = share_file_name(template, i);
        r.push(ShareFile { name, contents: shares[i].clone() });
        i = i + 1;
    }
    r
}

/// What a split yields from the engine's outcome: the named shares, or a
/// generation failure that wraps the engine's message.
pub fn finish_split(template: &str, outcome: Result<Vec<String>, String>) -> (r: Result<
    Vec<ShareFile>,
    ErrorReport,
>)
    ensures
        match outcome {
            Ok(shares) => r matches Ok(files) && files@.len() == shares@.len() && forall|i: int|
                0 <= i < files@.len() ==> (#[trigger] files@[i]).name@ == share_name(
                    template@,
                    i as nat,
                ) && files@[i].contents == shares@[i],
            Err(cause) => r matches Err(e) && e.failure == Failure::GenerateShares && e.causes@
                == seq![cause],
        },
{
    match outcome {
        Ok(shares) => Ok(name_shares(template, shares)),
        Err(cause) => Err(ErrorReport::caused_by(Failure::GenerateShares, cause)),
    }
}

/// Splits `secret` into `n` shares of which any `k` recover it, named by
/// `template`.
pub fn split(k: u8, n: u8, secret: &Vec<u8>, template: &str) -> (r: Result<
    Vec<ShareFile>,
    ErrorReport,
>)
    ensures
        k == 0 ==> fails_as(r, Failure::ThresholdZero),
        k > n ==> fails_as(r, Failure::ThresholdAboveTotal),
        valid_parameters(k, n) ==> r is Ok || fails_as(r, Failure::GenerateShares),
        r matches Ok(files) ==> files@.len() == n && forall|i: int|
            0 <= i < n ==> (#[trigger] files@[i]).name@ == share_name(template@, i as nat)
                && starts_with(files@[i].contents@, share_header(k as nat, (i + 1) as nat)),
{
    check_parameters(k, n)?;
    let outcome = engine_generate(k, n, secret);
    let r = finish_split(template, outcome);
    proof {
        if r is Ok {
            let files = r->Ok_0;
            assert forall|i: int| 0 <= i < n implies starts_with(
                (#[trigger] files@[i]).contents@,
                share_header(k as nat, (i + 1) as nat),
            ) by {
                let shares = outcome->Ok_0;
                assert(starts_with(shares@[i]@, share_header(k as nat, (i + 1) as nat)));
            }
        }
    }
    r
}

} // verus!
