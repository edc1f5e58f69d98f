use vstd::prelude::*;
use crate::engine::{engine_recover, recovered_secret, share_header, starts_with};
use crate::errors::{fails_as, ErrorReport, Failure};
use crate::validators::PathKind;

verus! {

/// The failure reported for a share path that does not name a regular file.
pub open spec fn share_path_failure(path: String, kind: PathKind) -> Failure {
    if kind == PathKind::Missing {
        Failure::ShareMissing(path)
    } else {
        Failure::ShareNotAFile(path)
    }
}

/// Position `i` holds the first share path that does not name a regular file.
pub open spec fn first_unusable_share(kinds: Seq<PathKind>, i: int) -> bool {
    0 <= i < kinds.len() && kinds[i] != PathKind::File && forall|j: int|
        0 <= j < i ==> kinds[j] == PathKind::File
}

/// Checks, in argument order, that each share path names a regular file;
/// `kinds[i]` is what `paths[i]` names on the filesystem. Nothing is read and
/// the engine is not called before this passes.
pub fn check_share_paths(paths: &Vec<String>, kinds: &Vec<PathKind>) -> (r: Result<
    (),
    ErrorReport,
>)
    requires
        paths@.len() == kinds@.len(),
    ensures
        r is Ok <==> forall|i: int| 0 <= i < kinds@.len() ==> kinds@[i] == PathKind::File,
        forall|i: int|
            #[trigger] first_unusable_share(kinds@, i) ==> fails_as(
                r,
                share_path_failure(paths@[i], kinds@[i]),
            ),
{
    let mut i: usize = 0;
    while i < kinds.len()
        invariant
            i <= kinds@.len(),
            paths@.len() == kinds@.len(),
            forall|j: int| 0 <= j < i ==> kinds@[j] == PathKind::File,
        decreases kinds@.len() - i,
    {
        if kinds[i] == PathKind::Missing {
            return Err(ErrorReport::new(Failure::ShareMissing(paths[i].clone())));
        }
        if kinds[i] != PathKind::File {
            return Err(ErrorReport::new(Failure::ShareNotAFile(paths[i].clone())));
        }
        i = i + 1;
    }
    Ok(())
}

/// What a recovery yields from the engine's outcome: the secret, or a
/// recovery failure that wraps the engine's message.
pub fn finish_recovery(outcome: Result<Vec<u8>, String>) -> (r: Result<Vec<u8>, ErrorReport>)
    ensures
        match outcome {
            Ok(secret) => r matches Ok(s) && s@ == secret@,
            Err(cause) => r matches Err(e) && e.failure == Failure::RecoverSecret && e.causes@
                == seq![cause],
        },
{
    match outcome {
        Ok(secret) => Ok(secret),
        Err(cause) => Err(ErrorReport::caused_by(Failure::RecoverSecret, cause)),
    }
}

/// Recovers the secret from the contents of the shares, in argument order.
pub fn recover(shares: Vec<String>) -> (r: Result<Vec<u8>, ErrorReport>)
    ensures
        match r {
            Ok(secret) => recovered_secret(shares.deep_view()) == Some(secret@),
            Err(e) => e.failure == Failure::RecoverSecret && recovered_secret(shares.deep_view()) is None,
        },
        shares@.len() == 0 ==> r is Err,
        forall|k: nat, number: nat|
            1 <= k <= 255 && 0 < shares@.len() < k && #[trigger] starts_with(
                shares@[0]@,
                share_header(k, number),
            ) ==> r is Err,
{
    let outcome = engine_recover(shares);
    finish_recovery(outcome)
}

} // verus!
