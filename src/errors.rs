use vstd::prelude::*;
use vstd::string::StringExecFns;
use crate::text::framed;

verus! {

/// The closed set of reasons for which a split or a recovery stops.
#[derive(Clone, Debug)]
pub enum Failure {
    /// The threshold `k` is zero.
    ThresholdZero,
    /// The threshold `k` exceeds the number of shares `n`.
    ThresholdAboveTotal,
    OpenSecret,
    ReadSecret,
    GenerateShares,
    CreateShare(String),
    WriteShare(String),
    ShareMissing(String),
    ShareNotAFile(String),
    OpenShare(String),
    ReadShare(String),
    RecoverSecret,
    CreateSecretFile(String),
    WriteSecret,
}

/// The message that states a failure.
pub open spec fn failure_message(f: Failure) -> Seq<char> {
    match f {
        Failure::ThresholdZero => "k must be strictly positive"@,
        Failure::ThresholdAboveTotal => "k must be smaller than or equal to n"@,
        Failure::OpenSecret => "Could not open secret file"@,
        Failure::ReadSecret => "Could not read secret"@,
        Failure::GenerateShares => "Could not generate shares"@,
        Failure::CreateShare(p) => "Could not create share file \""@ + p@ + "\""@,
        Failure::WriteShare(p) => "Could not write share data to file \""@ + p@ + "\""@,
        Failure::ShareMissing(p) => "Share \""@ + p@ + "\" does not exists"@,
        Failure::ShareNotAFile(p) => "Share \""@ + p@ + "\" is not a file"@,
        Failure::OpenShare(p) => "Could not open share \""@ + p@ + "\""@,
        Failure::ReadShare(p) => "Could not read share \""@ + p@ + "\""@,
        Failure::RecoverSecret => "Could not recover secret"@,
        Failure::CreateSecretFile(p) => "Could not create secret file \""@ + p@ + "\""@,
        Failure::WriteSecret => "Could not write secret to file"@,
    }
}

impl Failure {
    /// The message that states this failure.
    pub fn message(&self) -> (r: String)
        ensures
            r@ == failure_message(*self),
    {
        match self {
            Failure::ThresholdZero => String::from_str("k must be strictly positive"),
            Failure::ThresholdAboveTotal => String::from_str("k must be smaller than or equal to n"),
            Failure::OpenSecret => String::from_str("Could not open secret file"),
            Failure::ReadSecret => String::from_str("Could not read secret"),
            Failure::GenerateShares => String::from_str("Could not generate shares"),
            Failure::CreateShare(p) => framed("Could not create share file \"", p.as_str(), "\""),
            Failure::WriteShare(p) => framed("Could not write share data to file \"", p.as_str(), "\""),
            Failure::ShareMissing(p) => framed("Share \"", p.as_str(), "\" does not exists"),
            Failure::ShareNotAFile(p) => framed("Share \"", p.as_str(), "\" is not a file"),
            Failure::OpenShare(p) => framed("Could not open share \"", p.as_str(), "\""),
            Failure::ReadShare(p) => framed("Could not read share \"", p.as_str(), "\""),
            Failure::RecoverSecret => String::from_str("Could not recover secret"),
            Failure::CreateSecretFile(p) => framed("Could not create secret file \"", p.as_str(), "\""),
            Failure::WriteSecret => String::from_str("Could not write secret to file"),
        }
    }
}

/// A failure together with the lower-level causes it wraps, outermost first.
#[derive(Clone, Debug)]
pub struct ErrorReport {
    pub failure: Failure,
    pub causes: Vec<String>,
}

/// `r` is an error whose top-level failure is `f`.
pub open spec fn fails_as<T>(r: Result<T, ErrorReport>, f: Failure) -> bool {
    r matches Err(e) && e.failure == f
}

impl ErrorReport {
    /// A report of `failure` with no lower-level cause.
    pub fn new(failure: Failure) -> (r: ErrorReport)
        ensures
            r.failure == failure,
            r.causes@.len() == 0,
    {
        ErrorReport { failure, causes: Vec::new() }
    }

    /// A report of `failure` that wraps the lower-level `cause`.
    pub fn caused_by(failure: Failure, cause: String) -> (r: ErrorReport)
        ensures
            r.failure == failure,
            r.causes@ == seq![cause],
    {
        let mut causes: Vec<String> = Vec::new();
        causes.push(cause);
        ErrorReport { failure, causes }
    }

    /// The messages of the chain: the failure's own, then each cause, most
    /// specific last.
    pub fn chain(&self) -> (r: Vec<String>)
        ensures
            r@.len() == self.causes@.len() + 1,
            r@[0]@ == failure_message(self.failure),
            forall|i: int| 0 <= i < self.causes@.len() ==> r@[i + 1]@ == self.causes@[i]@,
    {
        let mut r: Vec<String> = Vec::new();
        r.push(self.failure.message());
        let mut i: usize = 0;
        while i < self.causes.len()
            invariant
                i <= self.causes@.len(),
                r@.len() == i + 1,
                r@[0]@ == failure_message(self.failure),
                forall|j: int| 0 <= j < i ==> r@[j + 1]@ == self.causes@[j]@,
            decreases self.causes@.len() - i,
        {
            r.push(self.causes[i].clone());
            i = i + 1;
        }
        r
    }
}

} // verus!
