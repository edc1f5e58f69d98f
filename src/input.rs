use vstd::prelude::*;
use crate::validators::{is_stdin_sentinel, stdin_sentinel};

verus! {

/// Where the secret to split is read from.
#[derive(Clone, Debug)]
pub enum InputSource {
    Standard,
    File(String),
}

impl InputSource {
    /// The source an optional argument selects: none, or the sentinel `-`,
    /// selects standard input; any other value names a file.
    pub fn from_arg(arg: Option<String>) -> (r: InputSource)
        ensures
            match arg {
                None => r is Standard,
                Some(p) => if p@ == stdin_sentinel() {
                    r is Standard
                } else {
                    r == InputSource::File(p)
                },
            },
    {
        match arg {
            None => InputSource::Standard,
            Some(p) => {
                if is_stdin_sentinel(p.as_str()) {
                    InputSource::Standard
                } else {
                    InputSource::File(p)
                }
            },
        }
    }
}

} // verus!
