//! The one error that every failure of a release becomes.

use crate::text::appended;
use vstd::prelude::*;

verus! {

/// What every message begins with.
pub open spec fn alarm() -> Seq<char> {
    seq!['\u{1F631}', ' ']
}

/// A failure, as a message for the person who asked for the release.
#[derive(Debug, PartialEq)]
pub struct SheepError {
    message: String,
}

impl View for SheepError {
    type V = Seq<char>;

    closed spec fn view(&self) -> Seq<char> {
        self.message@
    }
}

impl SheepError {
    /// The error that says `message`.
    pub fn new(message: &str) -> (r: Self)
        ensures
            r@ == alarm() + message@,
    {
        proof {
            reveal_strlit("\u{1F631} ");
        }
        SheepError { message: appended("\u{1F631} ", message) }
    }

    /// The failure of a version-control operation, which `detail` describes.
    pub fn git(detail: &str) -> (r: Self)
        ensures
            r@ == alarm() + "git error: "@ + detail@,
    {
        let message = appended("git error: ", detail);
        let r = Self::new(message.as_str());
        r
    }

    /// The failure to read or write a file, which `detail` describes.
    pub fn io(detail: &str) -> (r: Self)
        ensures
            r@ == alarm() + "io error: "@ + detail@,
    {
        let message = appended("io error: ", detail);
        let r = Self::new(message.as_str());
        r
    }

    /// The failure to read a repository's address, which `detail` describes.
    pub fn git_url(detail: &str) -> (r: Self)
        ensures
            r@ == alarm() + "git url parse error: "@ + detail@,
    {
        let message = appended("git url parse error: ", detail);
        let r = Self::new(message.as_str());
        r
    }

    /// The failure to read a configuration, which `detail` describes.
    pub fn config(detail: &str) -> (r: Self)
        ensures
            r@ == alarm() + "config parse error: "@ + detail@,
    {
        let message = appended("config parse error: ", detail);
        let r = Self::new(message.as_str());
        r
    }

    /// The message.
    pub fn to_string(&self) -> (s: String)
        ensures
            s@ == self@,
    {
        self.message.clone()
    }
}

} // verus!
