//! Pull-request states and the request bodies of the pull-request workflow.
use vstd::prelude::*;
use vstd::string::*;

verus! {

/// Where a pull request stands.
#[derive(PartialEq, Eq, Structural, Clone, Copy, Debug)]
pub enum PullRequestStatus {
    /// Waiting to be taken or closed.
    Open,
    /// Closed without taking the changes.
    Closed,
    /// Taken into the target branch.
    Merged,
}

/// The stored word for a status.
pub open spec fn status_text(s: PullRequestStatus) -> Seq<char> {
    match s {
        PullRequestStatus::Open => "open"@,
        PullRequestStatus::Closed => "closed"@,
        PullRequestStatus::Merged => "merged"@,
    }
}

/// The status a lowercase word stands for; any other word reads as open.
pub open spec fn status_of_word(word: Seq<char>) -> PullRequestStatus {
    if word == "closed"@ {
        PullRequestStatus::Closed
    } else if word == "merged"@ {
        PullRequestStatus::Merged
    } else {
        PullRequestStatus::Open
    }
}

/// What `str::to_lowercase` makes of `s`.
pub uninterp spec fn lowercase_of(s: Seq<char>) -> Seq<char>;

/// Relies on `str::to_lowercase`: Unicode lowercase mapping, which depends
/// on the characters alone.
#[verifier::external_body]
fn to_lowercase(s: &str) -> (r: String)
    ensures
        r@ == lowercase_of(s@),
{
    s.to_lowercase()
}

impl PullRequestStatus {
    /// The status a word names, whatever its case; an unknown word reads as
    /// open.
    pub fn from_str(status: &str) -> (r: PullRequestStatus)
        ensures
            r == status_of_word(lowercase_of(status@)),
    {
        let lower = to_lowercase(status);
        PullRequestStatus::from_lowercase(lower.as_str())
    }

    /// The status an already lowercase word names; an unknown word reads as
    /// open.
    pub fn from_lowercase(word: &str) -> (r: PullRequestStatus)
        ensures
            r == status_of_word(word@),
    {
        let w = String::from_str(word);
        if w == String::from_str("closed") {
            PullRequestStatus::Closed
        } else if w == String::from_str("merged") {
            PullRequestStatus::Merged
        } else {
            PullRequestStatus::Open
        }
    }

    /// The stored word for the status.
    pub fn to_str(&self) -> (r: &'static str)
        ensures
            r@ == status_text(*self),
    {
        match self {
            PullRequestStatus::Open => "open",
            PullRequestStatus::Closed => "closed",
            PullRequestStatus::Merged => "merged",
        }
    }
}

/// Reading a status's stored word back gives the same status.
pub proof fn lemma_status_word_round_trip(s: PullRequestStatus)
    ensures
        status_of_word(status_text(s)) == s,
{
    reveal_strlit("open");
    reveal_strlit("closed");
    reveal_strlit("merged");
    assert("open"@ != "closed"@ && "open"@ != "merged"@ && "closed"@ != "merged"@) by {
        assert("open"@.len() != "closed"@.len());
        assert("open"@.len() != "merged"@.len());
        assert("closed"@[0] != "merged"@[0]);
    }
}

/// A request to open a pull request.
pub struct CreatePullRequestRequest {
    pub title: String,
    pub description: Option<String>,
    pub source_branch: String,
    pub target_branch: String,
}

/// A request to comment on a pull request.
pub struct CreateCommentRequest {
    pub content: String,
}

/// A request to move a pull request to another status, given as a word.
pub struct UpdatePullRequestStatusRequest {
    pub status: String,
}

} // verus!
