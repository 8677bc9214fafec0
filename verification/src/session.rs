//! The session-creation gateway: it turns a creation request and the session
//! manager's verdict on it into the command's result. The manager itself — the
//! store that validates the request and persists the record — is an external
//! collaborator; the caller obtains its verdict and hands it in.

use vstd::prelude::*;

verus! {

/// The kinds of session record the session manager recognizes.
#[derive(Clone, Copy, Debug, PartialEq, Eq)]
pub enum SessionKind {
    /// A conversation driven turn by turn by a present user.
    Interactive,
    /// A conversation run on a schedule, without a present user.
    Scheduled,
}

/// A persisted session record: the working directory the conversation is
/// anchored to, its human-readable name, and its kind. The bridge passes these
/// fields through unchanged and never interprets them.
#[derive(Clone, Debug, PartialEq, Eq)]
pub struct Session {
    pub working_dir: String,
    pub name: String,
    pub kind: SessionKind,
}

/// The session manager's verdict on one creation request: it persisted a
/// record for exactly the requested working directory, name and kind, or it
/// rejected the request for the carried reason.
#[derive(Clone, Debug, PartialEq, Eq)]
pub enum ManagerVerdict {
    Accepted,
    Rejected(String),
}

/// Conclude one session-creation command. On acceptance the created record
/// reflects the three inputs unchanged; on rejection the command fails with
/// the manager's own description, verbatim, and nothing is created. Nothing is
/// retried at this layer.
pub fn create_session(
    working_dir: String,
    name: String,
    kind: SessionKind,
    verdict: ManagerVerdict,
) -> (r: Result<Session, String>)
    ensures
        match verdict {
            ManagerVerdict::Accepted => r == Ok::<Session, String>(
                (Session { working_dir, name, kind }),
            ),
            ManagerVerdict::Rejected(reason) => r == Err::<Session, String>(reason),
        },
{
    match verdict {
        ManagerVerdict::Accepted => Ok(Session { working_dir, name, kind }),
        ManagerVerdict::Rejected(reason) => Err(reason),
    }
}

} // verus!
