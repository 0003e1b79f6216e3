//! Error taxonomy: extraction failures are fatal per commit, tracker API
//! failures are fatal per call unless the auth-retry protocol applies.

use vstd::prelude::*;

verus! {

/// Failure while extracting commit metadata from repository output.
#[derive(Debug, PartialEq, Eq)]
pub enum ExtractError {
    /// The commit date text did not match the expected format; carries the
    /// offending text (after the trailing annotation was stripped).
    DateParse { text: String },
    /// A repository query subcommand failed; carries the failing command
    /// with its arguments and the diagnostic output.
    Command { command: String, detail: String },
}

/// Rejected client configuration, fatal at startup.
#[derive(Debug, PartialEq, Eq)]
pub enum ValidationError {
    /// The API base URL is empty.
    EmptyApiUrl,
    /// The tracker product name is missing or empty.
    MissingProductName,
    /// The credential pair is missing or empty.
    MissingCredential,
}

/// Failure of one synchronization attempt against the tracker.
#[derive(Debug, PartialEq, Eq)]
pub enum SyncError {
    /// The tracker answered with a fatal error code (a non-auth code, or a
    /// repeated auth-failure code after the one allowed retry).
    Tracker { code: String },
    /// The transport failed: the request could not be sent, or the response
    /// was not readable.
    Transport { detail: String },
    /// A token reply lacked the token fields: token acquisition failed.
    Auth,
    /// A non-error reply lacked the field the protocol step requires.
    MalformedReply,
    /// The tree digest could not be computed.
    Digest,
}

} // verus!
