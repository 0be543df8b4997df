//! The error taxonomy of the copy tool.
//!
//! Every failure is fail-fast: an error is built at the point of failure and
//! handed back unchanged, so each variant records exactly one condition.

use vstd::prelude::*;

verus! {

/// A remote locator string that could not be parsed.
#[derive(Debug, Clone, Copy, PartialEq, Eq, Structural)]
pub enum ParseError {
    /// The string starts with the remote scheme but is not a well-formed URL
    /// (there is no host at all).
    InvalidUrl,
    /// The URL is well-formed but the bucket or object name does not conform
    /// to the remote store's naming rules.
    InvalidLocator,
}

/// An unsupported pairing of source and destination.
#[derive(Debug, Clone, Copy, PartialEq, Eq, Structural)]
pub enum DirectionError {
    /// Both sides are local filesystem paths.
    BothLocal,
    /// Both sides are remote object locators.
    BothRemote,
}

/// A destination object name could not be derived from the source path.
#[derive(Debug, Clone, Copy, PartialEq, Eq, Structural)]
pub enum NameError {
    /// The source path has no final file-name component.
    UnrepresentableFileName,
}

impl DirectionError {
    /// What `message` returns, as a sequence of characters.
    pub open spec fn message_view(&self) -> Seq<char> {
        match self {
            DirectionError::BothLocal => "source and destination are both located on local disk"@,
            DirectionError::BothRemote => "source and destination are both located on gcs"@,
        }
    }

    /// The display text of this error, as printed at the top level.
    pub fn message(&self) -> (r: String)
        ensures
            r@ == self.message_view(),
    {
        match self {
            DirectionError::BothLocal => {
                "source and destination are both located on local disk".to_owned()
            },
            DirectionError::BothRemote => {
                "source and destination are both located on gcs".to_owned()
            },
        }
    }
}

impl NameError {
    /// The display text of this error, as printed at the top level.
    pub fn message(&self) -> (r: String)
        ensures
            r@ == "can't turn file_name into string"@,
    {
        "can't turn file_name into string".to_owned()
    }
}

/// Everything that can go wrong while planning or performing one copy.
#[derive(Debug)]
pub enum CpError {
    /// A source or destination string could not be classified.
    Parse(ParseError),
    /// The source/destination pairing is unsupported.
    Direction(DirectionError),
    /// No destination object name could be derived for an upload.
    Name(NameError),
    /// A download source names only a bucket, not a full object.
    MissingObjectName,
    /// The local source file could not be opened; holds the I/O error text.
    SourceOpenFailed(String),
    /// The local destination file could not be created; holds the I/O error text.
    DestinationCreateFailed(String),
    /// The remote store's request builder rejected the request; holds its error text.
    RequestBuild(String),
    /// The request-execution boundary failed (network, auth, remote status).
    Exec(String),
    /// Streaming bytes between the response and the local file failed mid-way.
    StreamCopy(String),
}

impl CpError {
    /// The display text of this error, as printed at the top level.
    pub fn message(&self) -> (r: String)
        ensures
            *self == CpError::Parse(ParseError::InvalidUrl) ==> r@ == "invalid url"@,
            *self == CpError::Parse(ParseError::InvalidLocator) ==> r@
                == "invalid object locator"@,
            *self matches CpError::Direction(e) ==> r@ == e.message_view(),
            *self is Name ==> r@ == "can't turn file_name into string"@,
            *self is MissingObjectName ==> r@ == "must provide a full object name to copy from"@,
            *self matches CpError::SourceOpenFailed(t) ==> r@ == "source path"@ + ": "@ + t@,
            *self matches CpError::DestinationCreateFailed(t) ==> r@ == "destination path"@ + ": "@
                + t@,
            *self matches CpError::RequestBuild(t) ==> r@ == t@,
            *self matches CpError::Exec(t) ==> r@ == t@,
            *self matches CpError::StreamCopy(t) ==> r@ == t@,
    {
        match self {
            CpError::Parse(ParseError::InvalidUrl) => "invalid url".to_owned(),
            CpError::Parse(ParseError::InvalidLocator) => "invalid object locator".to_owned(),
            CpError::Direction(e) => e.message(),
            CpError::Name(e) => e.message(),
            CpError::MissingObjectName => "must provide a full object name to copy from".to_owned(),
            CpError::SourceOpenFailed(t) => join_context("source path", t),
            CpError::DestinationCreateFailed(t) => join_context("destination path", t),
            CpError::RequestBuild(t) => t.clone(),
            CpError::Exec(t) => t.clone(),
            CpError::StreamCopy(t) => t.clone(),
        }
    }
}

/// Prefixes an error text with a short label naming the failing side,
/// in the style `label: text`.
pub fn join_context(label: &str, text: &String) -> (r: String)
    ensures
        r@ == label@ + ": "@ + text@,
{
    let mut out = label.to_owned();
    out.append(": ");
    out.append(text.as_str());
    out
}

} // verus!
