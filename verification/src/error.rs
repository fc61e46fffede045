//! What can go wrong in the cache, and where.
//!
//! Every failure names the directory that it concerns and, where the work
//! was for a resolution, the canonical text of that resolution, so that
//! whoever reads a log can look at the cache by hand.

use vstd::prelude::*;
use vstd::string::*;

verus! {

/// Mathematical value of an [`ErrorKind`].
pub enum KindView {
    MissingManifest,
    InvalidIndex,
    Checksum,
    LockBusy,
    Network,
    Io,
    NameMismatch { declared: Seq<char>, found: Seq<char> },
    DestinationExists,
}

/// Mathematical value of an [`Error`].
pub struct ErrorView {
    pub kind: KindView,
    pub path: Seq<char>,
    pub resolution: Option<Seq<char>>,
}

impl ErrorView {
    /// What went wrong, in one sentence.
    pub open spec fn message(self) -> Seq<char> {
        match self.kind {
            KindView::MissingManifest => "manifest file elba.toml is missing"@,
            KindView::InvalidIndex => "manifest or index descriptor could not be parsed"@,
            KindView::Checksum => "retrieved bytes do not match the expected checksum"@,
            KindView::LockBusy => "directory is locked by another holder"@,
            KindView::Network => "transport failure while retrieving"@,
            KindView::Io => "filesystem operation failed"@,
            KindView::NameMismatch { declared, found } => "names don't match: "@ + declared
                + " was declared, but "@ + found + " was found in elba.toml"@,
            KindView::DestinationExists => "destination `"@ + self.path
                + "` already exists\n\ncreate a new `elba.toml` manifest file in the directory instead"@,
        }
    }

    /// Where it went wrong: the directory and, where there is one, the
    /// resolution.
    pub open spec fn context(self) -> Seq<char> {
        match self.resolution {
            Some(res) => "path: "@ + self.path + ", resolution: "@ + res,
            None => "path: "@ + self.path,
        }
    }

    /// The message, and on a line of its own the context.
    pub open spec fn report(self) -> Seq<char> {
        self.message() + "\n"@ + self.context()
    }
}

/// What went wrong.
#[derive(Debug)]
pub enum ErrorKind {
    /// No manifest in a source directory.
    MissingManifest,
    /// A manifest or index descriptor failed to parse.
    InvalidIndex,
    /// Retrieved bytes did not match the expected digest.
    Checksum,
    /// A directory is claimed already.
    LockBusy,
    /// The transport failed while retrieving.
    Network,
    /// Any other filesystem failure.
    Io,
    /// The manifest names another package than the one asked for.
    NameMismatch { declared: String, found: String },
    /// A new package was to be created where something already exists.
    DestinationExists,
}

impl View for ErrorKind {
    type V = KindView;

    open spec fn view(&self) -> KindView {
        match self {
            ErrorKind::MissingManifest => KindView::MissingManifest,
            ErrorKind::InvalidIndex => KindView::InvalidIndex,
            ErrorKind::Checksum => KindView::Checksum,
            ErrorKind::LockBusy => KindView::LockBusy,
            ErrorKind::Network => KindView::Network,
            ErrorKind::Io => KindView::Io,
            ErrorKind::NameMismatch { declared, found } => KindView::NameMismatch {
                declared: declared@,
                found: found@,
            },
            ErrorKind::DestinationExists => KindView::DestinationExists,
        }
    }
}

impl Clone for ErrorKind {
    fn clone(&self) -> (r: Self)
        ensures
            r@ == self@,
    {
        match self {
            ErrorKind::MissingManifest => ErrorKind::MissingManifest,
            ErrorKind::InvalidIndex => ErrorKind::InvalidIndex,
            ErrorKind::Checksum => ErrorKind::Checksum,
            ErrorKind::LockBusy => ErrorKind::LockBusy,
            ErrorKind::Network => ErrorKind::Network,
            ErrorKind::Io => ErrorKind::Io,
            ErrorKind::NameMismatch { declared, found } => ErrorKind::NameMismatch {
                declared: declared.clone(),
                found: found.clone(),
            },
            ErrorKind::DestinationExists => ErrorKind::DestinationExists,
        }
    }
}

/// The characters of an optional text.
pub open spec fn text_view(text: Option<String>) -> Option<Seq<char>> {
    match text {
        Some(t) => Some(t@),
        None => None,
    }
}

/// A failure of a cache operation: what went wrong, the directory that it
/// concerns, and the canonical text of the resolution that the work was
/// for, where there is one.
#[derive(Debug)]
pub struct Error {
    pub kind: ErrorKind,
    pub path: String,
    pub resolution: Option<String>,
}

impl View for Error {
    type V = ErrorView;

    open spec fn view(&self) -> ErrorView {
        ErrorView { kind: self.kind@, path: self.path@, resolution: text_view(self.resolution) }
    }
}

impl Clone for Error {
    fn clone(&self) -> (r: Self)
        ensures
            r@ == self@,
    {
        let resolution = match &self.resolution {
            Some(res) => Some(res.clone()),
            None => None,
        };
        Error { kind: self.kind.clone(), path: self.path.clone(), resolution }
    }
}

impl Error {
    /// A failure that concerns the directory `path` and no resolution.
    pub fn at(kind: ErrorKind, path: &str) -> (e: Error)
        ensures
            e@ == (ErrorView { kind: kind@, path: path@, resolution: None }),
    {
        Error { kind, path: String::from_str(path), resolution: None }
    }

    /// A failure that concerns the directory `path`, met while working for
    /// the resolution with the canonical text `resolution`.
    pub fn within(kind: ErrorKind, path: &str, resolution: String) -> (e: Error)
        ensures
            e@ == (ErrorView { kind: kind@, path: path@, resolution: Some(resolution@) }),
    {
        Error { kind, path: String::from_str(path), resolution: Some(resolution) }
    }

    /// Whether the caller may try the same operation again: only a busy
    /// lock and a transport failure pass with time.
    pub fn is_retryable(&self) -> (r: bool)
        ensures
            r == (self@.kind is LockBusy || self@.kind is Network),
    {
        match self.kind {
            ErrorKind::LockBusy => true,
            ErrorKind::Network => true,
            _ => false,
        }
    }

    /// What went wrong, in one sentence.
    pub fn message(&self) -> (text: String)
        ensures
            text@ == self@.message(),
    {
        match &self.kind {
            ErrorKind::MissingManifest => String::from_str("manifest file elba.toml is missing"),
            ErrorKind::InvalidIndex => String::from_str(
                "manifest or index descriptor could not be parsed",
            ),
            ErrorKind::Checksum => String::from_str(
                "retrieved bytes do not match the expected checksum",
            ),
            ErrorKind::LockBusy => String::from_str("directory is locked by another holder"),
            ErrorKind::Network => String::from_str("transport failure while retrieving"),
            ErrorKind::Io => String::from_str("filesystem operation failed"),
            ErrorKind::NameMismatch { declared, found } => {
                let mut text = String::from_str("names don't match: ");
                text.append(declared.as_str());
                text.append(" was declared, but ");
                text.append(found.as_str());
                text.append(" was found in elba.toml");
                text
            },
            ErrorKind::DestinationExists => {
                let mut text = String::from_str("destination `");
                text.append(self.path.as_str());
                text.append(
                    "` already exists\n\ncreate a new `elba.toml` manifest file in the directory instead",
                );
                text
            },
        }
    }

    /// Where it went wrong: the directory and, where there is one, the
    /// resolution.
    pub fn context(&self) -> (text: String)
        ensures
            text@ == self@.context(),
    {
        let mut text = String::from_str("path: ");
        text.append(self.path.as_str());
        match &self.resolution {
            Some(res) => {
                text.append(", resolution: ");
                text.append(res.as_str());
            },
            None => {},
        }
        text
    }

    /// The message, and on a line of its own the context.
    pub fn report(&self) -> (text: String)
        ensures
            text@ == self@.report(),
    {
        let mut text = self.message();
        text.append("\n");
        let context = self.context();
        text.append(context.as_str());
        text
    }
}

} // verus!
