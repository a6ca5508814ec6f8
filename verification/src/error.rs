//! Why a watch could not be set up, and the stable number that stands for
//! each reason when it is reported to a consumer in another runtime.

use notify::ErrorKind;
use vstd::prelude::*;
use vstd::string::*;

verus! {

/// `notify::ErrorKind`, the backend's reasons for an error, with its variants
/// as the backend declares them.
#[verifier::external_type_specification]
pub struct ExErrorKind(ErrorKind);

/// `std::io::Error`, which `ErrorKind::Io` holds. A value of it is carried
/// through unread.
#[verifier::external_type_specification]
#[verifier::external_body]
pub struct ExIoError(std::io::Error);

/// `notify::Config`, which `ErrorKind::InvalidConfig` holds. A value of it is
/// carried through unread.
#[verifier::external_type_specification]
#[verifier::external_body]
pub struct ExConfig(notify::Config);

/// Reasons for which a watch cannot be registered or removed.
#[derive(Debug, PartialEq, Eq)]
pub enum WatcherInitError {
    /// An error of the backend that fits no other variant; `error` is its message.
    Generic { error: String },
    /// A failure of the underlying I/O; `error` is its message.
    Io { error: String },
    /// The watch root does not exist.
    PathNotFound,
    /// A watch was to be removed that is not registered.
    WatchNotFound,
    /// The backend rejected the watcher's configuration.
    InvalidConfig,
    /// The platform's limit on watches is exhausted.
    MaxFilesWatch,
}

/// The number that stands for each error.
pub open spec fn init_error_code(error: WatcherInitError) -> int {
    match error {
        WatcherInitError::Generic { .. } => 1,
        WatcherInitError::Io { .. } => 2,
        WatcherInitError::PathNotFound => 3,
        WatcherInitError::WatchNotFound => 4,
        WatcherInitError::InvalidConfig => 5,
        WatcherInitError::MaxFilesWatch => 6,
    }
}

/// The text that describes each error.
pub open spec fn init_error_message(error: WatcherInitError) -> Seq<char> {
    match error {
        WatcherInitError::Generic { error } => error@,
        WatcherInitError::Io { .. } => "IO Error"@,
        WatcherInitError::PathNotFound => "Path not found"@,
        WatcherInitError::WatchNotFound => "Can not remove watch, it has not been found"@,
        WatcherInitError::InvalidConfig => "Invalid configuration"@,
        WatcherInitError::MaxFilesWatch => "Max files reached. Check the inotify limit"@,
    }
}

impl WatcherInitError {
    /// The error's number: 1 for `Generic` up to 6 for `MaxFilesWatch`, in the
    /// order of the variants.
    pub fn code(&self) -> (code: i32)
        ensures
            code == init_error_code(*self),
            1 <= code <= 6,
    {
        match self {
            WatcherInitError::Generic { .. } => 1,
            WatcherInitError::Io { .. } => 2,
            WatcherInitError::PathNotFound => 3,
            WatcherInitError::WatchNotFound => 4,
            WatcherInitError::InvalidConfig => 5,
            WatcherInitError::MaxFilesWatch => 6,
        }
    }

    /// The error's description. A `Generic` error is described by its own
    /// message; every other variant has a fixed text.
    pub fn message(&self) -> (text: String)
        ensures
            text@ == init_error_message(*self),
    {
        match self {
            WatcherInitError::Generic { error } => error.clone(),
            WatcherInitError::Io { .. } => String::from_str("IO Error"),
            WatcherInitError::PathNotFound => String::from_str("Path not found"),
            WatcherInitError::WatchNotFound => String::from_str(
                "Can not remove watch, it has not been found",
            ),
            WatcherInitError::InvalidConfig => String::from_str("Invalid configuration"),
            WatcherInitError::MaxFilesWatch => String::from_str(
                "Max files reached. Check the inotify limit",
            ),
        }
    }
}

/// The number under which each kind of error of the backend is reported: that
/// of the library's error of the same name.
pub open spec fn error_kind_code(kind: ErrorKind) -> int {
    match kind {
        ErrorKind::Generic(_) => 1,
        ErrorKind::Io(_) => 2,
        ErrorKind::PathNotFound => 3,
        ErrorKind::WatchNotFound => 4,
        ErrorKind::InvalidConfig(_) => 5,
        ErrorKind::MaxFilesWatch => 6,
    }
}

/// Whether `error` stands for the backend's `kind`: it is the variant of the
/// same name, and a `Generic` error has the backend's message. The message of
/// an `Io` error is whatever text the I/O error gives of itself.
pub open spec fn stands_for_kind(error: WatcherInitError, kind: ErrorKind) -> bool {
    match kind {
        ErrorKind::Generic(message) => error matches WatcherInitError::Generic { error: text }
            && text@ == message@,
        ErrorKind::Io(_) => error is Io,
        ErrorKind::PathNotFound => error == WatcherInitError::PathNotFound,
        ErrorKind::WatchNotFound => error == WatcherInitError::WatchNotFound,
        ErrorKind::InvalidConfig(_) => error == WatcherInitError::InvalidConfig,
        ErrorKind::MaxFilesWatch => error == WatcherInitError::MaxFilesWatch,
    }
}

/// An error that stands for a kind has the kind's code.
pub proof fn lemma_kind_and_error_share_the_code(error: WatcherInitError, kind: ErrorKind)
    requires
        stands_for_kind(error, kind),
    ensures
        init_error_code(error) == error_kind_code(kind),
{
}

/// The library's error for an error of the backend: the variant of the same
/// name. The message of `Generic` is the backend's, that of `Io` is the text
/// of the I/O error, and the configuration that `InvalidConfig` holds is
/// dropped.
pub fn into_watcher_init_error(kind: ErrorKind) -> (error: WatcherInitError)
    ensures
        stands_for_kind(error, kind),
{
    match kind {
        ErrorKind::Generic(err) => WatcherInitError::Generic { error: err },
        ErrorKind::Io(err) => WatcherInitError::Io { error: err.to_string() },
        ErrorKind::PathNotFound => WatcherInitError::PathNotFound,
        ErrorKind::WatchNotFound => WatcherInitError::WatchNotFound,
        ErrorKind::InvalidConfig(_) => WatcherInitError::InvalidConfig,
        ErrorKind::MaxFilesWatch => WatcherInitError::MaxFilesWatch,
    }
}

/// The number under which an error of the backend is reported: 1 for
/// `Generic` up to 6 for `MaxFilesWatch`, in the order of the variants.
pub fn error_to_code(error_kind: ErrorKind) -> (code: i32)
    ensures
        code == error_kind_code(error_kind),
{
    match error_kind {
        ErrorKind::Generic(_) => 1,
        ErrorKind::Io(_) => 2,
        ErrorKind::PathNotFound => 3,
        ErrorKind::WatchNotFound => 4,
        ErrorKind::InvalidConfig(_) => 5,
        ErrorKind::MaxFilesWatch => 6,
    }
}

} // verus!
