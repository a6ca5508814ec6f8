//! The parts of a remote-shell wrapper that compute: which options a session
//! is set up with, how the outcome of a call is told to a consumer in another
//! runtime, and what a read hands back. The calls on the transport themselves
//! are made elsewhere.

use vstd::prelude::*;
use vstd::string::*;

verus! {

/// The key types that a session accepts for public-key authentication.
pub const ACCEPTED_SSH_TYPES: &'static str =
    "ssh-ed25519,ecdsa-sha2-nistp256,ecdsa-sha2-nistp384,ecdsa-sha2-nistp521,ssh-rsa,rsa-sha2-512,rsa-sha2-256,ssh-dss";

/// The number that tells a consumer that the session or channel could not be
/// had for an authentication.
pub const AUTH_UNAVAILABLE: i32 = -1;

/// The number that tells a consumer that an authentication failed with an
/// error.
pub const AUTH_FAILED: i32 = -2;

/// How an authentication attempt was answered.
#[derive(Clone, Copy, Debug, PartialEq, Eq, Structural)]
pub enum AuthStatus {
    Success,
    Denied,
    Partial,
    Info,
    Again,
}

/// What a poll of a channel found.
#[derive(Clone, Copy, Debug, PartialEq, Eq, Structural)]
pub enum PollStatus {
    AvailableBytes(u32),
    EndOfFile,
}

/// Why a call on the transport failed.
#[derive(Debug, PartialEq, Eq)]
pub enum SshError {
    /// The request was denied; the situation is recoverable.
    RequestDenied(String),
    /// The session is broken.
    Fatal(String),
    /// The call must be tried again.
    TryAgain,
    /// A failure of the file-transfer subsystem.
    Sftp,
}

/// The calls on the transport whose failure is told to the consumer as a
/// message.
#[derive(Clone, Copy, Debug, PartialEq, Eq, Structural)]
pub enum SshCall {
    SetHostname,
    SetUser,
    SetPort,
    SetPublicKeyTypes,
    ParseConfig,
    Connect,
    OpenSession,
    CloseChannel,
    RequestExec,
}

/// One option that a session is set up with, or one call that setting up
/// makes.
#[derive(Debug, PartialEq, Eq)]
pub enum SetupStep {
    Hostname(String),
    User(String),
    Port(u16),
    PublicKeyAcceptedTypes(String),
    ParseConfig,
    Connect,
}

/// What a contract reads of a [`SetupStep`].
pub enum SetupStepView {
    Hostname(Seq<char>),
    User(Seq<char>),
    Port(u16),
    PublicKeyAcceptedTypes(Seq<char>),
    ParseConfig,
    Connect,
}

impl View for SetupStep {
    type V = SetupStepView;

    open spec fn view(&self) -> SetupStepView {
        match *self {
            SetupStep::Hostname(host) => SetupStepView::Hostname(host@),
            SetupStep::User(user) => SetupStepView::User(user@),
            SetupStep::Port(port) => SetupStepView::Port(port),
            SetupStep::PublicKeyAcceptedTypes(types) => SetupStepView::PublicKeyAcceptedTypes(
                types@,
            ),
            SetupStep::ParseConfig => SetupStepView::ParseConfig,
            SetupStep::Connect => SetupStepView::Connect,
        }
    }
}

/// What one read of a channel handed back: the buffer that was read into, and
/// how many bytes of it were filled.
#[derive(Debug, PartialEq, Eq)]
pub struct ReadResult {
    pub read_count: u64,
    pub data: Vec<u8>,
}

/// The number that stands for each answer to an authentication.
pub open spec fn auth_status_code(auth_status: AuthStatus) -> int {
    match auth_status {
        AuthStatus::Success => 1,
        AuthStatus::Denied => 2,
        AuthStatus::Partial => 3,
        AuthStatus::Info => 4,
        AuthStatus::Again => 5,
    }
}

/// The text that tells of each error.
pub open spec fn error_message(err: SshError) -> Seq<char> {
    match err {
        SshError::RequestDenied(message) => message@,
        SshError::Fatal(message) => message@,
        SshError::TryAgain => "Something went wrong, please try again"@,
        SshError::Sftp => "Sftp not supported"@,
    }
}

/// The words that begin the message of a failed call.
pub open spec fn failure_prefix(call: SshCall) -> Seq<char> {
    match call {
        SshCall::SetHostname => "SSH Hostname option failed: "@,
        SshCall::SetUser => "SSH User option failed: "@,
        SshCall::SetPort => "SSH Port option failed: "@,
        SshCall::SetPublicKeyTypes => "SSH Public keys option failed: "@,
        SshCall::ParseConfig => "SSH Configuration parsing failed: "@,
        SshCall::Connect => "Server connection failed: "@,
        SshCall::OpenSession => "Channel open session failed: "@,
        SshCall::CloseChannel => "Channel closing failed: "@,
        SshCall::RequestExec => "Channel request exec failed: "@,
    }
}

/// The steps that set up a session for `host`: the host name; the user, unless
/// it is empty; the port, if one is given, cut to 16 bits; the accepted key
/// types; the parsing of the configuration; and the connection.
pub open spec fn setup_steps_spec(host: Seq<char>, user: Seq<char>, port: Option<i32>) -> Seq<
    SetupStepView,
> {
    seq![SetupStepView::Hostname(host)] + (if user.len() > 0 {
        seq![SetupStepView::User(user)]
    } else {
        Seq::empty()
    }) + (match port {
        Some(port) => seq![SetupStepView::Port(port as u16)],
        None => Seq::empty(),
    }) + seq![
        SetupStepView::PublicKeyAcceptedTypes(ACCEPTED_SSH_TYPES@),
        SetupStepView::ParseConfig,
        SetupStepView::Connect,
    ]
}

/// The number under which an answer to an authentication is told: 1 for
/// `Success` up to 5 for `Again`, in the order of the variants.
pub fn to_int(auth_status: AuthStatus) -> (code: i32)
    ensures
        code == auth_status_code(auth_status),
{
    match auth_status {
        AuthStatus::Success => 1,
        AuthStatus::Denied => 2,
        AuthStatus::Partial => 3,
        AuthStatus::Info => 4,
        AuthStatus::Again => 5,
    }
}

/// The number under which the outcome of an authentication is told: that of
/// the answer, or [`AUTH_FAILED`] where the attempt ended in an error.
pub fn auth_result_code(outcome: &Result<AuthStatus, SshError>) -> (code: i32)
    ensures
        code == match *outcome {
            Ok(auth_status) => auth_status_code(auth_status),
            Err(_) => AUTH_FAILED as int,
        },
{
    match outcome {
        Ok(auth_status) => to_int(*auth_status),
        Err(_) => AUTH_FAILED,
    }
}

/// The text that tells of an error: its own message where it has one, a fixed
/// text otherwise.
pub fn libssh_error_to_message(err: &SshError) -> (message: String)
    ensures
        message@ == error_message(*err),
{
    match err {
        SshError::RequestDenied(message) => message.clone(),
        SshError::Fatal(message) => message.clone(),
        SshError::TryAgain => String::from_str("Something went wrong, please try again"),
        SshError::Sftp => String::from_str("Sftp not supported"),
    }
}

/// The message that tells of a failed call: the words for the call, then the
/// text of the error.
pub fn failure_message(call: SshCall, err: &SshError) -> (message: String)
    ensures
        message@ == failure_prefix(call) + error_message(*err),
{
    let mut message = match call {
        SshCall::SetHostname => String::from_str("SSH Hostname option failed: "),
        SshCall::SetUser => String::from_str("SSH User option failed: "),
        SshCall::SetPort => String::from_str("SSH Port option failed: "),
        SshCall::SetPublicKeyTypes => String::from_str("SSH Public keys option failed: "),
        SshCall::ParseConfig => String::from_str("SSH Configuration parsing failed: "),
        SshCall::Connect => String::from_str("Server connection failed: "),
        SshCall::OpenSession => String::from_str("Channel open session failed: "),
        SshCall::CloseChannel => String::from_str("Channel closing failed: "),
        SshCall::RequestExec => String::from_str("Channel request exec failed: "),
    };
    let text = libssh_error_to_message(err);
    message.append(text.as_str());
    message
}

/// What a consumer is told of a call: the empty message where the call
/// succeeded, the message of the failure where it did not.
pub fn outcome_message(call: SshCall, outcome: &Result<(), SshError>) -> (message: String)
    ensures
        message@ == match *outcome {
            Ok(_) => Seq::<char>::empty(),
            Err(err) => failure_prefix(call) + error_message(err),
        },
{
    match outcome {
        Ok(_) => String::new(),
        Err(err) => failure_message(call, err),
    }
}

/// The call that a setup step makes.
pub fn call_of_step(step: &SetupStep) -> (call: SshCall)
    ensures
        call == match step@ {
            SetupStepView::Hostname(_) => SshCall::SetHostname,
            SetupStepView::User(_) => SshCall::SetUser,
            SetupStepView::Port(_) => SshCall::SetPort,
            SetupStepView::PublicKeyAcceptedTypes(_) => SshCall::SetPublicKeyTypes,
            SetupStepView::ParseConfig => SshCall::ParseConfig,
            SetupStepView::Connect => SshCall::Connect,
        },
{
    match step {
        SetupStep::Hostname(_) => SshCall::SetHostname,
        SetupStep::User(_) => SshCall::SetUser,
        SetupStep::Port(_) => SshCall::SetPort,
        SetupStep::PublicKeyAcceptedTypes(_) => SshCall::SetPublicKeyTypes,
        SetupStep::ParseConfig => SshCall::ParseConfig,
        SetupStep::Connect => SshCall::Connect,
    }
}

/// The port number that is set for a given port: its low 16 bits.
pub fn port_number(port: i32) -> (number: u16)
    ensures
        number == port as u16,
        0 <= port <= 65535 ==> number == port,
{
    #[verifier::truncate]
    (port as u16)
}

/// The steps that set up a session, in the order in which they are made.
pub fn setup_steps(host: String, user: String, port: Option<i32>) -> (steps: Vec<SetupStep>)
    ensures
        steps@.map_values(|step: SetupStep| step@) == setup_steps_spec(host@, user@, port),
{
    let mut steps: Vec<SetupStep> = Vec::new();
    steps.push(SetupStep::Hostname(host));
    if !user.as_str().is_empty() {
        steps.push(SetupStep::User(user));
    }
    match port {
        Some(port) => {
            steps.push(SetupStep::Port(port_number(port)));
        },
        None => {},
    }
    steps.push(SetupStep::PublicKeyAcceptedTypes(String::from_str(ACCEPTED_SSH_TYPES)));
    steps.push(SetupStep::ParseConfig);
    steps.push(SetupStep::Connect);
    steps
}

/// Whether a poll found bytes to read: at the end of the stream, and where
/// none are available, it did not.
pub fn has_available_bytes(status: PollStatus) -> (available: bool)
    ensures
        available == match status {
            PollStatus::AvailableBytes(count) => count > 0,
            PollStatus::EndOfFile => false,
        },
{
    match status {
        PollStatus::AvailableBytes(count) => count > 0,
        PollStatus::EndOfFile => false,
    }
}

impl ReadResult {
    /// A buffer of `len` zero bytes to read into.
    pub fn buffer(len: usize) -> (data: Vec<u8>)
        ensures
            data@.len() == len,
            forall|i: int| 0 <= i < len ==> data@[i] == 0,
    {
        let mut data: Vec<u8> = Vec::new();
        data.resize(len, 0u8);
        data
    }

    /// The result of a read that filled `read` bytes of `data`.
    pub fn new(data: Vec<u8>, read: usize) -> (result: ReadResult)
        ensures
            result.read_count == read,
            result.data == data,
    {
        ReadResult { read_count: read as u64, data }
    }
}

} // verus!
