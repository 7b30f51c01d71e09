use vstd::prelude::*;
use crate::addr::SockAddr;
use crate::config::ServerConfig;
use crate::ports::PortRegistry;

verus! {

/// The credentials and address a client sends to log in.
pub struct LoginInfo {
    pub password: String,
    /// Out mode: the TCP endpoint to dial. In mode: the public listener to open.
    pub access_server_addr: String,
}

/// A message of the handshake stream.
pub enum TunnelMessage {
    ReqOutLogin(LoginInfo),
    ReqInLogin(LoginInfo),
    RespSuccess,
    RespFailure(String),
}

/// Why a login fails.
#[derive(Clone, Copy, Debug, PartialEq, Eq, Structural)]
pub enum LoginError {
    WrongPassword,
    InvalidAddress,
    DestinationNotAllowed,
    PortInUse,
    BindFailed,
    StartFailed,
    UnexpectedMessage,
}

impl LoginError {
    pub open spec fn reason_spec(self) -> &'static str {
        match self {
            LoginError::WrongPassword => "passwords don't match",
            LoginError::InvalidAddress => "invalid address",
            LoginError::DestinationNotAllowed => "destination is not allowed",
            LoginError::PortInUse => "remote access port is in use",
            LoginError::BindFailed => "access server failed to bind",
            LoginError::StartFailed => "access server failed to start",
            LoginError::UnexpectedMessage => "received unexpected message",
        }
    }

    /// The human-readable reason sent to the client in a failure response.
    pub fn reason(&self) -> (r: &'static str)
        ensures
            r == self.reason_spec(),
    {
        match self {
            LoginError::WrongPassword => "passwords don't match",
            LoginError::InvalidAddress => "invalid address",
            LoginError::DestinationNotAllowed => "destination is not allowed",
            LoginError::PortInUse => "remote access port is in use",
            LoginError::BindFailed => "access server failed to bind",
            LoginError::StartFailed => "access server failed to start",
            LoginError::UnexpectedMessage => "received unexpected message",
        }
    }
}

/// Compares the configured secret with the one a client sent: `Ok` exactly
/// when they are equal.
pub fn check_password(password1: &str, password2: &str) -> (r: Result<(), LoginError>)
    ensures
        r is Ok <==> password1@ == password2@,
        r is Err ==> r == Err::<(), LoginError>(LoginError::WrongPassword),
{
    let a = password1.to_owned();
    let b = password2.to_owned();
    if a == b {
        Ok(())
    } else {
        Err(LoginError::WrongPassword)
    }
}

/// An Out-mode destination is allowed when the allow-list is empty or holds it.
pub open spec fn allowed_spec(downstreams: Seq<SockAddr>, dst: SockAddr) -> bool {
    downstreams.len() == 0 || downstreams.contains(dst)
}

/// Whether an Out-mode client may reach `dst`.
pub fn is_allowed_downstream(downstreams: &Vec<SockAddr>, dst: SockAddr) -> (r: bool)
    ensures
        r == allowed_spec(downstreams@, dst),
{
    if downstreams.len() == 0 {
        return true;
    }
    let mut i: usize = 0;
    while i < downstreams.len()
        invariant
            0 <= i <= downstreams@.len(),
            forall|j: int| 0 <= j < i ==> downstreams@[j] != dst,
        decreases downstreams@.len() - i,
    {
        if downstreams[i] == dst {
            assert(downstreams@[i as int] == dst);
            return true;
        }
        i = i + 1;
    }
    false
}

/// What the server does after reading the first message of a connection.
#[derive(Clone, Copy, Debug, PartialEq, Eq, Structural)]
pub enum LoginStep {
    /// Close the connection without a response.
    Abort(LoginError),
    /// Send a failure response with the error's reason, then close.
    Reject(LoginError),
    /// Send a success response and forward the client's streams to this address.
    AcceptOut(SockAddr),
    /// Bind and start a public listener at this address, then finish the
    /// login with `complete_in_login`.
    BindListener(SockAddr),
}

/// The first step of the handshake, given the configured secret and
/// allow-list, the message, the message's address parsed as a numeric socket
/// address (`None` when it does not parse) and the ports held now.
pub open spec fn login_step_spec(
    password: Seq<char>,
    downstreams: Seq<SockAddr>,
    msg: TunnelMessage,
    requested: Option<SockAddr>,
    ports: Set<u16>,
) -> LoginStep {
    match msg {
        TunnelMessage::ReqOutLogin(info) => {
            if info.password@ != password {
                LoginStep::Reject(LoginError::WrongPassword)
            } else {
                match requested {
                    None => LoginStep::Abort(LoginError::InvalidAddress),
                    Some(dst) => if allowed_spec(downstreams, dst) {
                        LoginStep::AcceptOut(dst)
                    } else {
                        LoginStep::Reject(LoginError::DestinationNotAllowed)
                    },
                }
            }
        },
        TunnelMessage::ReqInLogin(info) => {
            if info.password@ != password {
                LoginStep::Reject(LoginError::WrongPassword)
            } else {
                match requested {
                    None => LoginStep::Abort(LoginError::InvalidAddress),
                    Some(a) => if ports.contains(a.port_spec()) {
                        LoginStep::Reject(LoginError::PortInUse)
                    } else {
                        LoginStep::BindListener(a)
                    },
                }
            }
        },
        _ => LoginStep::Abort(LoginError::UnexpectedMessage),
    }
}

/// Decides the first step of the login handshake for `msg`; `requested` is
/// the message's address parsed as a numeric socket address, `None` when it
/// does not parse. A port that is held already is refused before any bind.
pub fn login_step(
    config: &ServerConfig,
    msg: &TunnelMessage,
    requested: Option<SockAddr>,
    ports: &PortRegistry,
) -> (r: LoginStep)
    ensures
        r == login_step_spec(config.password@, config.downstreams@, *msg, requested, ports@),
        msg is ReqInLogin && requested is Some && ports@.contains(requested->0.port_spec())
            ==> r is Reject,
{
    match msg {
        TunnelMessage::ReqOutLogin(info) => {
            if check_password(config.password.as_str(), info.password.as_str()).is_err() {
                return LoginStep::Reject(LoginError::WrongPassword);
            }
            match requested {
                None => LoginStep::Abort(LoginError::InvalidAddress),
                Some(dst) => if is_allowed_downstream(&config.downstreams, dst) {
                    LoginStep::AcceptOut(dst)
                } else {
                    LoginStep::Reject(LoginError::DestinationNotAllowed)
                },
            }
        },
        TunnelMessage::ReqInLogin(info) => {
            if check_password(config.password.as_str(), info.password.as_str()).is_err() {
                return LoginStep::Reject(LoginError::WrongPassword);
            }
            match requested {
                None => LoginStep::Abort(LoginError::InvalidAddress),
                Some(a) => if ports.contains(a.port()) {
                    LoginStep::Reject(LoginError::PortInUse)
                } else {
                    LoginStep::BindListener(a)
                },
            }
        },
        _ => LoginStep::Abort(LoginError::UnexpectedMessage),
    }
}

/// Once an In-mode login has taken its bound port, a later In-mode login that
/// asks for the same port with the right secret is refused as in use, before
/// any listener is bound.
pub proof fn lemma_taken_port_refused(
    password: Seq<char>,
    downstreams: Seq<SockAddr>,
    ports: Set<u16>,
    bound_port: u16,
    info: LoginInfo,
    requested: SockAddr,
)
    requires
        info.password@ == password,
        requested.port_spec() == bound_port,
    ensures
        login_step_spec(
            password,
            downstreams,
            TunnelMessage::ReqInLogin(info),
            Some(requested),
            ports.insert(bound_port),
        ) == LoginStep::Reject(LoginError::PortInUse),
{
}

/// How binding and starting the public listener of an In-mode login went.
#[derive(Clone, Copy, Debug, PartialEq, Eq, Structural)]
pub enum ListenerSetup {
    /// The listener is bound to `bound_port` and its accept task runs.
    Started { bound_port: u16 },
    BindFailed,
    StartFailed,
}

/// Finishes an In-mode login once the listener was set up: on success the
/// bound port is taken in the registry; otherwise the error whose reason goes
/// back to the client. A port taken meanwhile is refused as in use.
pub fn complete_in_login(ports: &mut PortRegistry, setup: ListenerSetup) -> (r: Result<(), LoginError>)
    ensures
        match setup {
            ListenerSetup::Started { bound_port } => if old(ports)@.contains(bound_port) {
                r == Err::<(), LoginError>(LoginError::PortInUse) && final(ports)@ == old(ports)@
            } else {
                r is Ok && final(ports)@ == old(ports)@.insert(bound_port)
            },
            ListenerSetup::BindFailed => r == Err::<(), LoginError>(LoginError::BindFailed)
                && final(ports)@ == old(ports)@,
            ListenerSetup::StartFailed => r == Err::<(), LoginError>(LoginError::StartFailed)
                && final(ports)@ == old(ports)@,
        },
{
    match setup {
        ListenerSetup::Started { bound_port } => {
            if ports.try_allocate(bound_port) {
                Ok(())
            } else {
                Err(LoginError::PortInUse)
            }
        },
        ListenerSetup::BindFailed => Err(LoginError::BindFailed),
        ListenerSetup::StartFailed => Err(LoginError::StartFailed),
    }
}

} // verus!
