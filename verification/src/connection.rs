//! Where the daemon listens.
//!
//! The endpoint is worked out anew for every connection, so that a change
//! of the environment or of the file system between two queries is
//! honoured. Reading the environment and probing the file system are the
//! caller's part; what was found is handed in, and the choice is made here.

use vstd::prelude::*;
use vstd::string::*;
use crate::error::IpcError;

verus! {

/// Environment variable that overrides the socket's location.
pub const SOCKET_VARIABLE: &'static str = "KODEGEND_STATUS_SOCKET";

/// Environment variable that overrides the pipe's name.
pub const PIPE_VARIABLE: &'static str = "KODEGEND_STATUS_PIPE";

/// Socket of a daemon that serves the whole system.
pub const SYSTEM_SOCKET: &'static str = "/var/run/kodegend/status.sock";

/// Pipe of the daemon where channels are named pipes.
pub const DEFAULT_PIPE: &'static str = "\\\\.\\pipe\\kodegend\\status";

/// Directory of the daemon below a user's directory.
pub const DAEMON_DIRECTORY: &'static str = "kodegend";

/// File name of the daemon's socket.
pub const SOCKET_FILE: &'static str = "status.sock";

/// The user's runtime directory, as `dirs::runtime_dir` reports it, where
/// its path is valid Unicode. What comes back depends on the environment,
/// so nothing is claimed of it.
#[verifier::external_body]
fn runtime_dir() -> (dir: Option<String>) {
    dirs::runtime_dir().and_then(|path| path.into_os_string().into_string().ok())
}

/// The user's local data directory, as `dirs::data_local_dir` reports it,
/// where its path is valid Unicode. What comes back depends on the
/// environment, so nothing is claimed of it.
#[verifier::external_body]
fn data_local_dir() -> (dir: Option<String>) {
    dirs::data_local_dir().and_then(|path| path.into_os_string().into_string().ok())
}

/// The path of the entry `name` in the directory `base`: the two joined by
/// one `/`, which is left out where `base` is empty or already ends in one.
pub open spec fn joined(base: Seq<char>, name: Seq<char>) -> Seq<char> {
    if base.len() == 0 || base.last() == '/' {
        base + name
    } else {
        base + seq!['/'] + name
    }
}

/// The daemon's socket below the user directory `dir`.
pub open spec fn socket_under(dir: Seq<char>) -> Seq<char> {
    joined(joined(dir, DAEMON_DIRECTORY@), SOCKET_FILE@)
}

/// Joins a directory and the name of an entry in it.
pub fn join(base: &str, name: &str) -> (path: String)
    ensures
        path@ == joined(base@, name@),
{
    let len: usize = base.unicode_len();
    let mut path = String::from_str(base);
    if len > 0 && base.get_char(len - 1) != '/' {
        proof {
            reveal_strlit("/");
        }
        path.append("/");
        assert("/"@ =~= seq!['/']);
    }
    path.append(name);
    path
}

/// The user's candidate for the socket: below the runtime directory where
/// there is one, else below the local data directory, else none.
pub fn user_socket_candidate(runtime: Option<String>, data_local: Option<String>) -> (candidate:
    Option<String>)
    ensures
        match (runtime, data_local) {
            (Some(dir), _) => candidate matches Some(path) && path@ == socket_under(dir@),
            (None, Some(dir)) => candidate matches Some(path) && path@ == socket_under(dir@),
            (None, None) => candidate is None,
        },
{
    let dir = match runtime {
        Some(dir) => Some(dir),
        None => data_local,
    };
    match dir {
        Some(dir) => {
            let daemon = join(dir.as_str(), DAEMON_DIRECTORY);
            Some(join(daemon.as_str(), SOCKET_FILE))
        },
        None => None,
    }
}

/// The user's candidate for the socket on this machine. The local data
/// directory is asked for only where there is no runtime directory.
pub fn user_socket_path() -> (candidate: Option<String>)
    ensures
        candidate matches Some(path) ==> exists|dir: Seq<char>| path@ == socket_under(dir),
{
    let runtime = runtime_dir();
    let data_local = if runtime.is_none() {
        data_local_dir()
    } else {
        None
    };
    user_socket_candidate(runtime, data_local)
}

/// The socket that resolution settles on, or `None` where there is nothing
/// to settle on.
///
/// An override wins and is taken as it stands. Then comes the user's
/// candidate if it exists, then the system's socket if that exists. Where
/// neither exists the user's candidate is taken all the same, so that the
/// failure shows when connecting.
pub open spec fn resolved_socket(
    overriding: Option<Seq<char>>,
    user: Option<Seq<char>>,
    user_exists: bool,
    system_exists: bool,
) -> Option<Seq<char>> {
    if overriding is Some {
        overriding
    } else if user is Some && user_exists {
        user
    } else if system_exists {
        Some(SYSTEM_SOCKET@)
    } else {
        user
    }
}

/// The text of a path that may be missing.
pub open spec fn text_of(path: Option<String>) -> Option<Seq<char>> {
    match path {
        Some(path) => Some(path@),
        None => None,
    }
}

/// Picks the socket to connect to.
///
/// `overriding` is the value of [`SOCKET_VARIABLE`] where it is set,
/// `user_socket` the candidate of [`user_socket_path`], `user_exists`
/// whether that candidate is there on disk, and `system_exists` whether
/// [`SYSTEM_SOCKET`] is.
pub fn get_socket_path(
    overriding: Option<String>,
    user_socket: Option<String>,
    user_exists: bool,
    system_exists: bool,
) -> (socket: Result<String, IpcError>)
    ensures
        match resolved_socket(
            text_of(overriding),
            text_of(user_socket),
            user_exists,
            system_exists,
        ) {
            Some(path) => socket matches Ok(found) && found@ == path,
            None => socket == Err::<String, IpcError>(IpcError::SocketPathNotFound),
        },
        overriding matches Some(path) ==> socket matches Ok(found) && found@ == path@,
        overriding is None && !user_exists && !system_exists ==> match user_socket {
            Some(path) => socket matches Ok(found) && found@ == path@,
            None => socket == Err::<String, IpcError>(IpcError::SocketPathNotFound),
        },
{
    if let Some(path) = overriding {
        return Ok(path);
    }
    if user_exists {
        if let Some(path) = user_socket {
            return Ok(path);
        }
    }
    if system_exists {
        return Ok(String::from_str(SYSTEM_SOCKET));
    }
    match user_socket {
        Some(path) => Ok(path),
        None => Err(IpcError::SocketPathNotFound),
    }
}

/// Picks the pipe to connect to: the value of [`PIPE_VARIABLE`] where it
/// is set, else [`DEFAULT_PIPE`]. A pipe is not looked for on disk.
pub fn get_pipe_path(overriding: Option<String>) -> (pipe: String)
    ensures
        match overriding {
            Some(path) => pipe@ == path@,
            None => pipe@ == DEFAULT_PIPE@,
        },
{
    match overriding {
        Some(path) => path,
        None => String::from_str(DEFAULT_PIPE),
    }
}

/// Classifies the outcome of opening the channel: whatever the operating
/// system refused, the connection has failed, and its error is kept.
pub fn connect_to_daemon<T>(opened: Result<T, std::io::Error>) -> (connection: Result<T, IpcError>)
    ensures
        match opened {
            Ok(channel) => connection == Ok::<T, IpcError>(channel),
            Err(cause) => connection == Err::<T, IpcError>(IpcError::ConnectionFailed(cause)),
        },
{
    match opened {
        Ok(channel) => Ok(channel),
        Err(cause) => Err(IpcError::ConnectionFailed(cause)),
    }
}

/// Whether the daemon is there: whether a channel to it could be opened.
/// Why it could not is not told apart.
pub fn is_daemon_running<T>(connection: &Result<T, IpcError>) -> (running: bool)
    ensures
        running == (connection is Ok),
{
    connection.is_ok()
}

} // verus!
