//! Unix domain socket adapter (stream and datagram).
use vstd::prelude::*;
use std::path::PathBuf;
use crate::network::adapter::PendingStatus;

verus! {

/// Maximum payload of a datagram (`net.core.rmem_max` is 212992 by default on linux).
pub const MAX_PAYLOAD_LEN: usize = 212992;

/// Size of the internal reading buffer.
/// It implies that at most the generated message event
/// will contains a chunk of data of this value.
pub const INPUT_BUFFER_SIZE: usize = 65535;

#[verifier::external_type_specification]
#[verifier::external_body]
pub struct ExPathBuf(PathBuf);

/// `PathBuf::clone`, which derived `Clone` impls call; nothing is claimed of
/// the copy.
pub assume_specification[ <PathBuf as Clone>::clone ](path: &PathBuf) -> PathBuf;

/// The path that `PathBuf::from` makes of the text with these characters.
pub uninterp spec fn path_buf_of(text: Seq<char>) -> PathBuf;

/// Calls `PathBuf::from` on `text`: the path it makes is a function of the
/// text alone (it copies the text's bytes).
#[verifier::external_body]
fn path_from(text: &str) -> (path: PathBuf)
    ensures
        path == path_buf_of(text@),
{
    PathBuf::from(text)
}

#[derive(Clone, PartialEq, Eq, Hash, Debug)]
pub struct UnixSocketListenConfig {
    path: PathBuf,
}

impl UnixSocketListenConfig {
    /// The path the socket is bound to.
    pub closed spec fn spec_path(self) -> PathBuf {
        self.path
    }

    pub fn new(path: PathBuf) -> (config: Self)
        ensures
            config.spec_path() == path,
    {
        Self { path }
    }

    /// The path of the socket file.
    pub fn path(&self) -> (path: &PathBuf)
        ensures
            *path == self.spec_path(),
    {
        &self.path
    }
}

impl Default for UnixSocketListenConfig {
    /// Listens at `/tmp/mio.sock`.
    fn default() -> (config: Self)
        ensures
            config.spec_path() == path_buf_of("/tmp/mio.sock"@),
    {
        Self { path: path_from("/tmp/mio.sock") }
    }
}

#[derive(Clone, PartialEq, Eq, Hash, Debug)]
pub struct UnixSocketConnectConfig {
    path: PathBuf,
}

impl UnixSocketConnectConfig {
    /// The path the socket connects to.
    pub closed spec fn spec_path(self) -> PathBuf {
        self.path
    }

    pub fn new(path: PathBuf) -> (config: Self)
        ensures
            config.spec_path() == path,
    {
        Self { path }
    }

    /// The path of the socket file.
    pub fn path(&self) -> (path: &PathBuf)
        ensures
            *path == self.spec_path(),
    {
        &self.path
    }
}

impl Default for UnixSocketConnectConfig {
    /// Connects to `/tmp/mio.sock`.
    fn default() -> (config: Self)
        ensures
            config.spec_path() == path_buf_of("/tmp/mio.sock"@),
    {
        Self { path: path_from("/tmp/mio.sock") }
    }
}

/// Whether a unix stream can be considered connected, from whether
/// `take_error` returned a pending error.
pub fn check_stream_ready(error_reported: bool) -> (status: PendingStatus)
    ensures
        status == (if error_reported {
            PendingStatus::Disconnected
        } else {
            PendingStatus::Ready
        }),
{
    if error_reported {
        PendingStatus::Disconnected
    } else {
        PendingStatus::Ready
    }
}

} // verus!
