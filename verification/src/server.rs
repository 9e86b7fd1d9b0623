use vstd::prelude::*;

verus! {

/// Torrent categories known to the server (the API answer carries no fields that are read).
#[derive(Debug)]
pub struct Categories {}

/// State of the server (the API answer carries no fields that are read).
#[derive(Debug)]
pub struct ServerState {}

/// A peer of a torrent (the API answer carries no fields that are read).
#[derive(Debug)]
pub struct Peer {}

/// Application preferences (the API answer carries no fields that are read).
#[derive(Debug)]
pub struct Preferences {}

/// Versions of the libraries the server was built with.
#[derive(Debug)]
pub struct BuildInfo {
    qt: String,
    libtorrent: String,
    boost: String,
    openssl: String,
    bitness: String,
}

/// The abstract contents of a [`BuildInfo`].
pub ghost struct BuildInfoView {
    pub qt: Seq<char>,
    pub libtorrent: Seq<char>,
    pub boost: Seq<char>,
    pub openssl: Seq<char>,
    pub bitness: Seq<char>,
}

impl View for BuildInfo {
    type V = BuildInfoView;

    closed spec fn view(&self) -> BuildInfoView {
        BuildInfoView {
            qt: self.qt@,
            libtorrent: self.libtorrent@,
            boost: self.boost@,
            openssl: self.openssl@,
            bitness: self.bitness@,
        }
    }
}

impl BuildInfo {
    /// Build information with the given versions.
    pub fn new(qt: String, libtorrent: String, boost: String, openssl: String, bitness: String) -> (r:
        BuildInfo)
        ensures
            r@ == (BuildInfoView {
                qt: qt@,
                libtorrent: libtorrent@,
                boost: boost@,
                openssl: openssl@,
                bitness: bitness@,
            }),
    {
        BuildInfo { qt, libtorrent, boost, openssl, bitness }
    }
}

/// An entry of the server's log.
#[derive(Debug)]
pub struct Log {
    id: u64,
    message: String,
    timestamp: u64,
    kind: u64,
}

/// The abstract contents of a [`Log`] entry.
pub ghost struct LogView {
    pub id: u64,
    pub message: Seq<char>,
    pub timestamp: u64,
    pub kind: u64,
}

impl View for Log {
    type V = LogView;

    closed spec fn view(&self) -> LogView {
        LogView { id: self.id, message: self.message@, timestamp: self.timestamp, kind: self.kind }
    }
}

impl Log {
    /// A log entry with the given fields; `kind` is the entry's `type` code.
    pub fn new(id: u64, message: String, timestamp: u64, kind: u64) -> (r: Log)
        ensures
            r@ == (LogView { id, message: message@, timestamp, kind }),
    {
        Log { id, message, timestamp, kind }
    }
}

} // verus!
