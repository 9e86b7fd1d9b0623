use vstd::prelude::*;

verus! {

/// Working status of a tracker for a particular torrent, as reported by the server.
#[derive(Debug, Clone, Copy, PartialEq, Eq, Structural)]
pub enum TrackerStatus {
    TrackerDisabled,
    NotContacted,
    Working,
    Updating,
    NotWorking,
    UnknownResponse,
}

/// The status the server means by the raw status code `code`.
pub open spec fn status_of_code(code: u8) -> TrackerStatus {
    if code == 0 {
        TrackerStatus::TrackerDisabled
    } else if code == 1 {
        TrackerStatus::NotContacted
    } else if code == 2 {
        TrackerStatus::Working
    } else if code == 3 {
        TrackerStatus::Updating
    } else if code == 4 {
        TrackerStatus::NotWorking
    } else {
        TrackerStatus::UnknownResponse
    }
}

/// A tracker associated with a torrent.
#[derive(Debug, Clone)]
pub struct Tracker {
    url: String,
    status: u8,
    num_peers: i32,
    num_seeds: i32,
    num_leeches: i32,
    num_downloaded: i64,
    msg: String,
}

/// The abstract contents of a [`Tracker`].
pub ghost struct TrackerView {
    pub url: Seq<char>,
    pub status: u8,
    pub num_peers: i32,
    pub num_seeds: i32,
    pub num_leeches: i32,
    pub num_downloaded: i64,
    pub msg: Seq<char>,
}

impl View for Tracker {
    type V = TrackerView;

    closed spec fn view(&self) -> TrackerView {
        TrackerView {
            url: self.url@,
            status: self.status,
            num_peers: self.num_peers,
            num_seeds: self.num_seeds,
            num_leeches: self.num_leeches,
            num_downloaded: self.num_downloaded,
            msg: self.msg@,
        }
    }
}

impl Tracker {
    /// Decodes the raw status code reported by the server.
    pub fn status(&self) -> (r: TrackerStatus)
        ensures
            r == status_of_code(self@.status),
    {
        match self.status {
            0 => TrackerStatus::TrackerDisabled,
            1 => TrackerStatus::NotContacted,
            2 => TrackerStatus::Working,
            3 => TrackerStatus::Updating,
            4 => TrackerStatus::NotWorking,
            _ => TrackerStatus::UnknownResponse,
        }
    }
}

impl Tracker {
    /// A tracker record with the given fields; `status` is the raw code that the server sends.
    pub fn new(
        url: String,
        status: u8,
        num_peers: i32,
        num_seeds: i32,
        num_leeches: i32,
        num_downloaded: i64,
        msg: String,
    ) -> (r: Tracker)
        ensures
            r@ == (TrackerView {
                url: url@,
                status,
                num_peers,
                num_seeds,
                num_leeches,
                num_downloaded,
                msg: msg@,
            }),
    {
        Tracker { url, status, num_peers, num_seeds, num_leeches, num_downloaded, msg }
    }

    /// Tracker url.
    pub fn url(&self) -> (r: &String)
        ensures
            r@ == self@.url,
    {
        &self.url
    }

    /// Number of peers for the torrent, as reported by the tracker.
    pub fn num_peers(&self) -> (r: &i32)
        ensures
            *r == self@.num_peers,
    {
        &self.num_peers
    }

    /// Number of seeds for the torrent, as reported by the tracker.
    pub fn num_seeds(&self) -> (r: &i32)
        ensures
            *r == self@.num_seeds,
    {
        &self.num_seeds
    }

    /// Number of leeches for the torrent, as reported by the tracker.
    pub fn num_leeches(&self) -> (r: &i32)
        ensures
            *r == self@.num_leeches,
    {
        &self.num_leeches
    }

    /// Number of completed downloads for the torrent, as reported by the tracker.
    pub fn num_downloaded(&self) -> (r: &i64)
        ensures
            *r == self@.num_downloaded,
    {
        &self.num_downloaded
    }

    /// The raw status code, as the server sent it (decoded by [`Tracker::status`]).
    pub fn status_code(&self) -> (r: u8)
        ensures
            r == self@.status,
    {
        self.status
    }

    /// Tracker message.
    pub fn msg(&self) -> (r: &String)
        ensures
            r@ == self@.msg,
    {
        &self.msg
    }
}

/// The five known codes decode to five different statuses, none of them `UnknownResponse`;
/// every other code decodes to `UnknownResponse`.
pub proof fn lemma_status_codes(a: u8, b: u8)
    ensures
        a <= 4 && b <= 4 && a != b ==> status_of_code(a) != status_of_code(b),
        a <= 4 ==> status_of_code(a) != TrackerStatus::UnknownResponse,
        a > 4 ==> status_of_code(a) == TrackerStatus::UnknownResponse,
{
}

} // verus!
