use vstd::prelude::*;
use vstd::string::*;

use crate::hash::hashes_query;

verus! {

/// `base`, then `path`, then `tail`, in one new string.
fn joined(base: &str, path: &str, tail: &str) -> (r: String)
    ensures
        r@ == base@ + path@ + tail@,
{
    let mut r = String::from_str(base);
    r.append(path);
    r.append(tail);
    r
}

/// The address that answers with the generic properties of the torrent `hash`.
pub fn properties_address(address: &str, hash: &str) -> (r: String)
    ensures
        r@ == address@ + "/api/v2/torrents/properties?hash="@ + hash@,
{
    joined(address, "/api/v2/torrents/properties?hash=", hash)
}

/// The address that answers with the trackers of the torrent `hash`.
pub fn trackers_address(address: &str, hash: &str) -> (r: String)
    ensures
        r@ == address@ + "/api/v2/torrents/trackers?hash="@ + hash@,
{
    joined(address, "/api/v2/torrents/trackers?hash=", hash)
}

/// The address that answers with the files of the torrent `hash`.
pub fn contents_address(address: &str, hash: &str) -> (r: String)
    ensures
        r@ == address@ + "/api/v2/torrents/files?hash="@ + hash@,
{
    joined(address, "/api/v2/torrents/files?hash=", hash)
}

/// The address that resumes every torrent of `hashes`.
pub fn resume_address(address: &str, hashes: &crate::hash::Hash) -> (r: String)
    ensures
        r@ == address@ + "/api/v2/torrents/resume"@ + hashes_query(hashes@),
{
    let query = hashes.url();
    joined(address, "/api/v2/torrents/resume", query.as_str())
}

/// Resuming a single torrent `h` goes to `<address>/api/v2/torrents/resume?hashes=<h>`.
pub proof fn lemma_resume_single_address(address: Seq<char>, h: Seq<char>)
    ensures
        address + "/api/v2/torrents/resume"@ + hashes_query(seq![h])
            == address + "/api/v2/torrents/resume?hashes="@ + h,
{
    reveal_strlit("/api/v2/torrents/resume");
    reveal_strlit("/api/v2/torrents/resume?hashes=");
    reveal_strlit("?hashes=");
    assert(address + "/api/v2/torrents/resume"@ + hashes_query(seq![h])
        =~= address + "/api/v2/torrents/resume?hashes="@ + h);
}

} // verus!
