//! Construction of the three provider calls: the precreate payload that
//! opens a session, the chunk-upload URL, and the create/merge payload that
//! commits the session.
//!
//! The digest list travels as a JSON array of quoted digest strings in a
//! form field; the chunk-upload URL carries the remote path percent-encoded
//! and the chunk's sequence index in decimal.

use vstd::prelude::*;
use vstd::string::StringExecFns;
use crate::decimal::{dec_str_of, u64_to_dec};
use crate::digest::is_digest;

verus! {

/// Endpoint of the precreate and create/merge calls.
pub const XPAN_FILE_URL: &'static str = "https://pan.baidu.com/rest/2.0/xpan/file";

/// Method name of the session-opening call, passed as a query parameter.
pub const METHOD_PRECREATE: &'static str = "precreate";

/// Method name of the session-committing call, passed as a query parameter.
pub const METHOD_CREATE: &'static str = "create";

/// The JSON text of a list of strings none of which needs escaping: each
/// item quoted, items joined by commas.
pub open spec fn json_items_of(items: Seq<Seq<char>>) -> Seq<char>
    decreases items.len(),
{
    if items.len() == 0 {
        Seq::empty()
    } else if items.len() == 1 {
        seq!['"'] + items[0] + seq!['"']
    } else {
        json_items_of(items.drop_last()) + seq![','] + seq!['"'] + items.last() + seq!['"']
    }
}

/// The compact JSON array holding a list of strings none of which needs
/// escaping.
pub open spec fn json_string_array_of(items: Seq<Seq<char>>) -> Seq<char> {
    seq!['['] + json_items_of(items) + seq![']']
}

/// The views of a vector of strings.
pub open spec fn string_views(items: Seq<String>) -> Seq<Seq<char>> {
    items.map_values(|s: String| s@)
}

/// Relies on serde_json::to_string: a vector of strings serializes as a
/// compact JSON array of the quoted strings, escaping only control
/// characters, quotes and backslashes — none of which a digest contains —
/// and string serialization cannot fail.
#[verifier::external_body]
fn json_digest_array(items: &Vec<String>) -> (r: String)
    requires
        forall|i: int| 0 <= i < items@.len() ==> is_digest(#[trigger] items@[i]@),
    ensures
        r@ == json_string_array_of(string_views(items@)),
{
    serde_json::to_string(items).unwrap_or_default()
}

/// What percent-encoding makes of a string.  A function of the characters
/// alone: every UTF-8 byte is kept or rewritten as a percent escape by a
/// fixed table.
pub uninterp spec fn url_encoded_of(s: Seq<char>) -> Seq<char>;

/// Relies on urlencoding::encode: percent-encodes every byte of the UTF-8
/// form except ASCII alphanumerics and '-', '_', '.', '~'.
#[verifier::external_body]
fn url_encode(s: &str) -> (r: String)
    ensures
        r@ == url_encoded_of(s@),
{
    urlencoding::encode(s).into_owned()
}

/// The payload of the session-opening precreate call.
#[derive(Debug)]
pub struct PrecreateRequest {
    /// Resolved remote path of the file.
    pub path: String,
    /// Declared total size in bytes.
    pub size: u64,
    /// Always zero: the target is a regular file, not a directory.
    pub isdir: u8,
    /// Always one: the session is initialized by this call itself.
    pub autoinit: u8,
    /// Overwrite semantics flag of the provider, fixed by this client.
    pub rtype: u8,
    /// JSON array of the per-chunk digests, in chunk order.
    pub block_list: String,
}

/// The payload of the session-committing create/merge call.
#[derive(Debug)]
pub struct CreateRequest {
    /// Resolved remote path of the file.
    pub path: String,
    /// Declared total size in bytes.
    pub size: u64,
    /// Always zero: the target is a regular file, not a directory.
    pub isdir: u8,
    /// Overwrite semantics flag of the provider, fixed by this client.
    pub rtype: u8,
    /// The session being committed.
    pub uploadid: String,
    /// The same JSON digest array that opened the session.
    pub block_list: String,
}

/// Build the precreate payload for a file of `size` bytes at `path`, with
/// the digests of its planned chunks.
pub fn precreate_request(path: &str, size: u64, digests: &Vec<String>) -> (r: PrecreateRequest)
    requires
        forall|i: int| 0 <= i < digests@.len() ==> is_digest(#[trigger] digests@[i]@),
    ensures
        r.path@ == path@,
        r.size == size,
        r.isdir == 0,
        r.autoinit == 1,
        r.rtype == 3,
        r.block_list@ == json_string_array_of(string_views(digests@)),
{
    PrecreateRequest {
        path: String::from_str(path),
        size,
        isdir: 0,
        autoinit: 1,
        rtype: 3,
        block_list: json_digest_array(digests),
    }
}

/// Build the create/merge payload that commits session `uploadid`, with the
/// same path, size and digest list that opened it.
pub fn create_request(path: &str, size: u64, uploadid: &str, digests: &Vec<String>) -> (r:
    CreateRequest)
    requires
        forall|i: int| 0 <= i < digests@.len() ==> is_digest(#[trigger] digests@[i]@),
    ensures
        r.path@ == path@,
        r.size == size,
        r.isdir == 0,
        r.rtype == 3,
        r.uploadid@ == uploadid@,
        r.block_list@ == json_string_array_of(string_views(digests@)),
{
    CreateRequest {
        path: String::from_str(path),
        size,
        isdir: 0,
        rtype: 3,
        uploadid: String::from_str(uploadid),
        block_list: json_digest_array(digests),
    }
}

/// The chunk-upload URL: the transfer endpoint with the access token, the
/// percent-encoded remote path, the session identifier and the chunk's
/// sequence index as query parameters.
pub open spec fn chunk_upload_url_of(
    token: Seq<char>,
    path: Seq<char>,
    uploadid: Seq<char>,
    partseq: nat,
) -> Seq<char> {
    "https://d.pcs.baidu.com/rest/2.0/pcs/superfile2?method=upload&access_token="@ + token
        + "&type=tmpfile&path="@ + url_encoded_of(path) + "&uploadid="@ + uploadid + "&partseq="@
        + dec_str_of(partseq)
}

/// Build the URL that transmits chunk `partseq` of the session.
pub fn chunk_upload_url(token: &str, path: &str, uploadid: &str, partseq: u64) -> (r: String)
    ensures
        r@ == chunk_upload_url_of(token@, path@, uploadid@, partseq as nat),
{
    let mut r = String::from_str(
        "https://d.pcs.baidu.com/rest/2.0/pcs/superfile2?method=upload&access_token=",
    );
    r.append(token);
    r.append("&type=tmpfile&path=");
    let encoded = url_encode(path);
    r.append(encoded.as_str());
    r.append("&uploadid=");
    r.append(uploadid);
    r.append("&partseq=");
    let index = u64_to_dec(partseq);
    r.append(index.as_str());
    assert(r@ =~= chunk_upload_url_of(token@, path@, uploadid@, partseq as nat));
    r
}

} // verus!
