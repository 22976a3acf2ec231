//! Large-file externalization policy: files over the configured byte
//! threshold are not stored inline. Their real bytes go to the external
//! content store keyed by their digest, and a small pointer payload is
//! stored in their place.

use vstd::prelude::*;
use vstd::string::StringExecFns;
use crate::config::WatchConfig;
use crate::text::dec_str;

verus! {

/// Whether a file of `size` bytes is diverted to the external content store.
pub open spec fn externalized(size: u64, cfg: WatchConfig) -> bool {
    size > cfg.large_file_bytes
}

/// Decide whether a file of `size` bytes must be externalized: strictly
/// larger than the threshold diverts, exactly the threshold does not.
pub fn needs_external(size: u64, cfg: &WatchConfig) -> (r: bool)
    ensures
        r == externalized(size, *cfg),
{
    size > cfg.large_file_bytes
}

/// The pointer payload stored in place of an externalized file's content:
/// a fixed spec-version line, the digest line, and the byte count line.
pub open spec fn pointer_text_spec(digest: Seq<char>, size: u64) -> Seq<char> {
    "version https://git-lfs.github.com/spec/v1\n"@ + "oid sha256:"@ + digest + "\n"@
        + "size "@ + dec_str(size) + "\n"@
}

/// Build the pointer payload for an externalized file whose digest renders
/// as `digest` and whose real content is `size` bytes.
pub fn pointer_text(digest: &str, size: u64) -> (s: String)
    ensures
        s@ == pointer_text_spec(digest@, size),
{
    let mut s = String::from_str("version https://git-lfs.github.com/spec/v1\n");
    s.append("oid sha256:");
    s.append(digest);
    s.append("\n");
    s.append("size ");
    let n = crate::text::u64_to_string(size);
    s.append(n.as_str());
    s.append("\n");
    proof {
        assert(s@ =~= pointer_text_spec(digest@, size));
    }
    s
}

/// Where an externalized file's real bytes live, relative to the store's
/// private directory: a flat namespace keyed by the digest.
pub open spec fn lfs_object_rel_path_spec(digest: Seq<char>) -> Seq<char> {
    "lfs/objects/"@ + digest
}

/// Build the external store path (relative to the store's private
/// directory) for the file whose digest renders as `digest`.
pub fn lfs_object_rel_path(digest: &str) -> (s: String)
    ensures
        s@ == lfs_object_rel_path_spec(digest@),
{
    let mut s = String::from_str("lfs/objects/");
    s.append(digest);
    proof {
        assert(s@ =~= lfs_object_rel_path_spec(digest@));
    }
    s
}

} // verus!
