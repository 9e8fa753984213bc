//! Laws of the cache, stated over the namespace model and proved once and
//! for all.
//!
//! Each law is phrased over [`read_model`](crate::cache::read_model) and
//! [`write_model`](crate::cache::write_model), the same spec functions the
//! executable methods are specified against, so it applies to any sequence of
//! manager calls. The read-through laws that speak of a single call — a hit
//! writes nothing and never runs the producer, a failed producer leaves the
//! namespace untouched — are the `ensures` of
//! [`CacheRequest::or_else_try_write`](crate::cache::CacheRequest::or_else_try_write)
//! itself.

use vstd::prelude::*;
use vstd::utf8::encode_utf8;

use crate::cache::{
    content_path, meta_path, read_model, text_of, write_model, CacheExpiry, CachePolicy, FileModel,
};
use crate::codec::lemma_expiry_codec_round_trip;

verus! {

/// A resource's content path and metadata path never collide: the metadata
/// path is strictly longer.
pub proof fn lemma_paths_distinct(root: Seq<char>, resource: Seq<char>)
    ensures
        content_path(root, resource) != meta_path(root, resource),
{
    reveal_strlit(".expiry");
    assert(meta_path(root, resource).len() == content_path(root, resource).len() + 7);
}

/// Round-trip: content written with `Never` expiry, for a key with no expiry
/// record, reads back unchanged under the default policy at any later time.
pub proof fn lemma_never_write_round_trip(
    entries: Map<Seq<char>, Seq<u8>>,
    root: Seq<char>,
    resource: Seq<char>,
    content: Seq<u8>,
    now_secs: u64,
)
    requires
        !entries.contains_key(meta_path(root, resource)),
    ensures
        read_model(
            write_model(entries, root, resource, content, CacheExpiry::Never),
            root,
            resource,
            CachePolicy::Default,
            now_secs,
        ) == FileModel::Content(content),
{
    lemma_paths_distinct(root, resource);
}

/// Expiry boundary: content written with a timestamped expiry reads back as
/// its content while the current time has not passed the timestamp, and as
/// `Expired` as soon as it has.
pub proof fn lemma_expiry_boundary(
    entries: Map<Seq<char>, Seq<u8>>,
    root: Seq<char>,
    resource: Seq<char>,
    content: Seq<u8>,
    expires_at: u64,
    now_secs: u64,
)
    ensures
        read_model(
            write_model(entries, root, resource, content, CacheExpiry::AtUnixTimestamp(expires_at)),
            root,
            resource,
            CachePolicy::Default,
            now_secs,
        ) == if now_secs > expires_at {
            FileModel::Expired
        } else {
            FileModel::Content(content)
        },
{
    lemma_paths_distinct(root, resource);
    lemma_expiry_codec_round_trip(expires_at);
}

/// Policy bypass: a key whose default-policy read is `Expired` still serves
/// its stored content under `IgnoreExpiry`; expiry never deletes content.
pub proof fn lemma_policy_bypass(
    entries: Map<Seq<char>, Seq<u8>>,
    root: Seq<char>,
    resource: Seq<char>,
    now_secs: u64,
)
    requires
        read_model(entries, root, resource, CachePolicy::Default, now_secs) is Expired,
        entries.contains_key(content_path(root, resource)),
    ensures
        read_model(entries, root, resource, CachePolicy::IgnoreExpiry, now_secs)
            == FileModel::Content(entries[content_path(root, resource)]),
{
}

/// Missing expiry record defaults to fresh: a key without one is never
/// reported `Expired`, and reads as its content whenever content exists.
pub proof fn lemma_missing_expiry_reads_fresh(
    entries: Map<Seq<char>, Seq<u8>>,
    root: Seq<char>,
    resource: Seq<char>,
    now_secs: u64,
)
    requires
        !entries.contains_key(meta_path(root, resource)),
    ensures
        !(read_model(entries, root, resource, CachePolicy::Default, now_secs) is Expired),
        entries.contains_key(content_path(root, resource)) ==> read_model(
            entries,
            root,
            resource,
            CachePolicy::Default,
            now_secs,
        ) == FileModel::Content(entries[content_path(root, resource)]),
{
}

/// Corrupt expiry fail-safe: a malformed expiry payload (any length other
/// than 8 bytes) makes every default-policy read `Expired`, at any time, even
/// though `IgnoreExpiry` still serves the stored content.
pub proof fn lemma_corrupt_expiry_fail_safe(
    entries: Map<Seq<char>, Seq<u8>>,
    root: Seq<char>,
    resource: Seq<char>,
    now_secs: u64,
)
    requires
        entries.contains_key(meta_path(root, resource)),
        entries[meta_path(root, resource)].len() != 8,
    ensures
        read_model(entries, root, resource, CachePolicy::Default, now_secs) == FileModel::Expired,
        entries.contains_key(content_path(root, resource)) ==> read_model(
            entries,
            root,
            resource,
            CachePolicy::IgnoreExpiry,
            now_secs,
        ) == FileModel::Content(entries[content_path(root, resource)]),
{
}

/// A populated miss becomes a hit: after text is persisted under a key, a
/// read under either policy yields that very text, as long as the entry has
/// not yet expired — always for a `Never` write to a key with no expiry
/// record, and until the written timestamp passes for a timestamped write.
pub proof fn lemma_populate_then_hit(
    entries: Map<Seq<char>, Seq<u8>>,
    root: Seq<char>,
    resource: Seq<char>,
    text: Seq<char>,
    expiry: CacheExpiry,
    later_secs: u64,
)
    requires
        match expiry {
            CacheExpiry::Never => !entries.contains_key(meta_path(root, resource)),
            CacheExpiry::AtUnixTimestamp(t) => later_secs <= t,
        },
    ensures
        ({
            let post = write_model(entries, root, resource, encode_utf8(text), expiry);
            &&& text_of(read_model(post, root, resource, CachePolicy::Default, later_secs))
                == Some(text)
            &&& text_of(read_model(post, root, resource, CachePolicy::IgnoreExpiry, later_secs))
                == Some(text)
        }),
{
    broadcast use vstd::utf8::encode_utf8_valid_utf8, vstd::utf8::encode_utf8_decode_utf8;

    lemma_paths_distinct(root, resource);
    match expiry {
        CacheExpiry::Never => {
        },
        CacheExpiry::AtUnixTimestamp(t) => {
            lemma_expiry_codec_round_trip(t);
        },
    }
}

} // verus!
