//! The cache manager and the per-resource read-through request.
//!
//! A [`CacheManager`] owns a namespace of entries rooted at a directory path.
//! Each resource key maps to a content path (`<root>/<key>`) and a sibling
//! metadata path (`<root>/<key>.expiry`) holding the serialized expiry
//! timestamp. Reads under [`CachePolicy::Default`] honour that record;
//! [`CachePolicy::IgnoreExpiry`] only asks whether content exists.
//!
//! A [`CacheRequest`] binds one key and one policy and offers the
//! read-through protocol: serve the cached text, or run a producer once and
//! persist its result.

use vstd::prelude::*;
use vstd::string::StrSliceExecFns;
use vstd::string::StringExecFns;
use vstd::utf8::{decode_utf8, valid_utf8};

use crate::codec::{be_bytes_of, decode_expiry, encode_expiry, spec_decode_expiry};
use crate::store::EntryStore;
use crate::text::bytes_to_text;

verus! {

/// What a policy-aware read yields: the stored bytes, a stale entry, or no
/// entry at all.
pub enum CacheFile {
    Content(Vec<u8>),
    Expired,
    Missing,
}

/// The mathematical value of a read result.
pub enum FileModel {
    Content(Seq<u8>),
    Expired,
    Missing,
}

impl View for CacheFile {
    type V = FileModel;

    open spec fn view(&self) -> FileModel {
        match self {
            CacheFile::Content(b) => FileModel::Content(b@),
            CacheFile::Expired => FileModel::Expired,
            CacheFile::Missing => FileModel::Missing,
        }
    }
}

impl From<Option<Vec<u8>>> for CacheFile {
    /// Bytes become `Content`; absence becomes `Missing`.
    fn from(opt: Option<Vec<u8>>) -> (r: CacheFile) {
        match opt {
            Some(buffer) => CacheFile::Content(buffer),
            None => CacheFile::Missing,
        }
    }
}

impl vstd::std_specs::convert::FromSpecImpl<Option<Vec<u8>>> for CacheFile {
    open spec fn obeys_from_spec() -> bool {
        true
    }

    open spec fn from_spec(opt: Option<Vec<u8>>) -> CacheFile {
        match opt {
            Some(buffer) => CacheFile::Content(buffer),
            None => CacheFile::Missing,
        }
    }
}

/// Whether a read honours the expiry record or skips the check entirely.
#[derive(PartialEq, Eq, Structural, Clone, Copy)]
pub enum CachePolicy {
    Default,
    IgnoreExpiry,
}

/// When a written entry stops being served: never, or at an absolute Unix
/// timestamp in seconds.
#[derive(PartialEq, Eq, Structural, Clone, Copy)]
pub enum CacheExpiry {
    Never,
    AtUnixTimestamp(u64),
}

impl CacheExpiry {
    /// An expiry the given number of seconds after the given current time.
    pub fn expire_in_seconds(now_secs: u64, seconds: u64) -> (r: Self)
        requires
            now_secs + seconds <= u64::MAX,
        ensures
            r == CacheExpiry::AtUnixTimestamp((now_secs + seconds) as u64),
    {
        CacheExpiry::AtUnixTimestamp(now_secs + seconds)
    }

    /// An expiry the given number of hours after the given current time.
    pub fn expire_in_hours(now_secs: u64, hours: u32) -> (r: Self)
        requires
            now_secs + hours * 3600 <= u64::MAX,
        ensures
            r == CacheExpiry::AtUnixTimestamp((now_secs + hours * 3600) as u64),
    {
        CacheExpiry::expire_in_seconds(now_secs, (hours as u64) * 3600)
    }
}

/// The outcome of reading a resource's expiry record.
pub enum ExpiryRead {
    /// No record exists; the entry never expires.
    Absent,
    /// A record exists but could not be read; fail safe, treat as expired.
    Unreadable,
    /// The record was read and holds these raw bytes.
    Found(Vec<u8>),
}

/// Whether an expiry outcome marks the entry stale at the given time.
/// A missing record never expires; an unreadable or malformed one is always
/// stale; a well-formed one is stale once the current time passes it.
pub open spec fn spec_is_stale(read: ExpiryRead, now_secs: u64) -> bool {
    match read {
        ExpiryRead::Absent => false,
        ExpiryRead::Unreadable => true,
        ExpiryRead::Found(raw) => match spec_decode_expiry(raw@) {
            Some(t) => now_secs > t,
            None => true,
        },
    }
}

/// Decides staleness from an expiry-read outcome and the current time.
pub fn evaluate_expiry(read: &ExpiryRead, now_secs: u64) -> (r: bool)
    ensures
        r == spec_is_stale(*read, now_secs),
{
    match read {
        ExpiryRead::Absent => false,
        ExpiryRead::Unreadable => true,
        ExpiryRead::Found(raw) => match decode_expiry(raw) {
            Some(t) => now_secs > t,
            None => true,
        },
    }
}

/// The content path of a resource key: `<root>/<key>`.
pub open spec fn content_path(root: Seq<char>, resource: Seq<char>) -> Seq<char> {
    root + "/"@ + resource
}

/// The metadata path of a resource key: `<root>/<key>.expiry`.
pub open spec fn meta_path(root: Seq<char>, resource: Seq<char>) -> Seq<char> {
    content_path(root, resource) + ".expiry"@
}

/// Whether a resource is expired in a namespace at the given time: no expiry
/// record means never expired, a malformed record means expired, and a
/// well-formed record expires once the current time passes it.
pub open spec fn spec_expired_in(
    entries: Map<Seq<char>, Seq<u8>>,
    root: Seq<char>,
    resource: Seq<char>,
    now_secs: u64,
) -> bool {
    let mp = meta_path(root, resource);
    if !entries.contains_key(mp) {
        false
    } else {
        match spec_decode_expiry(entries[mp]) {
            Some(t) => now_secs > t,
            None => true,
        }
    }
}

/// What a policy-aware read of a resource yields in a namespace at the given
/// time.
pub open spec fn read_model(
    entries: Map<Seq<char>, Seq<u8>>,
    root: Seq<char>,
    resource: Seq<char>,
    policy: CachePolicy,
    now_secs: u64,
) -> FileModel {
    if policy is Default && spec_expired_in(entries, root, resource, now_secs) {
        FileModel::Expired
    } else {
        let cp = content_path(root, resource);
        if entries.contains_key(cp) {
            FileModel::Content(entries[cp])
        } else {
            FileModel::Missing
        }
    }
}

/// The namespace after writing content for a resource: the content entry is
/// replaced, and the expiry record is replaced only for a timestamped write.
/// A `Never` write leaves any prior expiry record untouched.
pub open spec fn write_model(
    entries: Map<Seq<char>, Seq<u8>>,
    root: Seq<char>,
    resource: Seq<char>,
    content: Seq<u8>,
    expiry: CacheExpiry,
) -> Map<Seq<char>, Seq<u8>> {
    let base = entries.insert(content_path(root, resource), content);
    match expiry {
        CacheExpiry::Never => base,
        CacheExpiry::AtUnixTimestamp(t) => base.insert(meta_path(root, resource), be_bytes_of(t)),
    }
}

/// The text a read result carries: the decoded content when it is valid
/// UTF-8, nothing for invalid bytes, stale entries, and misses alike.
pub open spec fn text_of(m: FileModel) -> Option<Seq<char>> {
    match m {
        FileModel::Content(b) => if valid_utf8(b) {
            Some(decode_utf8(b))
        } else {
            None
        },
        FileModel::Expired => None,
        FileModel::Missing => None,
    }
}

/// Sole mediator between resource keys and stored entries; owns the root
/// path and the entry namespace, and enforces the expiry policy on reads.
pub struct CacheManager {
    root: String,
    store: EntryStore,
}

impl CacheManager {
    /// The namespace holds at most one entry per path.
    pub closed spec fn wf(&self) -> bool {
        self.store.wf()
    }

    /// The root directory path.
    pub closed spec fn spec_root(&self) -> Seq<char> {
        self.root@
    }

    /// The stored entries, as a map from full paths to payloads.
    pub closed spec fn entries(&self) -> Map<Seq<char>, Seq<u8>> {
        self.store@
    }

    /// A manager over an empty namespace rooted at the given directory.
    pub fn new(root: String) -> (r: Self)
        ensures
            r.wf(),
            r.spec_root() == root@,
            r.entries() == Map::<Seq<char>, Seq<u8>>::empty(),
    {
        CacheManager { root, store: EntryStore::new() }
    }

    /// The full path of the content entry for a resource key.
    fn cache_path(&self, resource: &str) -> (r: String)
        ensures
            r@ == content_path(self.spec_root(), resource@),
    {
        let mut p = self.root.clone();
        p.append("/");
        p.append(resource);
        p
    }

    /// The full path of the expiry record for a resource key.
    fn cache_meta_path(&self, resource: &str) -> (r: String)
        ensures
            r@ == meta_path(self.spec_root(), resource@),
    {
        let mut p = self.cache_path(resource);
        p.append(".expiry");
        p
    }

    /// Reads the raw expiry record for a resource key.
    fn read_expiry_file(&self, resource: &str) -> (r: ExpiryRead)
        requires
            self.wf(),
        ensures
            ({
                let mp = meta_path(self.spec_root(), resource@);
                match r {
                    ExpiryRead::Absent => !self.entries().contains_key(mp),
                    ExpiryRead::Unreadable => false,
                    ExpiryRead::Found(raw) => self.entries().contains_key(mp) && raw@
                        == self.entries()[mp],
                }
            }),
    {
        let mp = self.cache_meta_path(resource);
        match self.store.read(&mp) {
            Some(raw) => ExpiryRead::Found(raw),
            None => ExpiryRead::Absent,
        }
    }

    /// Whether the entry for a resource key is stale at the given time.
    fn is_file_expired(&self, resource: &str, now_secs: u64) -> (r: bool)
        requires
            self.wf(),
        ensures
            r == spec_expired_in(self.entries(), self.spec_root(), resource@, now_secs),
    {
        let read = self.read_expiry_file(resource);
        evaluate_expiry(&read, now_secs)
    }

    /// Reads the content entry for a resource key under a policy. Under
    /// `Default`, a stale entry yields `Expired` without touching the
    /// content; otherwise the stored bytes are returned, or `Missing` when
    /// no content entry exists.
    pub fn read_cache_file(&self, resource: &str, policy: CachePolicy, now_secs: u64) -> (r:
        CacheFile)
        requires
            self.wf(),
        ensures
            r@ == read_model(self.entries(), self.spec_root(), resource@, policy, now_secs),
    {
        let path = self.cache_path(resource);
        match policy {
            CachePolicy::IgnoreExpiry => CacheFile::from(self.store.read(&path)),
            CachePolicy::Default => {
                let expired = self.is_file_expired(resource, now_secs);
                if expired {
                    CacheFile::Expired
                } else {
                    CacheFile::from(self.store.read(&path))
                }
            },
        }
    }

    /// Replaces the expiry record for a resource key with the given absolute
    /// timestamp.
    pub fn set_expiry_for(&mut self, resource: &str, expiry_secs: u64)
        requires
            old(self).wf(),
        ensures
            final(self).wf(),
            final(self).spec_root() == old(self).spec_root(),
            final(self).entries() == old(self).entries().insert(
                meta_path(old(self).spec_root(), resource@),
                be_bytes_of(expiry_secs),
            ),
    {
        let mp = self.cache_meta_path(resource);
        let payload = encode_expiry(expiry_secs);
        self.store.write(mp, payload);
    }

    /// Replaces the content entry for a resource key, and, for a timestamped
    /// expiry, its expiry record as well; a `Never` write leaves any prior
    /// expiry record in place.
    pub fn write_cache_file(&mut self, resource: &str, content: Vec<u8>, expiry: CacheExpiry)
        requires
            old(self).wf(),
        ensures
            final(self).wf(),
            final(self).spec_root() == old(self).spec_root(),
            final(self).entries() == write_model(
                old(self).entries(),
                old(self).spec_root(),
                resource@,
                content@,
                expiry,
            ),
    {
        let path = self.cache_path(resource);
        self.store.write(path, content);
        if let CacheExpiry::AtUnixTimestamp(ts) = expiry {
            self.set_expiry_for(resource, ts);
        }
    }
}

/// A per-resource facade: one resource key bound to one read policy. It
/// holds no cache state; the manager is passed to each call.
pub struct CacheRequest {
    resource: String,
    policy: CachePolicy,
}

impl CacheRequest {
    /// The bound resource key.
    pub closed spec fn spec_resource(&self) -> Seq<char> {
        self.resource@
    }

    /// The bound read policy.
    pub closed spec fn spec_policy(&self) -> CachePolicy {
        self.policy
    }

    /// Binds a resource key and a read policy.
    pub fn for_resource(resource: String, policy: CachePolicy) -> (r: Self)
        ensures
            r.spec_resource() == resource@,
            r.spec_policy() == policy,
    {
        CacheRequest { resource, policy }
    }

    /// The cached text for the bound key under the bound policy. Stale
    /// entries, misses, and content that is not valid UTF-8 all yield
    /// `None`.
    pub fn get(&self, cache: &CacheManager, now_secs: u64) -> (r: Option<String>)
        requires
            cache.wf(),
        ensures
            ({
                let m = read_model(
                    cache.entries(),
                    cache.spec_root(),
                    self.spec_resource(),
                    self.spec_policy(),
                    now_secs,
                );
                match r {
                    Some(s) => text_of(m) == Some(s@),
                    None => text_of(m) is None,
                }
            }),
    {
        match cache.read_cache_file(self.resource.as_str(), self.policy, now_secs) {
            CacheFile::Content(buffer) => bytes_to_text(buffer),
            CacheFile::Expired => None,
            CacheFile::Missing => None,
        }
    }

    /// The read-through protocol. A hit returns the cached text and performs
    /// no write. On a miss the producer runs once: its failure is returned
    /// with the namespace untouched, and its fresh text is persisted under
    /// the bound key with the given expiry and returned.
    pub fn or_else_try_write<F, E>(
        &self,
        cache: &mut CacheManager,
        fresh: F,
        expiry: CacheExpiry,
        now_secs: u64,
    ) -> (r: Result<String, E>) where F: FnOnce() -> Result<String, E>
        requires
            old(cache).wf(),
            call_requires(fresh, ()),
        ensures
            final(cache).wf(),
            final(cache).spec_root() == old(cache).spec_root(),
            ({
                let m = read_model(
                    old(cache).entries(),
                    old(cache).spec_root(),
                    self.spec_resource(),
                    self.spec_policy(),
                    now_secs,
                );
                match text_of(m) {
                    Some(t) => r matches Ok(s) && s@ == t && *final(cache) == *old(cache),
                    None => match r {
                        Ok(s) => call_ensures(fresh, (), Ok(s)) && final(cache).entries()
                            == write_model(
                            old(cache).entries(),
                            old(cache).spec_root(),
                            self.spec_resource(),
                            vstd::utf8::encode_utf8(s@),
                            expiry,
                        ),
                        Err(e) => call_ensures(fresh, (), Err(e)) && *final(cache) == *old(cache),
                    },
                }
            }),
    {
        match self.get(cache, now_secs) {
            Some(text) => Ok(text),
            None => match fresh() {
                Ok(text) => {
                    let bytes = text.as_str().as_bytes_vec();
                    cache.write_cache_file(self.resource.as_str(), bytes, expiry);
                    Ok(text)
                },
                Err(e) => Err(e),
            },
        }
    }
}

} // verus!
