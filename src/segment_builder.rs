use vstd::prelude::*;
use vstd::string::StringExecFns;

verus! {

/// Chooses where the backing file of each new segment goes.
///
/// Every call must name a file that no other live segment uses, also when
/// several threads ask at once.
pub trait SegmentBuilder: Default {
    /// A path for a new segment's backing file.
    fn new_segment_path(&self) -> String;
}

/// Number of characters in the hyphenated form of a UUID.
pub const SEGMENT_ID_LEN: usize = 36;

/// Relies on `uuid::Uuid::new_v4` and its hyphenated rendering: a random
/// identifier of `SEGMENT_ID_LEN` characters.
#[verifier::external_body]
fn random_segment_id() -> (r: String)
    ensures
        r@.len() == SEGMENT_ID_LEN,
{
    uuid::Uuid::new_v4().as_hyphenated().to_string()
}

/// Relies on `dirs::cache_dir`: the user's cache directory, when the platform
/// and environment name one.
#[verifier::external_body]
fn user_cache_dir() -> (r: Option<String>) {
    match dirs::cache_dir() {
        Some(p) => Some(p.to_string_lossy().into_owned()),
        None => None,
    }
}

/// Path of the file for the segment `id` under the directory `store`.
pub open spec fn segment_file_path(store: Seq<char>, id: Seq<char>) -> Seq<char> {
    store + seq!['/'] + id + seq!['.', 's', 'e', 'g']
}

/// The default policy: a file named by a random UUID, with the extension
/// `.seg`, under one directory.
#[derive(Debug, Clone)]
pub struct DefaultSegmentBuilder {
    store_path: String,
}

impl DefaultSegmentBuilder {
    /// The directory that holds the segment files.
    pub closed spec fn spec_store_path(&self) -> Seq<char> {
        self.store_path@
    }

    /// A policy that puts segment files under `store_path`. The directory is
    /// neither created nor checked here.
    pub fn with_path(store_path: &str) -> (r: Self)
        ensures
            r.spec_store_path() == store_path@,
    {
        DefaultSegmentBuilder { store_path: String::from_str(store_path) }
    }

    /// The directory that holds the segment files.
    pub fn store_path(&self) -> (r: &str)
        ensures
            r@ == self.spec_store_path(),
    {
        self.store_path.as_str()
    }

    /// A fresh path `<store>/<uuid>.seg`.
    pub fn segment_path(&self) -> (r: String)
        ensures
            exists|id: Seq<char>|
                id.len() == SEGMENT_ID_LEN && r@ == segment_file_path(
                    self.spec_store_path(),
                    id,
                ),
    {
        let id = random_segment_id();
        let path = String::from_str(self.store_path.as_str()).concat("/").concat(id.as_str()).concat(
            ".seg",
        );
        proof {
            reveal_strlit("/");
            reveal_strlit(".seg");
            assert(path@ =~= segment_file_path(self.spec_store_path(), id@));
        }
        path
    }
}

/// The directory that the default policy uses: `mmap-vec-rs` under the
/// user's cache directory `cache_dir`, or under `/tmp` where there is none.
pub open spec fn default_store(cache_dir: Option<Seq<char>>) -> Seq<char> {
    let root = match cache_dir {
        Some(dir) => dir,
        None => "/tmp"@,
    };
    root + "/mmap-vec-rs"@
}

/// Computes `default_store` from the cache directory, when there is one.
pub fn default_store_path(cache_dir: Option<String>) -> (r: String)
    ensures
        r@ == default_store(
            match cache_dir {
                Some(dir) => Some(dir@),
                None => None,
            },
        ),
{
    let root = match cache_dir {
        Some(dir) => dir,
        None => String::from_str("/tmp"),
    };
    root.concat("/mmap-vec-rs")
}

impl Default for DefaultSegmentBuilder {
    /// Segment files go to `default_store` of the user's cache directory as
    /// the platform and environment report it.
    fn default() -> (r: Self)
        ensures
            exists|cache_dir: Option<Seq<char>>| r.spec_store_path() == default_store(cache_dir),
    {
        let cache_dir = user_cache_dir();
        let store = default_store_path(cache_dir);
        DefaultSegmentBuilder { store_path: store }
    }
}

impl SegmentBuilder for DefaultSegmentBuilder {
    /// Same as `segment_path`: `<store>/<uuid>.seg`.
    fn new_segment_path(&self) -> (r: String)
        ensures
            exists|id: Seq<char>|
                id.len() == SEGMENT_ID_LEN && r@ == segment_file_path(
                    self.spec_store_path(),
                    id,
                ),
    {
        self.segment_path()
    }
}

} // verus!
