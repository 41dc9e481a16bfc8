//! The conversion cache: which stored result is still valid for a file, and how the files
//! of the cache directory are named.

use vstd::prelude::*;
use vstd::string::StringExecFns;

verus! {

/// What identifies one state of an input file: where it is, when it was last modified
/// (seconds since the epoch) and how many bytes it holds. The contents are never hashed.
#[derive(Debug, Clone)]
pub struct FileIdentity {
    pub path: String,
    pub modified_time: u64,
    pub size: u64,
}

/// The record kept beside a converted file: the state of the input that was converted and
/// the path of the primary output.
#[derive(Debug, Clone)]
pub struct CacheEntry {
    pub modified_time: u64,
    pub size: u64,
    pub parsed_path: String,
}

impl CacheEntry {
    /// An entry is valid for a file exactly when time and size are those of the file.
    pub open spec fn valid_for(&self, file: &FileIdentity) -> bool {
        self.modified_time == file.modified_time && self.size == file.size
    }

    /// Decides whether the entry is still valid for `file`.
    pub fn is_valid_for(&self, file: &FileIdentity) -> (valid: bool)
        ensures
            valid == self.valid_for(file),
    {
        self.modified_time == file.modified_time && self.size == file.size
    }

    /// The entry to store after `file` was converted into `primary_path`.
    pub fn record(file: &FileIdentity, primary_path: &str) -> (entry: CacheEntry)
        ensures
            entry.modified_time == file.modified_time,
            entry.size == file.size,
            entry.parsed_path@ == primary_path@,
    {
        CacheEntry {
            modified_time: file.modified_time,
            size: file.size,
            parsed_path: String::from_str(primary_path),
        }
    }
}

/// The cached output for a file: that of the stored entry where there is one, the file could
/// be examined, and the entry is valid for it. Everything else is a miss.
pub open spec fn cached_output(entry: Option<CacheEntry>, current: Option<FileIdentity>) -> Option<
    Seq<char>,
> {
    match (entry, current) {
        (Some(e), Some(file)) => if e.valid_for(&file) {
            Some(e.parsed_path@)
        } else {
            None
        },
        _ => None,
    }
}

/// Looks a file up in the cache. `entry` is what the sidecar held, `None` where it is missing
/// or unreadable; `current` is the file as it is now, `None` where it could not be examined.
/// A miss is never an error: it only means that the file is converted again.
pub fn lookup(entry: &Option<CacheEntry>, current: &Option<FileIdentity>) -> (hit: Option<String>)
    ensures
        hit is Some == cached_output(*entry, *current) is Some,
        hit matches Some(path) ==> Some(path@) == cached_output(*entry, *current),
{
    match (entry, current) {
        (Some(e), Some(file)) => {
            if e.is_valid_for(file) {
                Some(e.parsed_path.clone())
            } else {
                None
            }
        },
        _ => None,
    }
}

/// A directory and a name in it as one path.
pub open spec fn joined(dir: Seq<char>, name: Seq<char>) -> Seq<char> {
    if dir.len() == 0 || dir.last() == '/' {
        dir + name
    } else {
        dir + seq!['/'] + name
    }
}

/// The name of an artifact: the input's file name, a dot and the extension.
pub open spec fn artifact_name(file_name: Seq<char>, extension: Seq<char>) -> Seq<char> {
    file_name + seq!['.'] + extension
}

/// The path of an artifact in the cache directory.
pub open spec fn artifact_path(cache_dir: Seq<char>, file_name: Seq<char>, extension: Seq<char>) -> Seq<
    char,
> {
    joined(cache_dir, artifact_name(file_name, extension))
}

/// The path of the sidecar that holds a file's cache entry.
pub open spec fn sidecar_path(cache_dir: Seq<char>, file_name: Seq<char>) -> Seq<char> {
    joined(cache_dir, file_name + ".metadata.json"@)
}

/// Joins a directory and a name with `/`, adding none after an empty directory or one that
/// ends in `/` already.
pub fn join_path(dir: &str, name: &str) -> (path: String)
    ensures
        path@ == joined(dir@, name@),
{
    let n = dir.unicode_len();
    let mut path = String::from_str(dir);
    if n > 0 && dir.get_char(n - 1) != '/' {
        proof {
            reveal_strlit("/");
        }
        path.append("/");
        assert(path@ =~= dir@ + seq!['/']);
    }
    path.append(name);
    path
}

/// Gives the path of the artifact with `extension` for the input named `file_name`.
pub fn artifact_path_of(cache_dir: &str, file_name: &str, extension: &str) -> (path: String)
    ensures
        path@ == artifact_path(cache_dir@, file_name@, extension@),
{
    proof {
        reveal_strlit(".");
    }
    let mut name = String::from_str(file_name);
    name.append(".");
    name.append(extension);
    assert(name@ =~= artifact_name(file_name@, extension@));
    join_path(cache_dir, name.as_str())
}

/// Gives the path of the sidecar for the input named `file_name`.
pub fn sidecar_path_of(cache_dir: &str, file_name: &str) -> (path: String)
    ensures
        path@ == sidecar_path(cache_dir@, file_name@),
{
    let mut name = String::from_str(file_name);
    name.append(".metadata.json");
    join_path(cache_dir, name.as_str())
}

} // verus!
