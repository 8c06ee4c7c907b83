//! Where saved shared objects live in the host's virtual file system.
use vstd::prelude::*;

verus! {

/// The VFS operations the storage backend uses.
#[derive(Clone, Copy, Debug, PartialEq, Eq, Structural)]
pub enum VfsOperation {
    Open,
    Read,
    Write,
    Close,
    Size,
    Mkdir,
    Remove,
    Stat,
}

/// Failures of the storage backend.
#[derive(Clone, Debug)]
pub enum StorageError {
    FailedToGetInterface(u32),
    InvalidUnicodePath,
    OperationUnavailable(VfsOperation),
    /// `vfs_mkdir` failed with this code on this path.
    MkdirError(i32, String),
    InterfaceNull,
}

/// Joins a relative or absolute path onto a base, as `Path::join` does on
/// Unix: an absolute path replaces the base; otherwise one separator stands
/// between the two unless the base is empty or already ends with one.
pub open spec fn joined(base: Seq<char>, path: Seq<char>) -> Seq<char> {
    if path.len() > 0 && path[0] == '/' {
        path
    } else if base.len() == 0 || base.last() == '/' {
        base + path
    } else {
        base + seq!['/'] + path
    }
}

/// The path has a `..` component: two dots bounded by separators or the ends.
pub open spec fn has_parent_component(p: Seq<char>) -> bool {
    exists|i: int|
        0 <= i && i + 2 <= p.len() && #[trigger] p[i] == '.' && p[i + 1] == '.' && (i == 0 || p[i - 1] == '/')
            && (i + 2 == p.len() || p[i + 2] == '/')
}

/// The directory, under the base path, that holds shared objects.
pub const SHARED_OBJECTS_DIR: &'static str = "SharedObjects";
/// The extension of a shared object file.
pub const SHARED_OBJECT_EXTENSION: &'static str = ".sol";

/// Joins two paths.
pub fn join_path(base: &str, path: &str) -> (r: String)
    ensures
        r@ == joined(base@, path@),
{
    if path.unicode_len() > 0 && path.get_char(0) == '/' {
        return String::from_str(path);
    }
    let n = base.unicode_len();
    let mut r = String::from_str(base);
    if n > 0 && base.get_char(n - 1) != '/' {
        r.append("/");
        proof {
            reveal_strlit("/");
        }
    }
    r.append(path);
    proof {
        if !(n == 0 || base@.last() == '/') {
            assert(r@ =~= base@ + seq!['/'] + path@);
        }
    }
    r
}

/// Whether a path stays inside the storage directory: it has no `..` component.
pub fn is_path_allowed(path: &str) -> (r: bool)
    ensures
        r == !has_parent_component(path@),
{
    let n = path.unicode_len();
    let mut i: usize = 0;
    while n >= 2 && i <= n - 2
        invariant
            n == path@.len(),
            i <= n,
            forall|j: int|
                0 <= j < i && j + 2 <= n ==> !(#[trigger] path@[j] == '.' && path@[j + 1] == '.' && (j == 0
                    || path@[j - 1] == '/') && (j + 2 == n || path@[j + 2] == '/')),
        decreases n - i,
    {
        if path.get_char(i) == '.' && path.get_char(i + 1) == '.' && (i == 0 || path.get_char(i - 1) == '/') && (
        i + 2 == n || path.get_char(i + 2) == '/') {
            return false;
        }
        i = i + 1;
    }
    true
}

/// The storage backend's paths; the VFS calls are made by its caller.
pub struct RetroVfsStorageBackend {
    pub base_path: String,
    pub shared_objects_path: String,
}

impl RetroVfsStorageBackend {
    /// The backend for a save directory; the caller then makes sure that
    /// `shared_objects_path` exists.
    pub fn new(base_path: &str) -> (r: RetroVfsStorageBackend)
        ensures
            r.base_path@ == base_path@,
            r.shared_objects_path@ == joined(base_path@, SHARED_OBJECTS_DIR@),
    {
        RetroVfsStorageBackend {
            base_path: String::from_str(base_path),
            shared_objects_path: join_path(base_path, SHARED_OBJECTS_DIR),
        }
    }

    /// The file a shared object of this name is stored in.
    pub fn get_shared_object_path(&self, name: &str) -> (r: String)
        ensures
            r@ == joined(self.shared_objects_path@, name@ + SHARED_OBJECT_EXTENSION@),
    {
        let file = String::from_str(name).concat(SHARED_OBJECT_EXTENSION);
        join_path(self.shared_objects_path.as_str(), file.as_str())
    }

    /// The file a shared object of this name is read from, written to or
    /// removed at: `None` where the name would lead out of the storage directory.
    pub fn shared_object_location(&self, name: &str) -> (r: Option<String>)
        ensures
            ({
                let p = joined(self.shared_objects_path@, name@ + SHARED_OBJECT_EXTENSION@);
                &&& has_parent_component(p) ==> r is None
                &&& !has_parent_component(p) ==> r is Some && r.unwrap()@ == p
            }),
    {
        let path = self.get_shared_object_path(name);
        if is_path_allowed(path.as_str()) {
            Some(path)
        } else {
            None
        }
    }
}

/// The outcome of `vfs_mkdir`: success, or a directory that already exists
/// (code -2), is fine; any other code is an error.
pub fn mkdir_outcome(code: i32, path: &str) -> (r: Result<(), StorageError>)
    ensures
        (code == 0 || code == -2) <==> r is Ok,
        r is Err ==> match r {
            Err(StorageError::MkdirError(c, p)) => c == code && p@ == path@,
            _ => false,
        },
{
    if code == 0 || code == -2 {
        Ok(())
    } else {
        Err(StorageError::MkdirError(code, String::from_str(path)))
    }
}

} // verus!
