//! Where the content of documents is kept: the names of the places, not the
//! bytes. Two stores are known, and a local path says with its scheme which
//! one holds the content.

use crate::strings::{join2, join3, starts_with};
use vstd::prelude::*;
use vstd::string::*;

verus! {

/// One of the two places where content is kept.
#[derive(Clone, Copy, Debug, PartialEq, Eq, Structural)]
pub enum Backend {
    /// The origin-private file system.
    Opfs,
    /// The indexed database.
    IndexedDb,
}

/// Why a local path names no place.
#[derive(Clone, Copy, Debug, PartialEq, Eq, Structural)]
pub enum FileError {
    /// The path starts with neither of the two schemes.
    InvalidPath,
}

impl FileError {
    /// The message shown to the user.
    pub fn message(&self) -> (r: String)
        ensures
            r@ == "Invalid local path format"@,
    {
        "Invalid local path format".to_string()
    }
}

/// The scheme of a place.
pub open spec fn scheme_of(backend: Backend) -> Seq<char> {
    match backend {
        Backend::Opfs => "opfs://"@,
        Backend::IndexedDb => "indexeddb://"@,
    }
}

/// The path under which the content of a document is kept.
pub open spec fn storage_path(doc_id: Seq<char>, filename: Seq<char>) -> Seq<char> {
    "files/"@ + doc_id + "/"@ + filename
}

/// The place that a local path names, with the path inside it.
pub open spec fn place_of(local_path: Seq<char>) -> Result<(Backend, Seq<char>), FileError> {
    if "opfs://"@.is_prefix_of(local_path) {
        Ok((Backend::Opfs, local_path.skip(7)))
    } else if "indexeddb://"@.is_prefix_of(local_path) {
        Ok((Backend::IndexedDb, local_path.skip(12)))
    } else {
        Err(FileError::InvalidPath)
    }
}

/// The view of a located path.
pub open spec fn place_view(r: Result<(Backend, String), FileError>) -> Result<
    (Backend, Seq<char>),
    FileError,
> {
    match r {
        Ok((b, p)) => Ok((b, p@)),
        Err(e) => Err(e),
    }
}

/// The keeper of the names under which one user's content is stored.
#[derive(Debug, PartialEq, Eq)]
pub struct FileManager {
    user_id: String,
    db_name: String,
}

impl FileManager {
    /// The user whose content is kept.
    pub closed spec fn spec_user_id(&self) -> Seq<char> {
        self.user_id@
    }

    /// The name of the user's database of files.
    pub closed spec fn spec_db_name(&self) -> Seq<char> {
        self.db_name@
    }

    /// The keeper for one user. The user's database of files is named after
    /// the user.
    pub fn new(user_id: &str) -> (r: FileManager)
        ensures
            r.spec_user_id() == user_id@,
            r.spec_db_name() == "alem_files_"@ + user_id@,
    {
        FileManager { user_id: user_id.to_owned(), db_name: join2("alem_files_", user_id) }
    }

    /// The user whose content is kept.
    pub fn user_id(&self) -> (r: &str)
        ensures
            r@ == self.spec_user_id(),
    {
        self.user_id.as_str()
    }

    /// The name of the user's database of files.
    pub fn db_name(&self) -> (r: &str)
        ensures
            r@ == self.spec_db_name(),
    {
        self.db_name.as_str()
    }

    /// The path under which the content of a document is kept.
    pub fn storage_path(doc_id: &str, filename: &str) -> (r: String)
        ensures
            r@ == storage_path(doc_id@, filename@),
    {
        let mut r = join3("files/", doc_id, "/");
        r.append(filename);
        r
    }

    /// The local path that says where content was stored.
    pub fn local_path(backend: Backend, path: &str) -> (r: String)
        ensures
            r@ == scheme_of(backend) + path@,
            place_of(r@) == Ok::<(Backend, Seq<char>), FileError>((backend, path@)),
    {
        proof {
            reveal_strlit("opfs://");
            reveal_strlit("indexeddb://");
        }
        let r = match backend {
            Backend::Opfs => join2("opfs://", path),
            Backend::IndexedDb => join2("indexeddb://", path),
        };
        proof {
            let scheme = scheme_of(backend);
            assert(r@.subrange(0, scheme.len() as int) =~= scheme);
            assert(r@.skip(scheme.len() as int) =~= path@);
            if backend == Backend::IndexedDb {
                assert(!"opfs://"@.is_prefix_of(r@)) by {
                    assert(r@[0] == 'i');
                    assert("opfs://"@[0] == 'o');
                    if "opfs://"@.is_prefix_of(r@) {
                        assert(r@.subrange(0, 7)[0] == "opfs://"@[0]);
                    }
                }
            }
        }
        r
    }

    /// Reads from a local path which place holds the content, and under
    /// which path.
    pub fn locate(local_path: &str) -> (r: Result<(Backend, String), FileError>)
        ensures
            place_view(r) == place_of(local_path@),
    {
        proof {
            reveal_strlit("opfs://");
            reveal_strlit("indexeddb://");
        }
        if starts_with(local_path, "opfs://") {
            let n = local_path.unicode_len();
            let path = local_path.substring_char(7, n);
            Ok((Backend::Opfs, path.to_owned()))
        } else if starts_with(local_path, "indexeddb://") {
            let n = local_path.unicode_len();
            let path = local_path.substring_char(12, n);
            Ok((Backend::IndexedDb, path.to_owned()))
        } else {
            Err(FileError::InvalidPath)
        }
    }
}

} // verus!
