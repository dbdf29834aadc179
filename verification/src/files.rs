use vstd::prelude::*;

use crate::database::{FileListing, FileListingView};
use crate::text::str_eq;

verus! {

/// Where a listed file is kept on disk: `files/{name}`.
pub open spec fn stored_file_path(name: Seq<char>) -> Seq<char> {
    "files/"@ + name
}

/// The on-disk path of the listed file `name`.
pub fn stored_file(name: &str) -> (r: String)
    ensures
        r@ == stored_file_path(name@),
{
    let mut r = String::from_str("files/");
    r.append(name);
    r
}

/// The page served for a file or link that is not listed.
pub fn file_not_found_page() -> (r: &'static str)
    ensures
        r@ == "src/pages/file_not_found.html"@,
{
    "src/pages/file_not_found.html"
}

/// The page served for a listed file that is locked by a password.
pub fn enter_password_page() -> (r: &'static str)
    ensures
        r@ == "src/pages/enter_password.html"@,
{
    "src/pages/enter_password.html"
}

// ---------------------------------------------------------------------------
// get_files_json: the public file list, with every password hidden.
// ---------------------------------------------------------------------------

/// A listing as the public file list shows it: a stored password, whatever
/// it is, reads `locked`.
pub open spec fn masked(l: FileListingView) -> FileListingView {
    FileListingView {
        id: l.id,
        path: l.path,
        password: match l.password {
            Some(_) => Some("locked"@),
            None => None,
        },
    }
}

/// Hides the password of one listing (see `masked`).
pub fn mask_password(l: &FileListing) -> (r: FileListing)
    ensures
        r@ == masked(l@),
{
    let password = match &l.password {
        Some(_) => Some(String::from_str("locked")),
        None => None,
    };
    FileListing { id: l.id, path: l.path.clone(), password }
}

/// Hides the password of each listing (see `masked`).
pub fn mask_passwords(listing: &Vec<FileListing>) -> (r: Vec<FileListing>)
    ensures
        r@.len() == listing@.len(),
        forall|i: int| 0 <= i < r@.len() ==> #[trigger] r@[i]@ == masked(listing@[i]@),
{
    let mut r: Vec<FileListing> = Vec::new();
    let mut i: usize = 0;
    while i < listing.len()
        invariant
            i <= listing@.len(),
            r@.len() == i,
            forall|j: int| 0 <= j < i ==> #[trigger] r@[j]@ == masked(listing@[j]@),
        decreases listing@.len() - i,
    {
        r.push(mask_password(&listing[i]));
        i = i + 1;
    }
    r
}

/// The public file list: every listing with its password hidden, or no
/// listing at all when the database could not be read (`None`).
pub fn get_files_json(read: Option<Vec<FileListing>>) -> (r: Vec<FileListing>)
    ensures
        read is None ==> r@.len() == 0,
        read matches Some(l) ==> r@.len() == l@.len() && forall|i: int|
            0 <= i < r@.len() ==> #[trigger] r@[i]@ == masked(l@[i]@),
{
    match read {
        Some(l) => mask_passwords(&l),
        None => Vec::new(),
    }
}

/// Hiding passwords twice hides no more than hiding them once, and no
/// password survives it: a masked listing keeps its id and path, and its
/// password is absent exactly when it was, and reads `locked` otherwise.
pub proof fn masking_hides_passwords(l: FileListingView)
    ensures
        masked(masked(l)) == masked(l),
        masked(l).id == l.id,
        masked(l).path == l.path,
        masked(l).password is None <==> l.password is None,
        masked(l).password matches Some(p) ==> p == "locked"@,
{
}

// ---------------------------------------------------------------------------
// get_files and get_locked_file
// ---------------------------------------------------------------------------

/// Whether a listing is locked: it has a password, and that is not empty.
pub open spec fn is_locked(l: FileListingView) -> bool {
    l.password matches Some(p) && p.len() > 0
}

/// The file that `GET /files/{path}` serves, given the listing of `path`:
/// the not-found page when there is none, the password page when the
/// listing is locked, and otherwise `files/{path}`.
pub open spec fn get_files_spec(path: Seq<char>, listing: Option<FileListingView>) -> Seq<char> {
    match listing {
        None => "src/pages/file_not_found.html"@,
        Some(l) => if is_locked(l) {
            "src/pages/enter_password.html"@
        } else {
            stored_file_path(path)
        },
    }
}

/// The path of the file to serve for `GET /files/{path}` (see
/// `get_files_spec`).
pub fn get_files(path: &str, listing: &Option<FileListing>) -> (r: String)
    ensures
        r@ == get_files_spec(
            path@,
            match listing {
                Some(l) => Some(l@),
                None => None,
            },
        ),
{
    match listing {
        None => String::from_str(file_not_found_page()),
        Some(l) => {
            let locked = match &l.password {
                Some(p) => !p.as_str().is_empty(),
                None => false,
            };
            if locked {
                String::from_str(enter_password_page())
            } else {
                stored_file(path)
            }
        },
    }
}

/// `GET /files/{path}` never serves the stored file of a locked listing:
/// whatever it serves for a locked listing is the password page.
pub proof fn locked_files_stay_locked(path: Seq<char>, l: FileListingView)
    requires
        is_locked(l),
    ensures
        get_files_spec(path, Some(l)) == "src/pages/enter_password.html"@,
        get_files_spec(path, Some(l)) != stored_file_path(path),
{
    reveal_strlit("src/pages/enter_password.html");
    reveal_strlit("files/");
    assert(get_files_spec(path, Some(l))[0] != stored_file_path(path)[0]);
}

/// `GET /files/{path}` answers: the not-found page for an unlisted path,
/// `files/{path}` for every listing that is not locked (no password, or an
/// empty one), whatever its id or stored path, and the password page for a
/// locked one.
pub proof fn get_files_serves_unlocked_files(path: Seq<char>, l: FileListingView)
    ensures
        get_files_spec(path, None) == "src/pages/file_not_found.html"@,
        (l.password is None || l.password == Some(Seq::<char>::empty())) ==> get_files_spec(
            path,
            Some(l),
        ) == "files/"@ + path,
        (l.password matches Some(p) && p.len() > 0) ==> get_files_spec(path, Some(l))
            == "src/pages/enter_password.html"@,
{
}

/// The JSON body of `POST /locked_file`: the path of a locked file and the
/// password claimed for it.
pub struct LockedFileRequest {
    pub password: String,
    pub path: String,
}

/// How `POST /locked_file` is answered.
#[derive(Debug)]
pub enum LockedFileReply {
    /// 404: the path is not listed.
    NotFound,
    /// 403: the password does not open the file.
    Forbidden,
    /// Serve the file at this path.
    Serve(String),
}

/// Whether `password` opens the listed file: it has a password, and it is
/// `password`. (A file with no password is never served this way.)
pub open spec fn opens(l: FileListingView, password: Seq<char>) -> bool {
    l.password == Some(password)
}

/// A password opens a listed file exactly when the listing stores that very
/// password: a listing without a password is opened by none, and one with
/// password `q` by `q` alone.
pub proof fn only_the_stored_password_opens(l: FileListingView, password: Seq<char>)
    ensures
        l.password is None ==> !opens(l, password),
        l.password matches Some(q) ==> (opens(l, password) <==> q == password),
{
}

/// Answers `POST /locked_file`, given the listing of the requested path:
/// 404 when there is none, the file `files/{path}` when the password opens
/// it, and 403 otherwise.
pub fn get_locked_file(request: &LockedFileRequest, listing: &Option<FileListing>) -> (r:
    LockedFileReply)
    ensures
        listing is None ==> r is NotFound,
        listing matches Some(l) ==> if opens(l@, request.password@) {
            r matches LockedFileReply::Serve(p) && p@ == stored_file_path(request.path@)
        } else {
            r is Forbidden
        },
{
    match listing {
        None => LockedFileReply::NotFound,
        Some(l) => {
            let open = match &l.password {
                Some(p) => str_eq(p.as_str(), request.password.as_str()),
                None => false,
            };
            if open {
                LockedFileReply::Serve(stored_file(request.path.as_str()))
            } else {
                LockedFileReply::Forbidden
            }
        },
    }
}

} // verus!
