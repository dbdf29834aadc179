use vstd::prelude::*;
use vstd::slice::slice_to_vec;
use vstd::string::StringSliceAdditionalSpecFns;
use vstd::utf8::{
    decode_utf8, decode_utf8_encode_utf8, encode_utf8, encode_utf8_decode_utf8, valid_utf8,
};

use crate::database::{FileListing, FileListingView, LinkListing, LinkListingView};
use crate::files::{get_files_spec, is_locked, opens, stored_file, stored_file_path};
use crate::status::Status;
use crate::text::{str_eq, utf8_str};

verus! {

/// The byte that separates the fields of an upload body.
pub const COMMA: u8 = 0x2c;

/// The password that the admin handlers require.
pub struct AdminPassword(pub String);

impl AdminPassword {
    /// Whether `claim` is the admin password.
    pub fn admits(&self, claim: &str) -> (r: bool)
        ensures
            r == (self.0@ == claim@),
    {
        str_eq(self.0.as_str(), claim)
    }
}

// ---------------------------------------------------------------------------
// The upload body of `add_file`:
//     admin_password "," name "," password "," contents
// The first three fields hold no comma; the contents are every byte after the
// third comma, commas included.
// ---------------------------------------------------------------------------

/// The index of the first comma in `s` at or after `from`, or the length of
/// `s` where there is none.
pub open spec fn next_comma(s: Seq<u8>, from: int) -> int
    decreases s.len() - from,
{
    if from >= s.len() {
        s.len() as int
    } else if s[from] == COMMA {
        from
    } else {
        next_comma(s, from + 1)
    }
}

/// The fields of an upload body, as bytes.
pub struct UploadFields {
    pub admin_password: Seq<u8>,
    pub name: Seq<u8>,
    pub password: Seq<u8>,
    /// The bytes after the third comma; `None` when the body has only two.
    pub contents: Option<Seq<u8>>,
}

/// The fields of an upload body: `None` when it has fewer than two commas.
pub open spec fn upload_fields(s: Seq<u8>) -> Option<UploadFields> {
    let e0: int = next_comma(s, 0);
    let e1: int = next_comma(s, e0 + 1);
    let e2: int = next_comma(s, e1 + 1);
    if e0 < s.len() && e1 < s.len() {
        Some(
            UploadFields {
                admin_password: s.subrange(0, e0),
                name: s.subrange(e0 + 1, e1),
                password: s.subrange(e1 + 1, e2),
                contents: if e2 < s.len() {
                    Some(s.subrange(e2 + 1, s.len() as int))
                } else {
                    None
                },
            },
        )
    } else {
        None
    }
}

/// Whether `s` holds no comma.
pub open spec fn comma_free(s: Seq<u8>) -> bool {
    forall|i: int| 0 <= i < s.len() ==> s[i] != COMMA
}

/// The upload body that carries the given fields.
pub open spec fn upload_body(
    admin_password: Seq<u8>,
    name: Seq<u8>,
    password: Seq<u8>,
    contents: Seq<u8>,
) -> Seq<u8> {
    admin_password + seq![COMMA] + name + seq![COMMA] + password + seq![COMMA] + contents
}

/// The fields of an upload body, as slices of it.
pub struct Upload<'a> {
    pub admin_password: &'a [u8],
    pub name: &'a [u8],
    pub password: &'a [u8],
    pub contents: Option<&'a [u8]>,
}

fn next_comma_from(s: &[u8], from: usize) -> (e: usize)
    requires
        from <= s@.len(),
    ensures
        e == next_comma(s@, from as int),
        from <= e <= s@.len(),
{
    let mut i: usize = from;
    while i < s.len()
        invariant
            from <= i <= s@.len(),
            next_comma(s@, from as int) == next_comma(s@, i as int),
        decreases s@.len() - i,
    {
        if s[i] == COMMA {
            return i;
        }
        i = i + 1;
    }
    i
}

/// Splits an upload body into its fields.
pub fn parse_upload(body: &[u8]) -> (r: Option<Upload<'_>>)
    ensures
        r is Some <==> upload_fields(body@) is Some,
        r matches Some(u) ==> {
            let f = upload_fields(body@)->0;
            &&& u.admin_password@ == f.admin_password
            &&& u.name@ == f.name
            &&& u.password@ == f.password
            &&& u.contents is Some <==> f.contents is Some
            &&& u.contents matches Some(c) ==> c@ == f.contents->0
        },
{
    let len: usize = body.len();
    let e0: usize = next_comma_from(body, 0);
    if e0 == len {
        return None;
    }
    let e1: usize = next_comma_from(body, e0 + 1);
    if e1 == len {
        return None;
    }
    let e2: usize = next_comma_from(body, e1 + 1);
    let contents = if e2 < len {
        Some(&body[e2 + 1..len])
    } else {
        None
    };
    Some(
        Upload {
            admin_password: &body[0..e0],
            name: &body[e0 + 1..e1],
            password: &body[e1 + 1..e2],
            contents,
        },
    )
}


proof fn lemma_next_comma_at(s: Seq<u8>, from: int, k: int)
    requires
        0 <= from <= k <= s.len(),
        forall|i: int| from <= i < k ==> s[i] != COMMA,
        k == s.len() || s[k] == COMMA,
    ensures
        next_comma(s, from) == k,
    decreases k - from,
{
    if from < k {
        lemma_next_comma_at(s, from + 1, k);
    }
}

proof fn lemma_next_comma_found(s: Seq<u8>, from: int)
    requires
        0 <= from <= s.len(),
    ensures
        from <= next_comma(s, from) <= s.len(),
        forall|i: int| from <= i < next_comma(s, from) ==> s[i] != COMMA,
        next_comma(s, from) < s.len() ==> s[next_comma(s, from)] == COMMA,
    decreases s.len() - from,
{
    if from < s.len() && s[from] != COMMA {
        lemma_next_comma_found(s, from + 1);
    }
}

/// Every body that reads as an upload is made of the fields it reads as:
/// the first three hold no comma, and the body is them joined by commas,
/// followed, when there is a third comma, by that comma and the contents.
pub proof fn upload_fields_make_the_body(s: Seq<u8>)
    requires
        upload_fields(s) is Some,
    ensures
        ({
            let f = upload_fields(s)->0;
            &&& comma_free(f.admin_password)
            &&& comma_free(f.name)
            &&& comma_free(f.password)
            &&& match f.contents {
                Some(c) => s == upload_body(f.admin_password, f.name, f.password, c),
                None => s == f.admin_password + seq![COMMA] + f.name + seq![COMMA] + f.password,
            }
        }),
{
    let e0: int = next_comma(s, 0);
    lemma_next_comma_found(s, 0);
    let e1: int = next_comma(s, e0 + 1);
    lemma_next_comma_found(s, e0 + 1);
    let e2: int = next_comma(s, e1 + 1);
    lemma_next_comma_found(s, e1 + 1);
    let f = upload_fields(s)->0;
    assert(comma_free(f.admin_password));
    assert(comma_free(f.name));
    assert(comma_free(f.password));
    match f.contents {
        Some(c) => {
            assert(s =~= upload_body(f.admin_password, f.name, f.password, c));
        },
        None => {
            assert(s =~= f.admin_password + seq![COMMA] + f.name + seq![COMMA] + f.password);
        },
    }
}

/// Reading an upload body gives back the fields it was made of: for any
/// comma-free admin password, name and password, and any contents (commas
/// allowed), the body `a,n,p,c` splits into exactly `a`, `n`, `p` and `c`.
pub proof fn upload_body_roundtrip(
    admin_password: Seq<u8>,
    name: Seq<u8>,
    password: Seq<u8>,
    contents: Seq<u8>,
)
    requires
        comma_free(admin_password),
        comma_free(name),
        comma_free(password),
    ensures
        upload_fields(upload_body(admin_password, name, password, contents)) == Some(
            UploadFields { admin_password, name, password, contents: Some(contents) },
        ),
{
    let s = upload_body(admin_password, name, password, contents);
    let e0: int = admin_password.len() as int;
    let e1: int = e0 + 1 + name.len();
    let e2: int = e1 + 1 + password.len();
    assert(s[e0] == COMMA);
    assert(s[e1] == COMMA);
    assert(s[e2] == COMMA);
    assert forall|i: int| 0 <= i < e0 implies s[i] != COMMA by {
        assert(s[i] == admin_password[i]);
    }
    assert forall|i: int| e0 + 1 <= i < e1 implies s[i] != COMMA by {
        assert(s[i] == name[i - e0 - 1]);
    }
    assert forall|i: int| e1 + 1 <= i < e2 implies s[i] != COMMA by {
        assert(s[i] == password[i - e1 - 1]);
    }
    lemma_next_comma_at(s, 0, e0);
    lemma_next_comma_at(s, e0 + 1, e1);
    lemma_next_comma_at(s, e1 + 1, e2);
    assert(s.subrange(0, e0) =~= admin_password);
    assert(s.subrange(e0 + 1, e1) =~= name);
    assert(s.subrange(e1 + 1, e2) =~= password);
    assert(s.subrange(e2 + 1, s.len() as int) =~= contents);
}


// ---------------------------------------------------------------------------
// add_file: read and authorize the upload, insert its listing, write the
// file, and take the listing back out when the write fails.
// ---------------------------------------------------------------------------

/// What an accepted upload is to store.
pub struct AddFilePlan {
    /// The listing to insert: id 0, the uploaded name, and the password,
    /// or none where the password field is empty.
    pub listing: FileListing,
    /// Where the file is written: `files/{name}`.
    pub file_path: String,
    /// The file's bytes: all of the body after the third comma. `None` when
    /// the body has only two commas.
    pub contents: Option<Vec<u8>>,
}

/// The model of an upload plan.
pub struct AddFilePlanView {
    pub listing: FileListingView,
    pub file_path: Seq<char>,
    pub contents: Option<Seq<u8>>,
}

impl View for AddFilePlan {
    type V = AddFilePlanView;

    open spec fn view(&self) -> AddFilePlanView {
        AddFilePlanView {
            listing: self.listing@,
            file_path: self.file_path@,
            contents: match self.contents {
                Some(c) => Some(c@),
                None => None,
            },
        }
    }
}

/// How `add_file` answers an upload body, before it touches the database:
/// 400 when the body has fewer than two commas or one of its first three
/// fields is not UTF-8 text, 403 when the admin password is wrong, and
/// otherwise the plan to carry out.
pub open spec fn add_file_spec(body: Seq<u8>, admin_password: Seq<char>) -> Result<
    AddFilePlanView,
    Status,
> {
    match upload_fields(body) {
        None => Err(Status::BadRequest),
        Some(f) => {
            if !(valid_utf8(f.admin_password) && valid_utf8(f.name) && valid_utf8(f.password)) {
                Err(Status::BadRequest)
            } else if decode_utf8(f.admin_password) != admin_password {
                Err(Status::Forbidden)
            } else {
                let name = decode_utf8(f.name);
                Ok(
                    AddFilePlanView {
                        listing: FileListingView {
                            id: 0,
                            path: name,
                            password: if f.password.len() == 0 {
                                None
                            } else {
                                Some(decode_utf8(f.password))
                            },
                        },
                        file_path: stored_file_path(name),
                        contents: f.contents,
                    },
                )
            }
        },
    }
}

/// Reads and authorizes an upload body (see `add_file_spec`).
pub fn add_file(body: &[u8], admin_password: &AdminPassword) -> (r: Result<AddFilePlan, Status>)
    ensures
        match add_file_spec(body@, admin_password.0@) {
            Ok(plan) => r matches Ok(p) && p@ == plan,
            Err(status) => r == Err::<AddFilePlan, Status>(status),
        },
{
    broadcast use encode_utf8_decode_utf8;

    let upload = match parse_upload(body) {
        Some(u) => u,
        None => return Err(Status::BadRequest),
    };
    let claim = match utf8_str(upload.admin_password) {
        Some(s) => s,
        None => return Err(Status::BadRequest),
    };
    let name = match utf8_str(upload.name) {
        Some(s) => s,
        None => return Err(Status::BadRequest),
    };
    let password = match utf8_str(upload.password) {
        Some(s) => s,
        None => return Err(Status::BadRequest),
    };
    if !admin_password.admits(claim) {
        return Err(Status::Forbidden);
    }
    let stored_password = if upload.password.len() == 0 {
        None
    } else {
        Some(password.to_owned())
    };
    let listing = FileListing { id: 0, path: name.to_owned(), password: stored_password };
    let contents = match upload.contents {
        Some(c) => Some(slice_to_vec(c)),
        None => None,
    };
    Ok(AddFilePlan { listing, file_path: stored_file(name), contents })
}

/// An accepted upload keeps every byte after the third comma as the file's
/// contents, however many there are.
pub proof fn accepted_upload_keeps_all_contents(body: Seq<u8>, admin_password: Seq<char>)
    requires
        add_file_spec(body, admin_password) is Ok,
    ensures
        add_file_spec(body, admin_password)->Ok_0.contents == upload_fields(body)->0.contents,
{
}

/// An upload `a,n,p,c` (a, n, p without commas, valid UTF-8) with the right
/// admin password plans exactly this: the listing (id 0, name n, no password
/// when p is empty, else p), the file `files/{n}`, and all of `c`, whatever
/// `c` holds, as its contents. Any other admin password is refused with 403.
pub proof fn upload_is_stored_whole(a: Seq<u8>, n: Seq<u8>, p: Seq<u8>, c: Seq<u8>)
    requires
        comma_free(a),
        comma_free(n),
        comma_free(p),
        valid_utf8(a),
        valid_utf8(n),
        valid_utf8(p),
    ensures
        ({
            let body = a + seq![COMMA] + n + seq![COMMA] + p + seq![COMMA] + c;
            let r = add_file_spec(body, decode_utf8(a));
            &&& r is Ok
            &&& r->Ok_0.contents == Some(c)
            &&& r->Ok_0.listing.id == 0
            &&& r->Ok_0.listing.path == decode_utf8(n)
            &&& (p.len() == 0 ==> r->Ok_0.listing.password is None)
            &&& (p.len() > 0 ==> r->Ok_0.listing.password == Some(decode_utf8(p)))
            &&& r->Ok_0.file_path == "files/"@ + decode_utf8(n)
            &&& forall|other: Seq<char>|
                other != decode_utf8(a) ==> #[trigger] add_file_spec(body, other) == Err::<
                    AddFilePlanView,
                    Status,
                >(Status::Forbidden)
        }),
{
    upload_body_roundtrip(a, n, p, c);
    assert(a + seq![COMMA] + n + seq![COMMA] + p + seq![COMMA] + c == upload_body(a, n, p, c));
}

/// What an accepted upload's listing does to later requests: with an empty
/// password field, `GET /files/{name}` serves the stored file itself; with a
/// non-empty one, the listing is locked, `GET /files/{name}` serves only the
/// password page, and the uploaded password is the one that opens it.
pub proof fn uploaded_password_guards_the_file(body: Seq<u8>, admin_password: Seq<char>)
    requires
        add_file_spec(body, admin_password) is Ok,
    ensures
        ({
            let plan = add_file_spec(body, admin_password)->Ok_0;
            let f = upload_fields(body)->0;
            let name = plan.listing.path;
            &&& f.password.len() == 0 ==> get_files_spec(name, Some(plan.listing))
                == plan.file_path
            &&& f.password.len() > 0 ==> {
                &&& is_locked(plan.listing)
                &&& opens(plan.listing, decode_utf8(f.password))
                &&& get_files_spec(name, Some(plan.listing)) == "src/pages/enter_password.html"@
            }
        }),
{
    let f = upload_fields(body)->0;
    if f.password.len() > 0 {
        decode_utf8_encode_utf8(f.password);
        if decode_utf8(f.password).len() == 0 {
            assert(encode_utf8(decode_utf8(f.password)) =~= Seq::<u8>::empty());
        }
    }
}

/// The next step of `add_file`.
#[derive(Debug)]
pub enum AddFileAction {
    /// Answer with this status; nothing more to do.
    Respond(Status),
    /// Write the plan's contents to the plan's file path.
    WriteFile,
    /// Remove this listing from the database again, then answer 500.
    Rollback(FileListing),
}

/// After inserting the plan's listing: answer 500 when the insert failed,
/// else write the uploaded bytes to `files/{name}`. (A body with only two
/// commas has no contents; the insert must not have succeeded for it.)
pub fn add_file_inserted(plan: &AddFilePlan, inserted: bool) -> (r: AddFileAction)
    requires
        inserted ==> plan.contents is Some,
    ensures
        !inserted ==> r == AddFileAction::Respond(Status::InternalServerError),
        inserted ==> r == AddFileAction::WriteFile,
{
    if inserted {
        AddFileAction::WriteFile
    } else {
        AddFileAction::Respond(Status::InternalServerError)
    }
}

/// The listing with id 0, the given path and no password.
pub open spec fn unlocked_listing(path: Seq<char>) -> FileListingView {
    FileListingView { id: 0, path, password: None }
}

/// After writing the file: answer 200 when the write succeeded; otherwise
/// take the listing of the same path back out of the database.
pub fn add_file_written(plan: &AddFilePlan, written: bool) -> (r: AddFileAction)
    ensures
        written ==> r == AddFileAction::Respond(Status::Success),
        !written ==> (r matches AddFileAction::Rollback(l) && l@ == unlocked_listing(
            plan.listing.path@,
        )),
{
    if written {
        AddFileAction::Respond(Status::Success)
    } else {
        AddFileAction::Rollback(FileListing { id: 0, path: plan.listing.path.clone(), password: None })
    }
}


/// The answer of an admin handler.
#[derive(Debug)]
pub enum AdminReply {
    /// This status with an empty body.
    Respond(Status),
    /// 500, with the error's description as the body.
    ServerError(String),
}

/// How a database delete or file removal that was to affect exactly one
/// thing is answered: 200 when it affected one, 404 when it affected
/// another number, 500 with the error's description when it failed.
pub open spec fn delete_reply_spec(deleted: Result<usize, String>) -> Result<Status, Seq<char>> {
    match deleted {
        Ok(n) => if n == 1 { Ok(Status::Success) } else { Ok(Status::NotFound) },
        Err(e) => Err(e@),
    }
}

/// The model of an admin reply: a status, or a 500 with the given body.
pub open spec fn admin_reply_view(r: AdminReply) -> Result<Status, Seq<char>> {
    match r {
        AdminReply::Respond(s) => Ok(s),
        AdminReply::ServerError(e) => Err(e@),
    }
}

// ---------------------------------------------------------------------------
// add_link
// ---------------------------------------------------------------------------

/// The JSON body of `add_link`.
pub struct AddLink {
    pub admin_password: String,
    pub name: String,
    pub path: String,
    pub url: String,
}

/// Authorizes an `add_link` request: 403 when the admin password is wrong,
/// else the listing to insert (id 0, the request's name and path, and its
/// url as destination).
pub fn add_link(request: AddLink, admin_password: &AdminPassword) -> (r: Result<
    LinkListing,
    Status,
>)
    ensures
        admin_password.0@ != request.admin_password@ ==> r == Err::<LinkListing, Status>(
            Status::Forbidden,
        ),
        admin_password.0@ == request.admin_password@ ==> (r matches Ok(l) && l@ == (
        LinkListingView {
            id: 0,
            path: request.path@,
            name: request.name@,
            destination: request.url@,
        })),
{
    if !admin_password.admits(request.admin_password.as_str()) {
        return Err(Status::Forbidden);
    }
    Ok(LinkListing { id: 0, path: request.path, name: request.name, destination: request.url })
}

/// After inserting the link: 200 when the insert succeeded, else 500.
pub fn add_link_inserted(inserted: bool) -> (r: Status)
    ensures
        r == (if inserted {
            Status::Success
        } else {
            Status::InternalServerError
        }),
{
    if inserted {
        Status::Success
    } else {
        Status::InternalServerError
    }
}

// ---------------------------------------------------------------------------
// remove_link
// ---------------------------------------------------------------------------

/// The JSON body of `remove_link`.
pub struct RemoveLink {
    pub admin_password: String,
    pub path: String,
}

/// Authorizes a `remove_link` request: 403 when the admin password is
/// wrong, else the path of the link listing to delete.
pub fn remove_link(request: RemoveLink, admin_password: &AdminPassword) -> (r: Result<
    String,
    Status,
>)
    ensures
        admin_password.0@ != request.admin_password@ ==> r == Err::<String, Status>(
            Status::Forbidden,
        ),
        admin_password.0@ == request.admin_password@ ==> (r matches Ok(p) && p@
            == request.path@),
{
    if !admin_password.admits(request.admin_password.as_str()) {
        return Err(Status::Forbidden);
    }
    Ok(request.path)
}

/// After deleting the link listing: 200 when exactly one row went, 404 when
/// another number did, 500 with the error when the delete failed.
pub fn remove_link_deleted(deleted: Result<usize, String>) -> (r: AdminReply)
    ensures
        admin_reply_view(r) == delete_reply_spec(deleted),
{
    match deleted {
        Ok(n) => if n == 1 {
            AdminReply::Respond(Status::Success)
        } else {
            AdminReply::Respond(Status::NotFound)
        },
        Err(e) => AdminReply::ServerError(e),
    }
}

// ---------------------------------------------------------------------------
// remove_file: delete the listing, then the file on disk.
// ---------------------------------------------------------------------------

/// The JSON body of `remove_file`.
pub struct RemoveFile {
    pub admin_password: String,
    pub name: String,
}

/// Authorizes a `remove_file` request: 403 when the admin password is
/// wrong, else the path of the file listing to delete.
pub fn remove_file(request: RemoveFile, admin_password: &AdminPassword) -> (r: Result<
    String,
    Status,
>)
    ensures
        admin_password.0@ != request.admin_password@ ==> r == Err::<String, Status>(
            Status::Forbidden,
        ),
        admin_password.0@ == request.admin_password@ ==> (r matches Ok(p) && p@
            == request.name@),
{
    if !admin_password.admits(request.admin_password.as_str()) {
        return Err(Status::Forbidden);
    }
    Ok(request.name)
}

/// The next step of `remove_file` after the database delete.
#[derive(Debug)]
pub enum RemoveFileAction {
    /// Answer; nothing more to do.
    Reply(AdminReply),
    /// Remove the file at this path from disk.
    Unlink(String),
}

/// After deleting the listing of `name`: when exactly one row went, remove
/// `files/{name}` from disk; when another number did, 404; when the delete
/// failed, 500 with the error.
pub fn remove_file_deleted(name: &str, deleted: Result<usize, String>) -> (r: RemoveFileAction)
    ensures
        deleted == Ok::<usize, String>(1) ==> (r matches RemoveFileAction::Unlink(p) && p@
            == stored_file_path(name@)),
        deleted != Ok::<usize, String>(1) ==> (r matches RemoveFileAction::Reply(a)
            && admin_reply_view(a) == delete_reply_spec(deleted)),
{
    match deleted {
        Ok(n) => if n == 1 {
            RemoveFileAction::Unlink(stored_file(name))
        } else {
            RemoveFileAction::Reply(AdminReply::Respond(Status::NotFound))
        },
        Err(e) => RemoveFileAction::Reply(AdminReply::ServerError(e)),
    }
}

/// After removing the file from disk: 200 when that worked, else 500 with
/// the error.
pub fn remove_file_unlinked(unlinked: Result<(), String>) -> (r: AdminReply)
    ensures
        admin_reply_view(r) == match unlinked {
            Ok(_) => Ok::<Status, Seq<char>>(Status::Success),
            Err(e) => Err(e@),
        },
{
    match unlinked {
        Ok(_) => AdminReply::Respond(Status::Success),
        Err(e) => AdminReply::ServerError(e),
    }
}

} // verus!
