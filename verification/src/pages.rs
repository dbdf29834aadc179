use vstd::prelude::*;

use crate::database::LinkListing;
use crate::files::file_not_found_page;
use crate::status::Status;
use crate::text::{concat3, str_eq};

verus! {

/// The home page.
pub fn index() -> (r: &'static str)
    ensures
        r@ == "src/index.html"@,
{
    "src/index.html"
}

/// The site map page.
pub fn get_sitemap() -> (r: &'static str)
    ensures
        r@ == "src/pages/sitemap.html"@,
{
    "src/pages/sitemap.html"
}

/// What a page handler does once it has tried to open the file it chose.
#[derive(Debug)]
pub enum AfterOpen {
    /// Serve the file that was opened.
    ServeOpened,
    /// Answer with this status and an empty body.
    Respond(Status),
    /// Open and serve this file instead.
    OpenInstead(String),
}

// ---------------------------------------------------------------------------
// get_static_file: only the files of a fixed list are served.
// ---------------------------------------------------------------------------

/// The static files that may be served.
pub open spec fn static_files_spec() -> Seq<Seq<char>> {
    seq![
        "src/static/images/interactive_em.jpg"@,
        "src/static/images/matrix_assistant.jpg"@,
        "src/static/images/pfp.jpg"@,
        "src/static/images/piha.jpg"@,
        "src/static/images/topo_map.jpg"@,
        "src/static/style/main.css"@,
    ]
}

/// The static files that may be served (see `static_files_spec`).
pub fn static_files() -> (r: Vec<&'static str>)
    ensures
        r@.len() == static_files_spec().len(),
        forall|i: int| 0 <= i < r@.len() ==> #[trigger] r@[i]@ == static_files_spec()[i],
{
    vec![
        "src/static/images/interactive_em.jpg",
        "src/static/images/matrix_assistant.jpg",
        "src/static/images/pfp.jpg",
        "src/static/images/piha.jpg",
        "src/static/images/topo_map.jpg",
        "src/static/style/main.css",
    ]
}

/// Whether `path` is one of the static files that may be served.
pub fn is_static_file(path: &str) -> (r: bool)
    ensures
        r == static_files_spec().contains(path@),
{
    let files = static_files();
    let mut i: usize = 0;
    while i < files.len()
        invariant
            i <= files@.len(),
            files@.len() == static_files_spec().len(),
            forall|j: int| 0 <= j < files@.len() ==> #[trigger] files@[j]@ == static_files_spec()[j],
            forall|j: int| 0 <= j < i ==> static_files_spec()[j] != path@,
        decreases files@.len() - i,
    {
        if str_eq(files[i], path) {
            assert(static_files_spec()[i as int] == path@);
            return true;
        }
        i = i + 1;
    }
    false
}

/// The path asked for by `GET /static/{folder}/{file}`.
pub open spec fn static_path(folder: Seq<char>, file: Seq<char>) -> Seq<char> {
    "src/static/"@ + folder + "/"@ + file
}

/// The file to serve for `GET /static/{folder}/{file}`: the requested
/// path when it is on the list of static files, and `None` (403) otherwise.
pub fn get_static_file(folder: &str, file: &str) -> (r: Option<String>)
    ensures
        r is Some <==> static_files_spec().contains(static_path(folder@, file@)),
        r matches Some(p) ==> p@ == static_path(folder@, file@),
{
    let mut full_path = String::from_str("src/static/");
    full_path.append(folder);
    full_path.append("/");
    full_path.append(file);
    assert(full_path@ == static_path(folder@, file@));
    if is_static_file(full_path.as_str()) {
        Some(full_path)
    } else {
        None
    }
}

/// The static files are exactly these six, and `GET /static/{folder}/{file}`
/// serves `src/static/{folder}/{file}` exactly when it is one of them.
pub proof fn static_files_are_the_six(folder: Seq<char>, file: Seq<char>, path: Seq<char>)
    ensures
        static_files_spec().contains(path) <==> (path == "src/static/images/interactive_em.jpg"@
            || path == "src/static/images/matrix_assistant.jpg"@ || path
            == "src/static/images/pfp.jpg"@ || path == "src/static/images/piha.jpg"@ || path
            == "src/static/images/topo_map.jpg"@ || path == "src/static/style/main.css"@),
        static_path(folder, file) == "src/static/"@ + folder + "/"@ + file,
{
    let s = static_files_spec();
    assert(s.len() == 6);
    if path == "src/static/images/interactive_em.jpg"@ {
        assert(s[0] == path);
    }
    if path == "src/static/images/matrix_assistant.jpg"@ {
        assert(s[1] == path);
    }
    if path == "src/static/images/pfp.jpg"@ {
        assert(s[2] == path);
    }
    if path == "src/static/images/piha.jpg"@ {
        assert(s[3] == path);
    }
    if path == "src/static/images/topo_map.jpg"@ {
        assert(s[4] == path);
    }
    if path == "src/static/style/main.css"@ {
        assert(s[5] == path);
    }
    if s.contains(path) {
        let i = choose|i: int| 0 <= i < s.len() && s[i] == path;
        assert(0 <= i < 6);
    }
}

/// After trying to open a listed static file: serve it when it opened,
/// else answer 404.
pub fn static_file_opened(opened: bool) -> (r: AfterOpen)
    ensures
        opened ==> r is ServeOpened,
        !opened ==> r == AfterOpen::Respond(Status::NotFound),
{
    if opened {
        AfterOpen::ServeOpened
    } else {
        AfterOpen::Respond(Status::NotFound)
    }
}

// ---------------------------------------------------------------------------
// get_links: a short link answers with a page that redirects at once.
// ---------------------------------------------------------------------------

/// The page that sends the browser on to `destination` at once.
pub open spec fn redirect_page_spec(destination: Seq<char>) -> Seq<char> {
    "<!DOCTYPE HTML><html><head><meta http-equiv=\"refresh\" content=\"0; URL="@ + destination
        + "\"/></head></html>"@
}

/// The page that sends the browser on to `destination` at once.
pub fn redirect_page(destination: &str) -> (r: String)
    ensures
        r@ == redirect_page_spec(destination@),
{
    concat3(
        "<!DOCTYPE HTML><html><head><meta http-equiv=\"refresh\" content=\"0; URL=",
        destination,
        "\"/></head></html>",
    )
}

/// The redirect page holds the whole destination, unchanged, right after its
/// fixed 70-character head and before its fixed 17-character tail; so
/// different destinations give different pages.
pub proof fn redirect_page_holds_the_destination(d: Seq<char>, e: Seq<char>)
    ensures
        redirect_page_spec(d).len() == 70int + d.len() + 17,
        redirect_page_spec(d).subrange(70, 70int + d.len()) == d,
        redirect_page_spec(d).subrange(0, 70)
            == "<!DOCTYPE HTML><html><head><meta http-equiv=\"refresh\" content=\"0; URL="@,
        redirect_page_spec(d).subrange(70int + d.len(), 70int + d.len() + 17)
            == "\"/></head></html>"@,
        redirect_page_spec(d) == redirect_page_spec(e) ==> d == e,
{
    reveal_strlit("<!DOCTYPE HTML><html><head><meta http-equiv=\"refresh\" content=\"0; URL=");
    reveal_strlit("\"/></head></html>");
    let pd = redirect_page_spec(d);
    let pe = redirect_page_spec(e);
    assert(pd.subrange(70, 70int + d.len()) =~= d);
    assert(pd.subrange(0, 70) =~= "<!DOCTYPE HTML><html><head><meta http-equiv=\"refresh\" content=\"0; URL="@);
    assert(pd.subrange(70int + d.len(), 70int + d.len() + 17) =~= "\"/></head></html>"@);
    assert(pe.subrange(70, 70int + e.len()) =~= e);
    if pd == pe {
        assert(d.len() == e.len());
        assert(d =~= e);
    }
}

/// How `GET /links/{path}` is answered.
#[derive(Debug)]
pub enum LinkPage {
    /// The not-found page, at this path.
    NotFound(String),
    /// This HTML page, which redirects to the link's destination.
    Redirect(String),
}

/// Answers `GET /links/{path}`, given the listing of `path`: the not-found
/// page when there is none, else a page that redirects to its destination.
pub fn get_links(link: &Option<LinkListing>) -> (r: LinkPage)
    ensures
        link is None ==> (r matches LinkPage::NotFound(p) && p@
            == "src/pages/file_not_found.html"@),
        link matches Some(l) ==> (r matches LinkPage::Redirect(page) && page@
            == redirect_page_spec(l.destination@)),
{
    match link {
        None => LinkPage::NotFound(String::from_str(file_not_found_page())),
        Some(l) => LinkPage::Redirect(redirect_page(l.destination.as_str())),
    }
}

// ---------------------------------------------------------------------------
// get_projects
// ---------------------------------------------------------------------------

/// The page of a project: `src/pages/projects/{project}.html`.
pub open spec fn project_page_path(project: Seq<char>) -> Seq<char> {
    "src/pages/projects/"@ + project + ".html"@
}

/// The project page path holds the whole project name, unchanged, between
/// `src/pages/projects/` (19 characters) and `.html`; so different projects
/// get different pages.
pub proof fn project_path_holds_the_name(p: Seq<char>, q: Seq<char>)
    ensures
        project_page_path(p).len() == 19int + p.len() + 5,
        project_page_path(p).subrange(0, 19) == "src/pages/projects/"@,
        project_page_path(p).subrange(19, 19int + p.len()) == p,
        project_page_path(p).subrange(19int + p.len(), 24int + p.len()) == ".html"@,
        project_page_path(p) == project_page_path(q) ==> p == q,
{
    reveal_strlit("src/pages/projects/");
    reveal_strlit(".html");
    let pp = project_page_path(p);
    let pq = project_page_path(q);
    assert(pp.subrange(0, 19) =~= "src/pages/projects/"@);
    assert(pp.subrange(19, 19int + p.len()) =~= p);
    assert(pp.subrange(19int + p.len(), 24int + p.len()) =~= ".html"@);
    assert(pq.subrange(19, 19int + q.len()) =~= q);
    if pp == pq {
        assert(p =~= q);
    }
}

/// The page to serve for `GET /projects/{project}` (the not-found page is
/// served instead when it cannot be opened).
pub fn get_projects(project: &str) -> (r: String)
    ensures
        r@ == project_page_path(project@),
{
    concat3("src/pages/projects/", project, ".html")
}

/// After trying to open the project page: serve it when it opened, else
/// serve the not-found page instead.
pub fn project_page_opened(opened: bool) -> (r: AfterOpen)
    ensures
        opened ==> r is ServeOpened,
        !opened ==> (r matches AfterOpen::OpenInstead(p) && p@
            == "src/pages/file_not_found.html"@),
{
    if opened {
        AfterOpen::ServeOpened
    } else {
        AfterOpen::OpenInstead(String::from_str(file_not_found_page()))
    }
}

} // verus!
