use vstd::prelude::*;

verus! {

/// The text of an optional string, as a model value.
pub open spec fn opt_text(o: Option<String>) -> Option<Seq<char>> {
    match o {
        Some(s) => Some(s@),
        None => None,
    }
}

/// A row of the `files` table: a file stored under `files/`, with an
/// optional password that locks it.
#[derive(Debug)]
pub struct FileListing {
    pub id: usize,
    pub path: String,
    pub password: Option<String>,
}

/// The model of a file listing: its id, path and password as text.
pub struct FileListingView {
    pub id: usize,
    pub path: Seq<char>,
    pub password: Option<Seq<char>>,
}

impl View for FileListing {
    type V = FileListingView;

    open spec fn view(&self) -> FileListingView {
        FileListingView { id: self.id, path: self.path@, password: opt_text(self.password) }
    }
}

/// A row of the `links` table: the short path `/links/{path}` redirects to
/// `destination`.
#[derive(Debug)]
pub struct LinkListing {
    pub id: usize,
    pub path: String,
    pub name: String,
    pub destination: String,
}

/// The model of a link listing.
pub struct LinkListingView {
    pub id: usize,
    pub path: Seq<char>,
    pub name: Seq<char>,
    pub destination: Seq<char>,
}

impl View for LinkListing {
    type V = LinkListingView;

    open spec fn view(&self) -> LinkListingView {
        LinkListingView {
            id: self.id,
            path: self.path@,
            name: self.name@,
            destination: self.destination@,
        }
    }
}

} // verus!
