use website::database::{FileListing, LinkListing};
use website::files::{
    enter_password_page, file_not_found_page, get_files, get_files_json, get_locked_file,
    mask_password, mask_passwords, stored_file, LockedFileReply, LockedFileRequest,
};
use website::pages::{
    get_links, get_projects, project_page_opened, static_file_opened, AfterOpen, get_sitemap, get_static_file, index, is_static_file, redirect_page,
    static_files, LinkPage,
};

fn file(id: usize, path: &str, password: Option<&str>) -> FileListing {
    FileListing { id, path: path.to_string(), password: password.map(|p| p.to_string()) }
}

#[test]
fn passwords_are_masked() {
    let listing = vec![
        file(1, "open.txt", None),
        file(2, "secret.txt", Some("swordfish")),
        file(3, "empty.txt", Some("")),
    ];
    let masked = mask_passwords(&listing);
    assert_eq!(masked.len(), 3);
    assert_eq!(masked[0].id, 1);
    assert_eq!(masked[0].path, "open.txt");
    assert_eq!(masked[0].password, None);
    assert_eq!(masked[1].id, 2);
    assert_eq!(masked[1].path, "secret.txt");
    assert_eq!(masked[1].password, Some("locked".to_string()));
    assert_eq!(masked[2].password, Some("locked".to_string()));
}

#[test]
fn masking_twice_is_masking_once() {
    let once = mask_password(&file(7, "x", Some("pw")));
    let twice = mask_password(&once);
    assert_eq!(twice.id, once.id);
    assert_eq!(twice.path, once.path);
    assert_eq!(twice.password, once.password);
}

#[test]
fn files_json_is_empty_when_the_database_fails() {
    assert!(get_files_json(None).is_empty());
    let shown = get_files_json(Some(vec![file(1, "a", Some("b"))]));
    assert_eq!(shown.len(), 1);
    assert_eq!(shown[0].password, Some("locked".to_string()));
}

#[test]
fn get_files_chooses_the_page() {
    assert_eq!(get_files("a.txt", &None), "src/pages/file_not_found.html");
    assert_eq!(get_files("a.txt", &Some(file(1, "a.txt", None))), "files/a.txt");
    assert_eq!(get_files("a.txt", &Some(file(1, "a.txt", Some("")))), "files/a.txt");
    assert_eq!(
        get_files("a.txt", &Some(file(1, "a.txt", Some("pw")))),
        "src/pages/enter_password.html"
    );
    assert_eq!(get_files("dir/b.png", &Some(file(2, "dir/b.png", None))), "files/dir/b.png");
}

#[test]
fn locked_file_needs_the_right_password() {
    let request = LockedFileRequest { password: "pw".to_string(), path: "a.txt".to_string() };
    assert!(matches!(get_locked_file(&request, &None), LockedFileReply::NotFound));
    match get_locked_file(&request, &Some(file(1, "a.txt", Some("pw")))) {
        LockedFileReply::Serve(p) => assert_eq!(p, "files/a.txt"),
        other => panic!("unexpected {:?}", other),
    }
    assert!(matches!(
        get_locked_file(&request, &Some(file(1, "a.txt", Some("PW")))),
        LockedFileReply::Forbidden
    ));
    assert!(matches!(
        get_locked_file(&request, &Some(file(1, "a.txt", None))),
        LockedFileReply::Forbidden
    ));
    let empty = LockedFileRequest { password: "".to_string(), path: "e.txt".to_string() };
    match get_locked_file(&empty, &Some(file(1, "e.txt", Some("")))) {
        LockedFileReply::Serve(p) => assert_eq!(p, "files/e.txt"),
        other => panic!("unexpected {:?}", other),
    }
}

#[test]
fn static_files_are_a_fixed_list() {
    assert_eq!(static_files().len(), 6);
    assert!(is_static_file("src/static/style/main.css"));
    assert!(!is_static_file("src/static/style/other.css"));
    assert_eq!(
        get_static_file("images", "pfp.jpg"),
        Some("src/static/images/pfp.jpg".to_string())
    );
    assert_eq!(
        get_static_file("style", "main.css"),
        Some("src/static/style/main.css".to_string())
    );
    assert_eq!(get_static_file("images", "missing.jpg"), None);
    assert_eq!(get_static_file("..", "main.rs"), None);
    assert_eq!(get_static_file("images/..", "images/pfp.jpg"), None);
}

#[test]
fn links_redirect() {
    let page = redirect_page("https://example.com/a?b=c");
    assert_eq!(
        page,
        "<!DOCTYPE HTML><html><head><meta http-equiv=\"refresh\" content=\"0; URL=https://example.com/a?b=c\"/></head></html>"
    );
    let link = LinkListing {
        id: 3,
        path: "ex".to_string(),
        name: "Example".to_string(),
        destination: "https://example.com".to_string(),
    };
    match get_links(&Some(link)) {
        LinkPage::Redirect(p) => assert_eq!(p, redirect_page("https://example.com")),
        other => panic!("unexpected {:?}", other),
    }
    match get_links(&None) {
        LinkPage::NotFound(p) => assert_eq!(p, "src/pages/file_not_found.html"),
        other => panic!("unexpected {:?}", other),
    }
}

#[test]
fn fixed_pages() {
    assert_eq!(index(), "src/index.html");
    assert_eq!(get_sitemap(), "src/pages/sitemap.html");
    assert_eq!(file_not_found_page(), "src/pages/file_not_found.html");
    assert_eq!(enter_password_page(), "src/pages/enter_password.html");
    assert_eq!(get_projects("matrix"), "src/pages/projects/matrix.html");
    assert_eq!(stored_file("x/y"), "files/x/y");
}

#[test]
fn after_opening_a_page() {
    assert!(matches!(static_file_opened(true), AfterOpen::ServeOpened));
    assert!(matches!(
        static_file_opened(false),
        AfterOpen::Respond(website::status::Status::NotFound)
    ));
    assert!(matches!(project_page_opened(true), AfterOpen::ServeOpened));
    match project_page_opened(false) {
        AfterOpen::OpenInstead(p) => assert_eq!(p, "src/pages/file_not_found.html"),
        other => panic!("unexpected {:?}", other),
    }
}
