use website::admin::{add_file, parse_upload, AdminPassword};
use website::database::FileListing;
use website::files::{get_files, get_locked_file, mask_password, LockedFileReply, LockedFileRequest};
use website::pages::get_static_file;
use website::status::Status;

#[test]
fn upload_body_reads_back_its_fields() {
    let contents: &[u8] = b"a,b,,c\n\x00";
    let mut body = Vec::new();
    body.extend_from_slice(b"root");
    body.push(b',');
    body.extend_from_slice(b"photo.jpg");
    body.push(b',');
    body.extend_from_slice(b"pw");
    body.push(b',');
    body.extend_from_slice(contents);
    let u = parse_upload(&body).unwrap();
    assert_eq!(u.admin_password, b"root");
    assert_eq!(u.name, b"photo.jpg");
    assert_eq!(u.password, b"pw");
    assert_eq!(u.contents, Some(contents));
}

#[test]
fn uploaded_password_guards_the_file() {
    let admin = AdminPassword("root".to_string());
    let locked = add_file(b"root,diary.txt,s3cret,dear diary", &admin).ok().unwrap();
    let listing = Some(FileListing {
        id: locked.listing.id,
        path: locked.listing.path.clone(),
        password: locked.listing.password.clone(),
    });
    assert_eq!(get_files("diary.txt", &listing), "src/pages/enter_password.html");
    let right = LockedFileRequest { password: "s3cret".to_string(), path: "diary.txt".to_string() };
    match get_locked_file(&right, &listing) {
        LockedFileReply::Serve(p) => assert_eq!(p, "files/diary.txt"),
        other => panic!("unexpected {:?}", other),
    }
    let wrong = LockedFileRequest { password: "guess".to_string(), path: "diary.txt".to_string() };
    assert!(matches!(get_locked_file(&wrong, &listing), LockedFileReply::Forbidden));

    let open = add_file(b"root,notes.txt,,hello", &admin).ok().unwrap();
    let listing = Some(FileListing {
        id: open.listing.id,
        path: open.listing.path.clone(),
        password: open.listing.password.clone(),
    });
    assert_eq!(get_files("notes.txt", &listing), open.file_path);
}

#[test]
fn wrong_admin_password_is_refused_whatever_the_upload() {
    let admin = AdminPassword("root".to_string());
    for body in [&b"rot,a,,x"[..], b"Root,a,b,", b"root ,a,,"] {
        assert_eq!(add_file(body, &admin).err(), Some(Status::Forbidden));
    }
}

#[test]
fn masked_listing_keeps_no_password() {
    let m = mask_password(&FileListing {
        id: 9,
        path: "p".to_string(),
        password: Some("hunter2".to_string()),
    });
    assert_eq!(m.password.as_deref(), Some("locked"));
    assert_eq!(m.id, 9);
    assert_eq!(m.path, "p");
}

#[test]
fn only_listed_static_files_are_served() {
    for (folder, file) in [("images", "piha.jpg"), ("images", "topo_map.jpg")] {
        let p = get_static_file(folder, file).unwrap();
        assert!(p.starts_with("src/static/"));
    }
    assert_eq!(get_static_file("style", "../../site.db"), None);
    assert_eq!(get_static_file("", ""), None);
}
