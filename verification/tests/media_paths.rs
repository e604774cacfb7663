use taura_auth::is_media_file;

#[test]
fn media_extensions_match_case_insensitively() {
    assert!(is_media_file("photo.jpg"));
    assert!(is_media_file("photo.JPG"));
    assert!(is_media_file("clip.MkV"));
    assert!(is_media_file("scan.tiff"));
    assert!(is_media_file("doc.pdf"));
}

#[test]
fn paths_with_directories_use_the_file_name() {
    assert!(is_media_file("/home/u/pics/a.png"));
    assert!(is_media_file("C:\\Users\\u\\Pictures\\b.HEIC"));
    assert!(!is_media_file("/home/u/pics.jpg/readme"));
}

#[test]
fn non_media_and_odd_names_are_rejected() {
    assert!(!is_media_file("notes.txt"));
    assert!(!is_media_file("archive.tar.gz"));
    assert!(!is_media_file("noextension"));
    assert!(!is_media_file(".bashrc"));
    assert!(!is_media_file("trailingdot."));
    assert!(!is_media_file(""));
}

#[test]
fn hidden_file_with_real_extension_matches() {
    assert!(is_media_file(".cache.png"));
    assert!(is_media_file("/a/.thumb.jpeg"));
}
