use heic2jpg::paths::{extension, file_name, file_stem, is_candidate, output_path};

#[test]
fn file_name_follows_the_last_separator() {
    assert_eq!(file_name("/photos/2024/img.heic"), "img.heic");
    assert_eq!(file_name("img.heic"), "img.heic");
    assert_eq!(file_name("/photos/2024/"), "");
    assert_eq!(file_name(""), "");
}

#[test]
fn extension_is_what_follows_the_last_dot() {
    assert_eq!(extension("a/b.heic"), Some("heic".to_string()));
    assert_eq!(extension("a/b.tar.gz"), Some("gz".to_string()));
    assert_eq!(extension("a/b."), Some("".to_string()));
    assert_eq!(extension("a/b"), None);
    assert_eq!(extension("a.d/b"), None);
    assert_eq!(extension("a/.heic"), None);
    assert_eq!(extension("a/.."), None);
    assert_eq!(extension("a/..heic"), Some("heic".to_string()));
}

#[test]
fn stem_is_the_name_without_extension() {
    assert_eq!(file_stem("a/b.heic"), "b");
    assert_eq!(file_stem("a/b.c.heic"), "b.c");
    assert_eq!(file_stem("a/b"), "b");
    assert_eq!(file_stem("a/.hidden"), ".hidden");
    assert_eq!(file_stem("a/.."), "..");
    assert_eq!(file_stem("a/"), "");
}

#[test]
fn paths_of_files_agree_with_std() {
    let samples = [
        "/photos/img.heic",
        "img.HEIC",
        "a/b/c.d.e",
        "a/.profile",
        "a/..b",
        "x/y.",
        "/r/ü.HeIc",
        "plain",
        "a.b/c",
    ];
    for sample in samples {
        let path = std::path::Path::new(sample);
        assert_eq!(
            Some(file_name(sample)),
            path.file_name().map(|n| n.to_str().unwrap().to_string())
        );
        assert_eq!(
            Some(file_stem(sample)),
            path.file_stem().map(|n| n.to_str().unwrap().to_string())
        );
        assert_eq!(
            extension(sample),
            path.extension().map(|n| n.to_str().unwrap().to_string())
        );
    }
}

#[test]
fn candidates_have_the_source_extension_in_any_case() {
    assert!(is_candidate("/in/a.heic"));
    assert!(is_candidate("/in/a.HEIC"));
    assert!(is_candidate("/in/deep/er/a.HeIc"));
    assert!(is_candidate("a.b.heic"));
    assert!(!is_candidate("/in/a.png"));
    assert!(!is_candidate("/in/a.jpg"));
    assert!(!is_candidate("/in/a.heic.jpg"));
    assert!(!is_candidate("/in/a.heicx"));
    assert!(!is_candidate("/in/a.hei"));
    assert!(!is_candidate("/in/.heic"));
    assert!(!is_candidate("/in/heic"));
    assert!(!is_candidate("/in.heic/a"));
    assert!(!is_candidate("/in/a.heic/"));
    assert!(!is_candidate(""));
}

#[test]
fn output_goes_directly_into_the_output_root() {
    assert_eq!(output_path("/out", "/in/a/img.heic"), "/out/img.jpg");
    assert_eq!(output_path("/out/", "/in/a/img.heic"), "/out/img.jpg");
    assert_eq!(output_path("", "/in/a/img.heic"), "img.jpg");
    assert_eq!(output_path("out", "img.HEIC"), "out/img.jpg");
    assert_eq!(output_path("/out", "/in/a.b.heic"), "/out/a.b.jpg");
    assert_eq!(output_path("/", "/in/a.heic"), "/a.jpg");
}

#[test]
fn output_path_agrees_with_std_join() {
    for root in ["/out", "/out/", "", "rel/dir", "/"] {
        let expected = std::path::Path::new(root).join("img.jpg");
        assert_eq!(output_path(root, "/in/x/img.heic"), expected.to_str().unwrap());
    }
}
