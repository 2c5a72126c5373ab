use taicho::domain::upload::{
    file_name_with, is_allowed_mime_type, mime_for_extension, mime_from_extension,
    mime_from_extension_with, ACCEPTED_TYPES_DISPLAY,
};
use taicho::domain::FileSource;

#[test]
fn file_source_bytes_name_and_size() {
    let src = FileSource::Bytes {
        name: "notes.txt".to_string(),
        mime: "text/plain".to_string(),
        data: vec![1, 2, 3, 4],
    };
    assert_eq!(src.name(), "notes.txt");
    assert_eq!(src.size_hint(None), Some(4));
}

#[test]
fn file_source_path_size_hint_from_metadata() {
    let path = "tests/upload.rs";
    let src = FileSource::Path(path.to_string());
    let metadata_len = std::path::Path::new(path).metadata().ok().map(|m| m.len());
    let hint = src.size_hint(metadata_len);
    assert!(hint.is_some());
    assert!(hint.unwrap() > 0);
    let name = src.name();
    assert_eq!(name, "upload.rs");
}

#[test]
fn allowed_mime_types() {
    assert!(is_allowed_mime_type("text/plain"));
    assert!(is_allowed_mime_type("text/html"));
    assert!(is_allowed_mime_type("text/csv"));
    assert!(is_allowed_mime_type("application/pdf"));
    assert!(is_allowed_mime_type("application/json"));
    assert!(is_allowed_mime_type("image/png"));
    assert!(is_allowed_mime_type("image/jpeg"));
    assert!(is_allowed_mime_type("audio/mpeg"));
    assert!(is_allowed_mime_type("audio/wav"));
    assert!(is_allowed_mime_type("video/mp4"));
    assert!(is_allowed_mime_type("video/webm"));
}

#[test]
fn disallowed_mime_types() {
    assert!(!is_allowed_mime_type("application/octet-stream"));
    assert!(!is_allowed_mime_type("application/zip"));
    assert!(!is_allowed_mime_type("application/javascript"));
    assert!(!is_allowed_mime_type("font/woff2"));
    assert!(!is_allowed_mime_type("model/gltf-binary"));
    assert!(!is_allowed_mime_type(""));
    assert!(!is_allowed_mime_type("   "));
}

#[test]
fn mime_from_extension_known() {
    assert_eq!(mime_from_extension("notes.txt"), Some("text/plain".to_owned()));
    assert_eq!(mime_from_extension("data.json"), Some("application/json".to_owned()));
    assert_eq!(mime_from_extension("doc.pdf"), Some("application/pdf".to_owned()));
    assert_eq!(mime_from_extension("photo.jpg"), Some("image/jpeg".to_owned()));
    assert_eq!(mime_from_extension("song.mp3"), Some("audio/mpeg".to_owned()));
    assert_eq!(mime_from_extension("clip.mp4"), Some("video/mp4".to_owned()));
}

#[test]
fn mime_from_extension_unknown() {
    assert_eq!(mime_from_extension("file.unknownext"), None);
    assert_eq!(mime_from_extension("noext"), None);
}

#[test]
fn mime_from_extension_case_insensitive() {
    assert_eq!(mime_from_extension("FILE.PDF"), Some("application/pdf".to_owned()));
    assert_eq!(mime_from_extension("image.PNG"), Some("image/png".to_owned()));
}

#[test]
fn allowed_mime_is_trimmed_first() {
    assert!(is_allowed_mime_type("  image/png\t"));
    assert!(is_allowed_mime_type("\u{3000}application/json\n"));
    assert!(!is_allowed_mime_type("application/pdfx"));
    assert!(!is_allowed_mime_type("textual/plain"));
    assert!(!is_allowed_mime_type("\u{a0}\u{2028}"));
}

#[test]
fn mime_from_extension_follows_path_rules() {
    assert_eq!(mime_from_extension("dir.d/archive.tar.gz"), None);
    assert_eq!(mime_from_extension("dir/report.final.PDF"), Some("application/pdf".to_owned()));
    assert_eq!(mime_from_extension(".gitignore"), None);
    assert_eq!(mime_from_extension("x/.env"), None);
    assert_eq!(mime_from_extension("a/b.env"), Some("text/plain".to_owned()));
    assert_eq!(mime_from_extension("notes.md/"), Some("text/plain".to_owned()));
    assert_eq!(mime_from_extension("notes.md/."), Some("text/plain".to_owned()));
    assert_eq!(mime_from_extension("notes.md/.."), None);
    assert_eq!(mime_from_extension("name."), None);
    assert_eq!(mime_from_extension(""), None);
    assert_eq!(mime_from_extension("/"), None);
    assert_eq!(mime_from_extension("movie.M2TS"), Some("video/mp2t".to_owned()));
    assert_eq!(mime_from_extension("page.ts"), Some("text/plain".to_owned()));
}

#[test]
fn mime_for_extension_table() {
    assert_eq!(mime_for_extension("svgz"), Some("image/svg+xml".to_owned()));
    assert_eq!(mime_for_extension("MiDi"), Some("audio/midi".to_owned()));
    assert_eq!(mime_for_extension("mkv"), Some("video/x-matroska".to_owned()));
    assert_eq!(mime_for_extension("jsonl"), Some("application/json".to_owned()));
    assert_eq!(mime_for_extension("exe"), None);
    assert_eq!(mime_for_extension(""), None);
}

#[test]
fn guessed_mime_types_are_allowed() {
    for ext in ["txt", "ts", "json", "pdf", "png", "svg", "heic", "mp3", "m4a", "wma", "mp4", "mts"] {
        let mime = mime_for_extension(ext).unwrap();
        assert!(is_allowed_mime_type(&mime), "{mime}");
    }
}

#[test]
fn file_source_path_names() {
    assert_eq!(FileSource::Path("/tmp/x/report.pdf".to_string()).name(), "report.pdf");
    assert_eq!(FileSource::Path("/".to_string()).name(), "");
    assert_eq!(FileSource::Path("a/..".to_string()).name(), "");
    assert_eq!(FileSource::Path("a/b//".to_string()).name(), "b");
    assert_eq!(FileSource::Path("a/b/.".to_string()).name(), "b");
    assert_eq!(FileSource::Path("a/b".to_string()).size_hint(Some(7)), Some(7));
    assert_eq!(FileSource::Path("a/b".to_string()).size_hint(None), None);
    assert!(ACCEPTED_TYPES_DISPLAY.contains("image/*"));
}

#[test]
fn file_name_matches_std_path() {
    for p in ["a/b.txt", "a/b/", "a/b/.", "./c", ".", "..", "a/..", "/", "", "x//y", "x/./", "/.hidden"] {
        let ours = taicho::domain::upload::file_name(p);
        let std_name = std::path::Path::new(p).file_name().and_then(|n| n.to_str());
        assert_eq!(ours, std_name, "{p}");
        if let Some(n) = ours {
            let ext = taicho::domain::upload::extension(n);
            let std_ext = std::path::Path::new(p).extension().and_then(|e| e.to_str());
            assert_eq!(ext, std_ext, "{p}");
        }
    }
}

#[test]
fn windows_separators_are_read_on_windows() {
    assert_eq!(file_name_with("C:\\Users\\me\\report.pdf", '\\'), Some("report.pdf"));
    assert_eq!(file_name_with("C:\\Users\\me\\report.pdf", '/'), Some("C:\\Users\\me\\report.pdf"));
    assert_eq!(file_name_with("dir\\sub/notes.txt\\", '\\'), Some("notes.txt"));
    assert_eq!(mime_from_extension_with("dir\\data.JSON", '\\'), Some("application/json".to_owned()));
    assert_eq!(mime_from_extension_with("dir.x\\data", '/'), None);
    assert_eq!(mime_from_extension_with("dir.x\\data", '\\'), None);
    assert_eq!(file_name_with("C:\\", '\\'), None);
    assert_eq!(file_name_with("C:", '\\'), None);
    assert_eq!(file_name_with("C:notes.txt", '\\'), Some("notes.txt"));
    assert_eq!(file_name_with("C:notes.txt", '/'), Some("C:notes.txt"));
    assert_eq!(file_name_with("c:/docs/a.PDF", '\\'), Some("a.PDF"));
    assert_eq!(mime_from_extension_with("C:report.pdf", '\\'), Some("application/pdf".to_owned()));
    let here = std::path::MAIN_SEPARATOR;
    for p in ["a\\b.txt", "x/y\\", "c.md"] {
        assert_eq!(FileSource::Path(p.to_string()).name(), file_name_with(p, here).unwrap_or(""));
        assert_eq!(mime_from_extension(p), mime_from_extension_with(p, here));
    }
}
