use paste_rs::paste_id::PasteId;
use paste_rs::routes::{index, retrieve, upload, HOST, ID_LENGTH, PASTE_LIMIT_KIB, USAGE};

#[test]
fn settings_of_the_service() {
    assert_eq!(ID_LENGTH, 3);
    assert_eq!(HOST, "http://localhost:8000");
    assert_eq!(PASTE_LIMIT_KIB, 128);
}

#[test]
fn index_is_the_usage_text() {
    assert_eq!(index(), USAGE);
    assert!(index().contains("USAGE"));
    assert!(index().contains("POST /"));
    assert!(index().contains("GET /<id>"));
    assert!(index().contains("retrieves the content for the paste with id `<id>`"));
}

#[test]
fn usage_text_line_by_line() {
    let lines: Vec<&str> = USAGE.lines().collect();
    assert_eq!(
        lines,
        vec![
            "",
            "    USAGE",
            "",
            "      POST /",
            "",
            "          accepts raw data in the body of the request and responds with a URL of",
            "          a page containing the body's content",
            "",
            "      GET /<id>",
            "",
            "          retrieves the content for the paste with id `<id>`",
            "    ",
        ]
    );
}

#[test]
fn upload_answers_with_a_url_that_ends_in_three_alphanumerics() {
    for _ in 0..50 {
        let plan = upload();
        let id = plan.id.to_text();
        assert_eq!(id.chars().count(), 3);
        assert!(id.chars().all(|c| c.is_ascii_alphanumeric()));
        assert_eq!(plan.url, format!("http://localhost:8000/{}", id));
        assert_eq!(plan.file_name, format!("upload/{}", id));
        let tail: Vec<char> = plan.url.chars().rev().take(4).collect();
        assert_eq!(tail.len(), 4);
        assert_eq!(tail[3], '/');
        assert!(tail[..3].iter().all(|c| c.is_ascii_alphanumeric()));
    }
}

#[test]
fn upload_then_retrieve_name_the_same_file() {
    for _ in 0..50 {
        let plan = upload();
        let segment = plan.url.rsplit('/').next().expect("a path segment");
        assert_eq!(segment, plan.id.as_str());
        assert_eq!(retrieve(segment), Some(plan.file_name.clone()));
    }
}

#[test]
fn retrieve_refuses_path_syntax_before_any_lookup() {
    for s in ["../etc/passwd", "..", ".", "a/b", "/", "/abc", "abc/", "a.b", "a-b", "a_b", "a b", "a%2fb", "a\\b", "~", "a,b", "a!"] {
        assert_eq!(retrieve(s), None);
        assert_eq!(PasteId::from_param(s).err(), Some(s));
    }
}

#[test]
fn retrieve_names_the_file_of_a_well_formed_identifier() {
    assert_eq!(retrieve("zzz"), Some("upload/zzz".to_string()));
    assert_eq!(retrieve("0Aa"), Some("upload/0Aa".to_string()));
    assert_eq!(retrieve("abcd"), Some("upload/abcd".to_string()));
    assert_eq!(retrieve(""), Some("upload/".to_string()));
}

#[test]
fn retrieve_twice_names_the_same_file() {
    assert_eq!(retrieve("q7X"), retrieve("q7X"));
}
