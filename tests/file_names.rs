use chat_ui::file::{get_text, is_video, VIDEO_FILE_EXTENSIONS};

#[test]
fn test_get_text1() {
    let input = String::from("very_long_file_name.txt");
    let (name, formatted) = get_text(input.clone());
    assert_eq!(input, name);
    assert_eq!(formatted, String::from("very_lo...me.txt"));
}

#[test]
fn test_get_text2() {
    let input = String::from("very_long_file_name");
    let (name, formatted) = get_text(input.clone());
    assert_eq!(input, name);
    assert_eq!(formatted, String::from("very_lo...me"));
}

#[test]
fn test_get_text3() {
    let input = String::from("name.txt");
    let (name, formatted) = get_text(input.clone());
    assert_eq!(input, name);
    assert_eq!(formatted, input);
}

#[test]
fn test_get_text4() {
    let input = String::from("name");
    let (name, formatted) = get_text(input.clone());
    assert_eq!(input, name);
    assert_eq!(formatted, input);
}

#[test]
fn long_png_name_is_shortened() {
    let input = String::from("a_very_long_filename_indeed.png");
    let (name, formatted) = get_text(input.clone());
    assert_eq!(name, "a_very_long_filename_indeed.png");
    assert_eq!(formatted, "a_very_...ed.png");
    assert!(formatted.chars().count() < name.chars().count());
}

#[test]
fn stem_of_fifteen_characters_is_kept() {
    let input = String::from("abcdefghijklmno.txt");
    let (_, formatted) = get_text(input.clone());
    assert_eq!(formatted, input);
}

#[test]
fn stem_of_sixteen_characters_is_shortened() {
    let (_, formatted) = get_text(String::from("abcdefghijklmnop.txt"));
    assert_eq!(formatted, "abcdefg...op.txt");
}

#[test]
fn only_last_extension_is_kept() {
    let (_, formatted) = get_text(String::from("archive_of_many_files.tar.gz"));
    assert_eq!(formatted, "archive...ar.gz");
}

#[test]
fn leading_dot_starts_no_extension() {
    let (_, formatted) = get_text(String::from(".a_hidden_configuration"));
    assert_eq!(formatted, ".a_hidd...on");
}

#[test]
fn empty_name_is_kept() {
    let (name, formatted) = get_text(String::new());
    assert_eq!(name, "");
    assert_eq!(formatted, "");
}

#[test]
fn characters_not_bytes_are_counted() {
    let (_, formatted) = get_text(String::from("ééééééééééééééé.txt"));
    assert_eq!(formatted, "ééééééééééééééé.txt");
    let (_, formatted) = get_text(String::from("éééééééééééééééé.txt"));
    assert_eq!(formatted, "ééééééé...éé.txt");
}

#[test]
fn every_video_extension_is_a_video() {
    for ext in [".mp4", ".mov", ".mkv", ".avi", ".flv", ".wmv", ".m4v", ".3gp"] {
        assert!(is_video(format!("clip{ext}")), "{ext}");
    }
}

#[test]
fn video_extension_in_any_case_is_a_video() {
    assert!(is_video(String::from("clip.MP4")));
    assert!(is_video(String::from("clip.Mov")));
    assert!(is_video(String::from("clip.3GP")));
}

#[test]
fn kelvin_sign_lowercases_to_k() {
    assert!(is_video(String::from("clip.m\u{212A}v")));
    assert!(is_video(String::from("clip.M\u{212A}V")));
    assert!(!is_video(String::from("clip.m\u{212A}4")));
}

#[test]
fn other_names_are_not_videos() {
    assert!(!is_video(String::from("clip")));
    assert!(!is_video(String::from("mp4")));
    assert!(!is_video(String::from(".mp4")));
    assert!(!is_video(String::from("clip.txt")));
    assert!(!is_video(String::from("clip.mp4.txt")));
    assert!(!is_video(String::from("clip.mp45")));
    assert!(!is_video(String::from("clip.")));
    assert!(!is_video(String::new()));
}

#[test]
fn stem_comes_from_last_component() {
    let (_, formatted) = get_text(String::from("abcdefghijklmnopq.x/y"));
    assert_eq!(formatted, "abcdefghijklmnopq.x/y");
    let (_, formatted) = get_text(String::from("x.y/abcdefghijklmnopq"));
    assert_eq!(formatted, "x.y/abc...pq");
    assert!(formatted.chars().count() < "x.y/abcdefghijklmnopq".chars().count());
    let (_, formatted) = get_text(String::from("dir/very_long_file_name.txt"));
    assert_eq!(formatted, "dir/ver...me.txt");
}

#[test]
fn trailing_separators_and_dots_are_skipped() {
    let (_, formatted) = get_text(String::from("very_long_file_name.txt/"));
    assert_eq!(formatted, "very_lo...me.txt");
    let (_, formatted) = get_text(String::from("very_long_file_name.txt//./"));
    assert_eq!(formatted, "very_lo...me.txt");
    assert!(is_video(String::from("dir.mp4/")));
    assert!(is_video(String::from("a/b.mp4/.")));
}

#[test]
fn paths_without_a_file_name() {
    for path in ["/", ".", "..", "a/..", "very_long_directory_name/..", "./"] {
        let (_, formatted) = get_text(String::from(path));
        assert_eq!(formatted, path);
        assert!(!is_video(String::from(path)));
    }
}

#[test]
fn leading_dot_name_in_a_directory_has_no_extension() {
    assert!(!is_video(String::from("x/.mp4")));
    assert!(is_video(String::from("x/a.mp4")));
}

#[test]
fn listed_extensions_are_videos() {
    assert_eq!(VIDEO_FILE_EXTENSIONS.len(), 8);
    for ext in VIDEO_FILE_EXTENSIONS {
        assert!(is_video(format!("clip{ext}")));
    }
}
