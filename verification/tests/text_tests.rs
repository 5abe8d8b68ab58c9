use astra_launcher::text::{chars_of, contains_text, trim_leading};

#[test]
fn trim_leading_removes_the_run_at_the_start() {
    assert_eq!(trim_leading("v2.3.0", 'v'), "2.3.0");
    assert_eq!(trim_leading("vvv2", 'v'), "2");
    assert_eq!(trim_leading("2.3.0", 'v'), "2.3.0");
    assert_eq!(trim_leading("", 'v'), "");
    assert_eq!(trim_leading("v", 'v'), "");
    assert_eq!(trim_leading("av", 'v'), "av");
    assert_eq!(trim_leading("vév", 'v'), "év");
}

#[test]
fn chars_of_gives_every_character() {
    assert_eq!(chars_of("aé😀"), vec!['a', 'é', '😀']);
    assert_eq!(chars_of(""), Vec::<char>::new());
}

#[test]
fn contains_text_finds_a_part_anywhere() {
    assert!(contains_text("game-windows-x64.zip", "windows"));
    assert!(contains_text("windows", "windows"));
    assert!(contains_text("xwindows", "windows"));
    assert!(contains_text("windowsx", "windows"));
    assert!(!contains_text("window", "windows"));
    assert!(!contains_text("win-dows", "windows"));
    assert!(!contains_text("", "windows"));
}

#[test]
fn empty_text_is_found_everywhere() {
    assert!(contains_text("abc", ""));
    assert!(contains_text("", ""));
}

#[test]
fn contains_text_agrees_with_std() {
    let hays = ["", "a", "ab", "aab", "abab", "ababa", "éaé", "linux-macos"];
    let needles = ["", "a", "b", "ab", "ba", "aba", "é", "aé", "macos", "abc"];
    for hay in hays {
        for needle in needles {
            assert_eq!(contains_text(hay, needle), hay.contains(needle));
        }
    }
}
