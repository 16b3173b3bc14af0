use find_videos::filter::{accept_entry, is_hidden, is_need_scan, is_sys};

#[test]
fn hidden_entries_are_rejected() {
    assert!(is_hidden(".hidden.mp4"));
    assert!(!is_hidden("a.mp4"));
    assert!(!is_hidden(""));
    assert!(!accept_entry("/root/.hidden.mp4", ".hidden.mp4", false));
    assert!(!accept_entry("/root/.git", ".git", true));
    assert!(!accept_entry("/root/.x", ".x", false));
}

#[test]
fn extension_rule_applies_to_files_only() {
    assert!(is_need_scan("a.mp4"));
    assert!(is_need_scan("song.mp3"));
    assert!(!is_need_scan("b.txt"));
    assert!(!is_need_scan("mp4"));
    assert!(!is_need_scan("a.MP4"));
    assert!(!accept_entry("/root/sub/b.txt", "b.txt", false));
    assert!(accept_entry("/root/sub.txt", "sub.txt", true));
    assert!(accept_entry("/root/movies", "movies", true));
}

#[test]
fn excluded_subtree_is_rejected() {
    assert!(is_sys("/Volumes/Macintosh"));
    assert!(is_sys("/Volumes/Macintosh HD/x.mp4"));
    assert!(!is_sys("/Volumes/Media/x.mp4"));
    assert!(!is_sys("/Volumes"));
    assert!(!accept_entry("/Volumes/Macintosh HD/x.mp4", "x.mp4", false));
    assert!(!accept_entry("/Volumes/Macintosh HD/dir", "dir", true));
    assert!(accept_entry("/Volumes/Media/x.mp4", "x.mp4", false));
}

#[test]
fn scan_scenario_accepts_two_entries() {
    let entries = [
        ("/root/a.mp4", "a.mp4", false),
        ("/root/.hidden.mp4", ".hidden.mp4", false),
        ("/root/sub", "sub", true),
        ("/root/sub/b.txt", "b.txt", false),
    ];
    let accepted: Vec<&str> = entries
        .iter()
        .filter(|(p, n, d)| accept_entry(p, n, *d))
        .map(|(_, n, _)| *n)
        .collect();
    assert_eq!(accepted, vec!["a.mp4", "sub"]);
}
