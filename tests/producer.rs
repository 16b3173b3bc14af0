use find_videos::scan::{ScanAction, ScanCommand, ScanProducer, WalkItem};

fn item(path: &str, name: &str, is_dir: bool) -> WalkItem {
    WalkItem::Entry { path: path.to_string(), name: name.to_string(), is_dir }
}

#[test]
fn scan_sends_accepted_entries_and_counts_them() {
    let mut p = ScanProducer::new("h:u".to_string());
    let items = vec![
        item("/root/a.mp4", "a.mp4", false),
        item("/root/.hidden.mp4", ".hidden.mp4", false),
        item("/root/sub", "sub", true),
        item("/root/sub/b.txt", "b.txt", false),
    ];
    let mut sent = Vec::new();
    for it in items {
        match p.step(it, 99) {
            ScanAction::Send(f) => sent.push(f),
            ScanAction::Skip => {}
            ScanAction::Stop => panic!("stopped early"),
        }
    }
    assert_eq!(p.total, 2);
    let names: Vec<&str> = sent.iter().map(|f| f.file_name.as_str()).collect();
    assert_eq!(names, vec!["a.mp4", "sub"]);
    assert_eq!(sent[0].full_path, "/root/a.mp4");
    assert!(!sent[0].dir);
    assert!(sent[1].dir);
    assert_eq!(sent[1].hostname, "h:u");
    assert_eq!(sent[1].timestamp, 99);
    assert_ne!(sent[0].id, sent[1].id);
}

#[test]
fn permission_denied_is_passed_over() {
    let mut p = ScanProducer::new("h:u".to_string());
    assert!(matches!(p.step(WalkItem::PermissionDenied, 0), ScanAction::Skip));
    assert!(!p.done);
    assert!(matches!(p.step(item("/r/x.mp3", "x.mp3", false), 0), ScanAction::Send(_)));
    assert_eq!(p.total, 1);
}

#[test]
fn other_errors_and_end_stop_for_good() {
    let mut p = ScanProducer::new("h:u".to_string());
    assert!(matches!(p.step(WalkItem::Failed, 0), ScanAction::Stop));
    assert!(p.done);
    assert!(matches!(p.step(item("/r/x.mp4", "x.mp4", false), 0), ScanAction::Stop));
    assert_eq!(p.total, 0);

    let mut q = ScanProducer::new("h:u".to_string());
    assert!(matches!(q.step(WalkItem::Exhausted, 0), ScanAction::Stop));
    assert!(q.done);
}

#[test]
fn count_holds_at_the_largest_value() {
    let mut p = ScanProducer::new("h:u".to_string());
    p.total = u64::MAX;
    assert!(matches!(p.step(item("/r/x.mp4", "x.mp4", false), 0), ScanAction::Send(_)));
    assert_eq!(p.total, u64::MAX);
}

#[test]
fn scan_root_defaults_to_volumes() {
    assert_eq!(ScanCommand::Scan { name: None }.root(), "/Volumes");
    assert_eq!(ScanCommand::Scan { name: Some("/data".to_string()) }.root(), "/data");
}
