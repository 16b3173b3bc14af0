use find_videos::catalog::{save_bulk_plan, save_plan, update_plan, Statement};
use find_videos::event::EventType;
use find_videos::file::File;

fn entry(path: &str, name: &str, dir: bool) -> File {
    File::new(path.to_string(), name.to_string(), dir, Some("h:u".to_string()), 5)
}

#[test]
fn save_inserts_entry_then_its_event() {
    let f = entry("/root/a.mp4", "a.mp4", false);
    let plan = save_plan(&f);
    assert_eq!(plan.len(), 2);
    match &plan[0] {
        Statement::InsertFile(g) => {
            assert_eq!(g.id, f.id);
            assert_eq!(g.full_path, "/root/a.mp4");
            assert_eq!(g.file_name, "a.mp4");
        }
        other => panic!("unexpected {:?}", other),
    }
    match &plan[1] {
        Statement::InsertEvent(e) => {
            assert_eq!(e.id, f.id);
            assert_eq!(e.event_type, EventType::Create);
            assert_eq!(e.full_path, "/root/a.mp4");
        }
        other => panic!("unexpected {:?}", other),
    }
}

#[test]
fn saving_same_id_twice_plans_same_keys() {
    let f = entry("/root/a.mp4", "a.mp4", false);
    let mut g = entry("/elsewhere/a.mp4", "a.mp4", false);
    g.id = f.id.clone();
    let keys = |p: &[Statement]| -> Vec<String> {
        p.iter()
            .map(|s| match s {
                Statement::InsertFile(x) => x.id.clone(),
                Statement::InsertEvent(e) => e.id.clone(),
                Statement::UpdateFile(x) => x.id.clone(),
            })
            .collect()
    };
    assert_eq!(keys(&save_plan(&f)), keys(&save_plan(&g)));
}

#[test]
fn bulk_save_keeps_order() {
    let fs = vec![
        entry("/root/a.mp4", "a.mp4", false),
        entry("/root/sub", "sub", true),
        entry("/root/b.mp3", "b.mp3", false),
    ];
    let plan = save_bulk_plan(&fs);
    assert_eq!(plan.len(), 6);
    for (i, f) in fs.iter().enumerate() {
        match (&plan[2 * i], &plan[2 * i + 1]) {
            (Statement::InsertFile(g), Statement::InsertEvent(e)) => {
                assert_eq!(g.id, f.id);
                assert_eq!(e.id, f.id);
                assert_eq!(g.dir, f.dir);
            }
            other => panic!("unexpected {:?}", other),
        }
    }
    assert!(save_bulk_plan(&[]).is_empty());
}

#[test]
fn update_targets_the_entry() {
    let f = entry("/root/a.mp4", "a.mp4", false);
    match update_plan(&f) {
        Statement::UpdateFile(g) => {
            assert_eq!(g.id, f.id);
            assert_eq!(g.full_path, f.full_path);
            assert_eq!(g.timestamp, 5);
        }
        other => panic!("unexpected {:?}", other),
    }
}
