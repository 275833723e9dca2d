use rushc::ids::EntityId;
use rushc::persist::{persist_plan, StoreWrite};
use rushc::response::SubmitResponse;
use std::collections::HashMap;

fn e(v: u128) -> EntityId {
    EntityId { value: v }
}

fn result() -> SubmitResponse {
    SubmitResponse { aid: 42, bvid: "BV1ab".to_string() }
}

type Store = (HashMap<u128, (i64, String)>, HashMap<u128, String>);

fn apply(s: &mut Store, ws: &[StoreWrite]) {
    for w in ws {
        match w {
            StoreWrite::PutArchiveInfo { archive, aid, bvid } => {
                s.0.entry(archive.value).or_insert((*aid, bvid.clone()));
            }
            StoreWrite::SetVideoShortId { video, bvid } => {
                if let Some(v) = s.1.get_mut(&video.value) {
                    *v = bvid.clone();
                }
            }
        }
    }
}

#[test]
fn new_archive_writes_one_record() {
    let ws = persist_plan(&result(), e(1), false, &vec![e(2), e(3)]);
    assert_eq!(ws.len(), 1);
    match &ws[0] {
        StoreWrite::PutArchiveInfo { archive, aid, bvid } => {
            assert_eq!(*archive, e(1));
            assert_eq!(*aid, 42);
            assert_eq!(bvid, "BV1ab");
        }
        _ => panic!("expected an archive record"),
    }
}

#[test]
fn edit_sets_short_id_on_each_video() {
    let ws = persist_plan(&result(), e(1), true, &vec![e(2), e(3)]);
    assert_eq!(ws.len(), 2);
    for (w, id) in ws.iter().zip([e(2), e(3)]) {
        match w {
            StoreWrite::SetVideoShortId { video, bvid } => {
                assert_eq!(*video, id);
                assert_eq!(bvid, "BV1ab");
            }
            _ => panic!("expected a video update"),
        }
    }
}

#[test]
fn persisting_twice_equals_once() {
    for edit in [false, true] {
        let ws = persist_plan(&result(), e(1), edit, &vec![e(2), e(3)]);
        let mut once: Store = (HashMap::new(), HashMap::new());
        once.1.insert(9, "other".to_string());
        once.1.insert(2, String::new());
        apply(&mut once, &ws);
        let mut twice = once.clone();
        apply(&mut twice, &ws);
        assert_eq!(once, twice);
        assert_eq!(once.1[&9], "other");
        if edit {
            assert_eq!(once.1[&2], "BV1ab");
            assert!(!once.1.contains_key(&3));
        } else {
            assert_eq!(once.0[&1], (42, "BV1ab".to_string()));
        }
    }
}

#[test]
fn existing_archive_record_is_kept() {
    let ws = persist_plan(&result(), e(1), false, &vec![]);
    let mut s: Store = (HashMap::new(), HashMap::new());
    s.0.insert(1, (7, "BVold".to_string()));
    apply(&mut s, &ws);
    assert_eq!(s.0[&1], (7, "BVold".to_string()));
}
