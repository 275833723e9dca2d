use rushc::descriptor::{Overrides, Studio};
use rushc::ids::{EntityId, IdError, LockToken};
use rushc::locks::{LockRecord, LockTable};
use rushc::persist::StoreWrite;
use rushc::response::SubmitResponse;
use rushc::submission::{
    Action, Phase, SubmitError, SubmitRequest, Submission, VideoArgError, VideoUnit,
};

fn e(v: u128) -> EntityId {
    EntityId { value: v }
}

fn t(v: u128) -> LockToken {
    LockToken { value: v }
}

fn rec(entity: u128, token: u128) -> LockRecord {
    LockRecord { entity: e(entity), token: t(token) }
}

fn unit(entity: u128, token: u128, path: &str, title: Option<&str>) -> VideoUnit {
    VideoUnit { entity: e(entity), lock: t(token), path: path.to_string(), title: title.map(|s| s.to_string()) }
}

fn no_overrides() -> Overrides {
    Overrides { title: None, tag: None, desc: None, tid: None, source: None }
}

fn request(existing: Option<&str>, overrides: Overrides, cover: Option<&str>) -> SubmitRequest {
    SubmitRequest {
        archive: e(1),
        archive_lock: t(10),
        existing_remote_id: existing.map(|s| s.to_string()),
        videos: vec![unit(2, 20, "/v/a.mp4", Some("A")), unit(3, 30, "/v/b.mp4", None)],
        overrides,
        cover_path: cover.map(|s| s.to_string()),
    }
}

fn all_locks() -> LockTable {
    LockTable::from_records(vec![rec(1, 10), rec(2, 20), rec(3, 30)]).unwrap()
}

fn started(req: SubmitRequest) -> Submission {
    let mut s = Submission::new(req);
    assert!(matches!(s.phase, Phase::AwaitingLocks));
    match s.begin() {
        Action::ReadLocks(ids) => assert_eq!(ids, vec![e(1), e(2), e(3)]),
        _ => panic!("expected the locks to be read first"),
    }
    s
}

fn upload_path(a: &Action) -> String {
    match a {
        Action::UploadVideo(p) => p.clone(),
        _ => panic!("expected an upload"),
    }
}

#[test]
fn new_archive_with_two_videos() {
    let mut s = started(request(None, no_overrides(), None));
    let a = s.on_locks(&all_locks());
    assert_eq!(upload_path(&a), "/v/a.mp4");
    let a = s.on_video_uploaded("remote-a".to_string());
    assert_eq!(upload_path(&a), "/v/b.mp4");
    let mut submits = 0;
    let a = s.on_video_uploaded("remote-b".to_string());
    let d = match a {
        Action::SubmitArchive(d) => {
            submits += 1;
            d
        }
        _ => panic!("expected a new archive"),
    };
    assert_eq!(submits, 1);
    assert!(matches!(s.phase, Phase::Submitting));
    assert_eq!(d.videos.len(), 2);
    assert_eq!(d.videos[0].filename, "remote-a");
    assert_eq!(d.videos[0].title.as_deref(), Some("A"));
    assert_eq!(d.videos[1].filename, "remote-b");
    assert_eq!(d.videos[1].title, None);
    assert_eq!(d.copyright, 1);
    let ws = match s.on_submitted(Some(SubmitResponse { aid: 77, bvid: "BV77".to_string() }), String::new()) {
        Action::Persist(ws) => ws,
        _ => panic!("expected the outcome to be recorded"),
    };
    assert_eq!(ws.len(), 1);
    assert!(matches!(&ws[0], StoreWrite::PutArchiveInfo { archive, aid: 77, bvid } if *archive == e(1) && bvid == "BV77"));
    match s.on_persisted() {
        Action::Finish(r) => {
            assert_eq!(r.aid, 77);
            assert_eq!(r.bvid, "BV77");
        }
        _ => panic!("expected completion"),
    }
    assert!(matches!(s.phase, Phase::Done));
}

#[test]
fn second_lock_mismatch_is_rejected() {
    let mut s = started(request(None, no_overrides(), None));
    let table = LockTable::from_records(vec![rec(1, 10), rec(2, 20), rec(3, 31)]).unwrap();
    match s.on_locks(&table) {
        Action::Stop(SubmitError::LockRejected(ids)) => assert_eq!(ids, vec![e(3)]),
        _ => panic!("expected a rejection"),
    }
    assert!(matches!(s.phase, Phase::Rejected));
    assert!(s.studio.is_none());
}

#[test]
fn every_failing_lock_is_reported() {
    let mut s = started(request(None, no_overrides(), None));
    let table = LockTable::from_records(vec![rec(2, 21)]).unwrap();
    match s.on_locks(&table) {
        Action::Stop(SubmitError::LockRejected(ids)) => assert_eq!(ids, vec![e(1), e(2), e(3)]),
        _ => panic!("expected a rejection"),
    }
}

fn remote_archive() -> Studio {
    Studio {
        copyright: 1,
        source: String::new(),
        tid: 27,
        cover: "https://cdn/c.jpg".to_string(),
        title: "old".to_string(),
        desc: "remote desc".to_string(),
        tag: "x,y".to_string(),
        videos: vec![],
    }
}

#[test]
fn edit_with_title_override_only() {
    let mut ov = no_overrides();
    ov.title = Some("new title".to_string());
    let mut s = started(request(Some("BV1old"), ov, None));
    let mut fetches = 0;
    match s.on_locks(&all_locks()) {
        Action::FetchArchive(id) => {
            fetches += 1;
            assert_eq!(id, "BV1old");
        }
        _ => panic!("expected the remote archive to be fetched"),
    }
    assert_eq!(fetches, 1);
    let a = s.on_archive_fetched(remote_archive());
    assert_eq!(upload_path(&a), "/v/a.mp4");
    s.on_video_uploaded("ra".to_string());
    let d = match s.on_video_uploaded("rb".to_string()) {
        Action::EditArchive(d) => d,
        _ => panic!("expected an edit"),
    };
    assert_eq!(d.title, "new title");
    assert_eq!(d.tag, "x,y");
    assert_eq!(d.desc, "remote desc");
    assert_eq!(d.tid, 27);
    match s.on_submitted(Some(SubmitResponse { aid: 5, bvid: "BV1old".to_string() }), String::new()) {
        Action::Persist(ws) => {
            assert_eq!(ws.len(), 2);
            assert!(matches!(&ws[1], StoreWrite::SetVideoShortId { video, bvid } if *video == e(3) && bvid == "BV1old"));
        }
        _ => panic!("expected the outcome to be recorded"),
    }
}

#[test]
fn edit_with_source_is_a_reupload() {
    let mut ov = no_overrides();
    ov.source = Some("https://origin".to_string());
    let mut s = started(request(Some("BV1"), ov, None));
    s.on_locks(&all_locks());
    s.on_archive_fetched(remote_archive());
    s.on_video_uploaded("ra".to_string());
    match s.on_video_uploaded("rb".to_string()) {
        Action::EditArchive(d) => assert_eq!(d.copyright, 2),
        _ => panic!("expected an edit"),
    }
}

#[test]
fn cover_is_uploaded_before_videos() {
    let mut s = started(request(None, no_overrides(), Some("/c.png")));
    match s.on_locks(&all_locks()) {
        Action::UploadCover(p) => assert_eq!(p, "/c.png"),
        _ => panic!("expected the cover first"),
    }
    let a = s.on_cover_uploaded("https://cdn/up.png".to_string());
    assert_eq!(upload_path(&a), "/v/a.mp4");
    s.on_video_uploaded("ra".to_string());
    match s.on_video_uploaded("rb".to_string()) {
        Action::SubmitArchive(d) => assert_eq!(d.cover, "https://cdn/up.png"),
        _ => panic!("expected a new archive"),
    }
}

#[test]
fn upload_failure_aborts_everything() {
    let mut s = started(request(None, no_overrides(), None));
    s.on_locks(&all_locks());
    s.on_video_uploaded("ra".to_string());
    match s.on_upload_failed(8192) {
        Action::Stop(SubmitError::UploadFailed { path, bytes_sent }) => {
            assert_eq!(path, "/v/b.mp4");
            assert_eq!(bytes_sent, 8192);
        }
        _ => panic!("expected an upload failure"),
    }
    assert!(matches!(s.phase, Phase::Failed));
}

#[test]
fn remote_error_is_passed_through() {
    let mut s = started(request(None, no_overrides(), None));
    s.on_locks(&all_locks());
    s.on_video_uploaded("ra".to_string());
    s.on_video_uploaded("rb".to_string());
    match s.on_remote_rejected("21070: too fast".to_string()) {
        Action::Stop(SubmitError::RemoteRejected(m)) => assert_eq!(m, "21070: too fast"),
        _ => panic!("expected the remote error"),
    }
}

#[test]
fn reply_without_ids_fails() {
    let mut s = started(request(None, no_overrides(), None));
    s.on_locks(&all_locks());
    s.on_video_uploaded("ra".to_string());
    s.on_video_uploaded("rb".to_string());
    let reply = r#"{"code":0,"data":{"aid":1}}"#.to_string();
    match s.on_submitted(None, reply.clone()) {
        Action::Stop(SubmitError::MalformedReply(m)) => assert_eq!(m, reply),
        _ => panic!("expected a malformed reply"),
    }
    assert!(matches!(s.phase, Phase::Failed));
}

#[test]
fn persistence_failure_keeps_the_ids() {
    let mut s = started(request(None, no_overrides(), None));
    s.on_locks(&all_locks());
    s.on_video_uploaded("ra".to_string());
    s.on_video_uploaded("rb".to_string());
    s.on_submitted(Some(SubmitResponse { aid: 3, bvid: "BV3".to_string() }), String::new());
    match s.on_persist_failed("timeout".to_string()) {
        Action::Stop(SubmitError::PersistenceFailedPostCommit { result, message }) => {
            assert_eq!(result.aid, 3);
            assert_eq!(result.bvid, "BV3");
            assert_eq!(message, "timeout");
        }
        _ => panic!("expected a post-commit failure"),
    }
}

#[test]
fn request_without_videos_submits_at_once() {
    let mut req = request(None, no_overrides(), None);
    req.videos.clear();
    let mut s = Submission::new(req);
    s.begin();
    match s.on_locks(&LockTable::from_records(vec![rec(1, 10)]).unwrap()) {
        Action::SubmitArchive(d) => assert!(d.videos.is_empty()),
        _ => panic!("expected a new archive"),
    }
}

#[test]
fn video_argument_is_read() {
    let u = VideoUnit::parse("0000000000000000000000ff:00000000000000000000000a:C:\\v\\a.mp4").unwrap();
    assert_eq!(u.entity, e(255));
    assert_eq!(u.lock, t(10));
    assert_eq!(u.path, "C:\\v\\a.mp4");
    assert!(u.title.is_none());
}

#[test]
fn video_argument_errors_are_typed() {
    assert!(matches!(VideoUnit::parse("abc"), Err(VideoArgError::MissingField)));
    assert!(matches!(
        VideoUnit::parse("0000000000000000000000ff:/v/a.mp4"),
        Err(VideoArgError::MissingField)
    ));
    assert!(matches!(
        VideoUnit::parse("xyz:00000000000000000000000a:/v"),
        Err(VideoArgError::Entity(IdError::Malformed))
    ));
    assert!(matches!(
        VideoUnit::parse("0000000000000000000000ff:0a:/v"),
        Err(VideoArgError::Lock(IdError::Malformed))
    ));
}

#[test]
fn video_argument_with_empty_path() {
    let u = VideoUnit::parse("0000000000000000000000ff:00000000000000000000000a:").unwrap();
    assert_eq!(u.path, "");
}

#[test]
fn failed_fetch_fails_the_submission() {
    let mut s = started(request(Some("BV1old"), no_overrides(), None));
    assert!(matches!(s.on_locks(&all_locks()), Action::FetchArchive(_)));
    match s.on_step_failed("archive not found".to_string()) {
        Action::Stop(SubmitError::RemoteRejected(m)) => assert_eq!(m, "archive not found"),
        _ => panic!("expected the fetch error"),
    }
    assert!(matches!(s.phase, Phase::Failed));
    assert!(s.studio.is_none());
}

#[test]
fn failed_cover_upload_fails_the_submission() {
    let mut s = started(request(None, no_overrides(), Some("/c.png")));
    assert!(matches!(s.on_locks(&all_locks()), Action::UploadCover(_)));
    match s.on_step_failed("cover too large".to_string()) {
        Action::Stop(SubmitError::RemoteRejected(m)) => assert_eq!(m, "cover too large"),
        _ => panic!("expected the cover error"),
    }
    assert!(matches!(s.phase, Phase::Failed));
}

#[test]
fn new_archive_never_fetches() {
    let mut s = started(request(None, no_overrides(), None));
    let a = s.on_locks(&all_locks());
    assert!(!matches!(a, Action::FetchArchive(_)));
    let a = s.on_video_uploaded("ra".to_string());
    assert!(!matches!(a, Action::FetchArchive(_)));
}
