//! Writing a submission's outcome back to the result store, in writes that
//! can be repeated safely.
use crate::ids::EntityId;
use crate::response::SubmitResponse;
use vstd::prelude::*;

verus! {

/// The result store's record of a video file.
pub struct BiliVideoInfo {
    pub doc_id: EntityId,
    pub title: Option<String>,
    pub filename: String,
    pub desc: String,
    /// The short id of the archive the video was attached to, once known.
    pub bvid: Option<String>,
}

/// The result store's record of a published archive.
pub struct BiliArchiveInfo {
    pub archive_id: EntityId,
    pub aid: i64,
    pub bvid: String,
}

/// One write to the result store.
pub enum StoreWrite {
    /// Records a new archive's ids under its entity id, unless a record is
    /// there already.
    PutArchiveInfo { archive: EntityId, aid: i64, bvid: String },
    /// Sets the short id of the archive that a video belongs to, on the
    /// video's record where there is one.
    SetVideoShortId { video: EntityId, bvid: String },
}

/// What the result store holds: the ids recorded for each archive entity,
/// and the short id attached to each video entity.
pub type StoreModel = (Map<EntityId, (i64, Seq<char>)>, Map<EntityId, Seq<char>>);

/// The store after one write.
pub open spec fn apply_write(s: StoreModel, w: StoreWrite) -> StoreModel {
    match w {
        StoreWrite::PutArchiveInfo { archive, aid, bvid } => if s.0.contains_key(archive) {
            s
        } else {
            (s.0.insert(archive, (aid, bvid@)), s.1)
        },
        StoreWrite::SetVideoShortId { video, bvid } => if s.1.contains_key(video) {
            (s.0, s.1.insert(video, bvid@))
        } else {
            s
        },
    }
}

/// The store after the writes, in order.
pub open spec fn apply_writes(s: StoreModel, ws: Seq<StoreWrite>) -> StoreModel
    decreases ws.len(),
{
    if ws.len() == 0 {
        s
    } else {
        apply_write(apply_writes(s, ws.drop_last()), ws.last())
    }
}

/// The writes that record an outcome: for a new archive, its record under
/// the archive's entity id; for an edit, the short id on every video's record.
pub open spec fn is_persist_plan(
    ws: Seq<StoreWrite>,
    edit: bool,
    archive: EntityId,
    aid: i64,
    bvid: Seq<char>,
    videos: Seq<EntityId>,
) -> bool {
    if edit {
        &&& ws.len() == videos.len()
        &&& forall|i: int|
            0 <= i < ws.len() ==> match #[trigger] ws[i] {
                StoreWrite::SetVideoShortId { video, bvid: b } => video == videos[i] && b@ == bvid,
                _ => false,
            }
    } else {
        &&& ws.len() == 1
        &&& match ws[0] {
            StoreWrite::PutArchiveInfo { archive: a, aid: n, bvid: b } => a == archive && n == aid
                && b@ == bvid,
            _ => false,
        }
    }
}

/// The writes that record `result`: one archive record for a new archive,
/// or the short id on each video, in order, for an edit.
pub fn persist_plan(result: &SubmitResponse, archive: EntityId, edit: bool, videos: &Vec<EntityId>) -> (r:
    Vec<StoreWrite>)
    ensures
        is_persist_plan(r@, edit, archive, result.aid, result.bvid@, videos@),
{
    let mut out: Vec<StoreWrite> = Vec::new();
    if !edit {
        out.push(
            StoreWrite::PutArchiveInfo { archive, aid: result.aid, bvid: result.bvid.clone() },
        );
        return out;
    }
    let n = videos.len();
    let mut i: usize = 0;
    while i < n
        invariant
            n == videos@.len(),
            0 <= i <= n,
            edit,
            is_persist_plan(out@, edit, archive, result.aid, result.bvid@, videos@.take(i as int)),
        decreases n - i,
    {
        out.push(StoreWrite::SetVideoShortId { video: videos[i], bvid: result.bvid.clone() });
        proof {
            let t = videos@.take(i + 1);
            assert forall|k: int| 0 <= k < out@.len() implies match #[trigger] out@[k] {
                StoreWrite::SetVideoShortId { video, bvid: b } => video == t[k] && b@
                    == result.bvid@,
                _ => false,
            } by {
                if k < i {
                    assert(t[k] == videos@.take(i as int)[k]);
                }
            }
        }
        i = i + 1;
    }
    assert(videos@.take(n as int) == videos@);
    out
}

/// What an edit's writes do: archive records stay, and each listed video
/// that has a record gets the short id.
proof fn lemma_edit_writes(
    s: StoreModel,
    ws: Seq<StoreWrite>,
    archive: EntityId,
    aid: i64,
    bvid: Seq<char>,
    videos: Seq<EntityId>,
)
    requires
        is_persist_plan(ws, true, archive, aid, bvid, videos),
    ensures
        apply_writes(s, ws).0 == s.0,
        forall|k: EntityId|
            #[trigger] apply_writes(s, ws).1.contains_key(k) <==> s.1.contains_key(k),
        forall|k: EntityId|
            #[trigger] apply_writes(s, ws).1.contains_key(k) ==> apply_writes(s, ws).1[k] == if videos.contains(k) {
                bvid
            } else {
                s.1[k]
            },
    decreases ws.len(),
{
    if ws.len() > 0 {
        let init = ws.drop_last();
        let vinit = videos.drop_last();
        assert forall|i: int| 0 <= i < init.len() implies match #[trigger] init[i] {
            StoreWrite::SetVideoShortId { video, bvid: b } => video == vinit[i] && b@ == bvid,
            _ => false,
        } by {
            assert(init[i] == ws[i]);
        }
        lemma_edit_writes(s, init, archive, aid, bvid, vinit);
        let last = ws[ws.len() - 1];
        assert(ws.last() == last);
        assert forall|k: EntityId| videos.contains(k) <==> (vinit.contains(k) || k == videos.last()) by {
            if videos.contains(k) {
                let i = choose|i: int| 0 <= i < videos.len() && videos[i] == k;
                if i < videos.len() - 1 {
                    assert(vinit[i] == k);
                }
            }
            if vinit.contains(k) {
                let i = choose|i: int| 0 <= i < vinit.len() && vinit[i] == k;
                assert(videos[i] == k);
            }
        }
    }
}

/// Recording the same outcome twice leaves the store as recording it once:
/// an archive already recorded is skipped, and a video that already has
/// the short id gets the same one again.
pub proof fn lemma_persist_idempotent(
    s: StoreModel,
    ws: Seq<StoreWrite>,
    edit: bool,
    archive: EntityId,
    aid: i64,
    bvid: Seq<char>,
    videos: Seq<EntityId>,
)
    requires
        is_persist_plan(ws, edit, archive, aid, bvid, videos),
    ensures
        apply_writes(apply_writes(s, ws), ws) == apply_writes(s, ws),
{
    let once = apply_writes(s, ws);
    if edit {
        lemma_edit_writes(s, ws, archive, aid, bvid, videos);
        lemma_edit_writes(once, ws, archive, aid, bvid, videos);
        let twice = apply_writes(once, ws);
        assert forall|k: EntityId| #[trigger] twice.1.contains_key(k) implies once.1.contains_key(
            k,
        ) && twice.1[k] == once.1[k] by {
            assert(once.1.contains_key(k));
        }
        assert(twice.1 =~= once.1);
    } else {
        assert(ws.drop_last() == Seq::<StoreWrite>::empty());
        assert(ws.last() == ws[0]);
        assert(apply_writes(once, ws.drop_last()) == once);
        assert(apply_writes(s, ws.drop_last()) == s);
    }
}

} // verus!
