//! The submission of one archive as a state machine: the caller performs
//! each action (read the locks, fetch the archive, upload, submit, persist)
//! and hands back what came of it; the machine decides what comes next.
use crate::descriptor::{default_studio, overlay, overlaid, Overrides, Studio, Video};
use crate::ids::{is_object_id_text, object_id_number, EntityId, IdError, LockToken};
use crate::locks::{failing_claims, LockRecord, LockTable};
use crate::persist::{is_persist_plan, persist_plan, StoreWrite};
use crate::response::SubmitResponse;
use vstd::prelude::*;
use vstd::string::{StrSliceExecFns, StringExecFns};

verus! {

/// One file to upload and attach to the archive, with the lock claimed on it.
pub struct VideoUnit {
    pub entity: EntityId,
    pub lock: LockToken,
    pub path: String,
    pub title: Option<String>,
}

/// A request to create an archive, or to edit the remote archive
/// `existing_remote_id` where that is given.
pub struct SubmitRequest {
    pub archive: EntityId,
    pub archive_lock: LockToken,
    pub existing_remote_id: Option<String>,
    pub videos: Vec<VideoUnit>,
    pub overrides: Overrides,
    pub cover_path: Option<String>,
}

/// The first `':'` in `s` at or after `from`.
pub open spec fn colon_from(s: Seq<char>, from: int) -> Option<int>
    decreases s.len() - from,
{
    if from < 0 || from >= s.len() {
        None
    } else if s[from] == ':' {
        Some(from)
    } else {
        colon_from(s, from + 1)
    }
}

/// The three fields of `id:lock:path`: up to the first colon, up to the
/// second, and the rest (which may hold colons of its own).
pub open spec fn video_arg_fields(s: Seq<char>) -> Option<(Seq<char>, Seq<char>, Seq<char>)> {
    match colon_from(s, 0) {
        Some(a) => match colon_from(s, a + 1) {
            Some(b) => Some((s.subrange(0, a), s.subrange(a + 1, b), s.subrange(b + 1, s.len() as int))),
            None => None,
        },
        None => None,
    }
}

/// Why a video argument could not be read.
#[derive(Debug, Clone, Copy, PartialEq, Eq, Structural)]
pub enum VideoArgError {
    /// Fewer than two colons.
    MissingField,
    /// The entity id is not an object id.
    Entity(IdError),
    /// The lock token is not an object id.
    Lock(IdError),
}

/// Finds the first colon of `s` at or after `from`.
fn find_colon(s: &str, from: usize) -> (r: Option<usize>)
    requires
        from <= s@.len(),
    ensures
        r matches Some(i) ==> colon_from(s@, from as int) == Some(i as int),
        r is None ==> colon_from(s@, from as int) is None,
        r matches Some(i) ==> from <= i < s@.len() && s@[i as int] == ':',
{
    let n = s.unicode_len();
    let mut i = from;
    while i < n
        invariant
            n == s@.len(),
            from <= i <= n,
            colon_from(s@, from as int) == colon_from(s@, i as int),
        decreases n - i,
    {
        if s.get_char(i) == ':' {
            return Some(i);
        }
        i = i + 1;
    }
    None
}

pub enum Phase {
    AwaitingLocks,
    Verifying,
    /// Waiting for the remote archive that is to be edited.
    BuildingDescriptor,
    /// Waiting for the URL of the uploaded cover.
    UploadingCover,
    StreamingUpload,
    Submitting,
    Persisting,
    Done,
    Rejected,
    Failed,
}

/// Why a submission did not complete.
pub enum SubmitError {
    /// The entities whose claimed lock the store does not hold, all of them.
    LockRejected(Vec<EntityId>),
    /// A video's bytes could not all be sent.
    UploadFailed { path: String, bytes_sent: u64 },
    /// The platform refused the submission; its error, as it gave it.
    RemoteRejected(String),
    /// The platform accepted the submission but its reply, given here as
    /// it came, lacks the ids.
    MalformedReply(String),
    /// The platform holds the archive, but recording that failed: retry
    /// the writes only, never the submission.
    PersistenceFailedPostCommit { result: SubmitResponse, message: String },
}

/// What the caller is to do next.
pub enum Action {
    /// Read the lock records of these entities.
    ReadLocks(Vec<EntityId>),
    /// Fetch the remote archive with this id.
    FetchArchive(String),
    /// Upload the cover image at this path.
    UploadCover(String),
    /// Pre-register and stream the video file at this path.
    UploadVideo(String),
    /// Create a new archive with this descriptor.
    SubmitArchive(Studio),
    /// Edit the remote archive to this descriptor.
    EditArchive(Studio),
    /// Perform these writes on the result store.
    Persist(Vec<StoreWrite>),
    /// The submission is complete and recorded.
    Finish(SubmitResponse),
    /// The submission ends without success.
    Stop(SubmitError),
}

/// One submission attempt.
pub struct Submission {
    pub request: SubmitRequest,
    pub phase: Phase,
    /// The descriptor being built; the uploaded videos join it one by one.
    pub studio: Option<Studio>,
    /// The platform's ids, once it accepted the submission.
    pub result: Option<SubmitResponse>,
}

/// The locks a request claims: the archive's first, then each video's in order.
pub open spec fn claims_of(req: SubmitRequest) -> Seq<LockRecord> {
    seq![LockRecord { entity: req.archive, token: req.archive_lock }] + req.videos@.map_values(
        |v: VideoUnit| LockRecord { entity: v.entity, token: v.lock },
    )
}

/// The descriptor after a step: the one handed to the platform, if the
/// step handed it over, else the one held.
pub open spec fn descriptor_of(s: Submission, r: Action) -> Studio {
    match r {
        Action::SubmitArchive(d) => d,
        Action::EditArchive(d) => d,
        _ => s.studio->Some_0,
    }
}

/// The step after a video (or the descriptor) is ready: upload the next
/// video in the request's order, or, once every video is in, hand the
/// descriptor over: to create an archive, or to edit the existing one.
pub open spec fn upload_or_submit(s: Submission, r: Action) -> bool {
    let n = descriptor_of(s, r).videos@.len();
    if n < s.request.videos@.len() {
        &&& s.phase is StreamingUpload
        &&& s.studio is Some
        &&& r matches Action::UploadVideo(p) && p@ == s.request.videos@[n as int].path@
    } else {
        &&& s.phase is Submitting
        &&& s.studio is None
        &&& n == s.request.videos@.len()
        &&& s.request.existing_remote_id is Some ==> r is EditArchive
        &&& s.request.existing_remote_id is None ==> r is SubmitArchive
    }
}

/// The step once the base descriptor is known: wait for the cover where one
/// is to be uploaded, else lay the caller's fields over the base and go on.
pub open spec fn from_base(s: Submission, r: Action, base: Studio) -> bool {
    match s.request.cover_path {
        Some(p) => {
            &&& s.phase is UploadingCover
            &&& s.studio == Some(base)
            &&& r matches Action::UploadCover(c) && c@ == p@
        },
        None => {
            &&& overlaid(descriptor_of(s, r), base, s.request.overrides, None, seq![])
            &&& upload_or_submit(s, r)
        },
    }
}

/// What deciding on the lock records `held` does: reject with every
/// entity whose claimed lock is not held; else fetch the remote archive for
/// an edit, or go on from the defaults for a new archive.
pub open spec fn locks_step(
    before: Submission,
    held: Set<LockRecord>,
    after: Submission,
    r: Action,
) -> bool {
    let failing = failing_claims(held, claims_of(before.request));
    if failing.len() > 0 {
        &&& after.phase is Rejected
        &&& r matches Action::Stop(SubmitError::LockRejected(ids)) && ids@ == failing
    } else {
        match before.request.existing_remote_id {
            Some(id) => {
                &&& after.phase is BuildingDescriptor
                &&& r matches Action::FetchArchive(x) && x@ == id@
            },
            None => exists|base: Studio|
                {
                    &&& base.copyright == 0
                    &&& base.tid == 0
                    &&& base.source@ == Seq::<char>::empty()
                    &&& base.cover@ == Seq::<char>::empty()
                    &&& base.title@ == Seq::<char>::empty()
                    &&& base.desc@ == Seq::<char>::empty()
                    &&& base.tag@ == Seq::<char>::empty()
                    &&& base.videos@.len() == 0
                    &&& from_base(after, r, base)
                },
        }
    }
}

/// The remote archive is fetched for an edit only, and only on the lock
/// decision: with every claimed lock held, that decision fetches the archive
/// named by `existing_remote_id` when there is one and fetches nothing when
/// there is none; and no step that builds, uploads or submits fetches.
pub proof fn lemma_fetch_only_for_edits(
    before: Submission,
    held: Set<LockRecord>,
    after: Submission,
    r: Action,
)
    requires
        locks_step(before, held, after, r),
        failing_claims(held, claims_of(before.request)).len() == 0,
    ensures
        r is FetchArchive <==> before.request.existing_remote_id is Some,
        r matches Action::FetchArchive(x) ==> x@ == before.request.existing_remote_id->Some_0@,
        forall|s: Submission, a: Action, base: Studio| #[trigger] from_base(s, a, base) ==> !(a is FetchArchive),
        forall|s: Submission, a: Action| #[trigger] upload_or_submit(s, a) ==> !(a is FetchArchive),
{
}

/// The other fields of two descriptors agree.
pub open spec fn same_metadata(a: Studio, b: Studio) -> bool {
    &&& a.copyright == b.copyright
    &&& a.source@ == b.source@
    &&& a.tid == b.tid
    &&& a.cover@ == b.cover@
    &&& a.title@ == b.title@
    &&& a.desc@ == b.desc@
    &&& a.tag@ == b.tag@
}

/// The video that the upload of `unit` adds: its title, the remote file
/// name, and an empty description.
pub open spec fn uploaded_video(v: Video, unit: VideoUnit, filename: Seq<char>) -> bool {
    &&& v.title == unit.title
    &&& v.filename@ == filename
    &&& v.desc@ == Seq::<char>::empty()
}

fn clone_title(t: &Option<String>) -> (r: Option<String>)
    ensures
        r == *t,
{
    match t {
        Some(s) => Some(s.clone()),
        None => None,
    }
}

impl VideoUnit {
    /// Reads a video from `id:lock:path`: the entity id and the lock token
    /// as 24 hex digits each, then the file's path; the video has no title.
    pub fn parse(arg: &str) -> (r: Result<VideoUnit, VideoArgError>)
        ensures
            match video_arg_fields(arg@) {
                None => r == Err::<VideoUnit, VideoArgError>(VideoArgError::MissingField),
                Some((e, l, p)) => if !is_object_id_text(e) {
                    r == Err::<VideoUnit, VideoArgError>(VideoArgError::Entity(IdError::Malformed))
                } else if !is_object_id_text(l) {
                    r == Err::<VideoUnit, VideoArgError>(VideoArgError::Lock(IdError::Malformed))
                } else {
                    r matches Ok(u) && u.entity.value as nat == object_id_number(e)
                        && u.lock.value as nat == object_id_number(l) && u.path@ == p
                        && u.title is None
                },
            },
    {
        let n = arg.unicode_len();
        let a = match find_colon(arg, 0) {
            Some(a) => a,
            None => {
                return Err(VideoArgError::MissingField);
            },
        };
        let b = match find_colon(arg, a + 1) {
            Some(b) => b,
            None => {
                return Err(VideoArgError::MissingField);
            },
        };
        let entity = match EntityId::parse(arg.substring_char(0, a)) {
            Ok(e) => e,
            Err(e) => {
                return Err(VideoArgError::Entity(e));
            },
        };
        let lock = match LockToken::parse(arg.substring_char(a + 1, b)) {
            Ok(l) => l,
            Err(e) => {
                return Err(VideoArgError::Lock(e));
            },
        };
        let path = String::from_str(arg.substring_char(b + 1, n));
        Ok(VideoUnit { entity, lock, path, title: None })
    }
}

impl Submission {
    /// What each phase holds: the descriptor while the cover or a video is
    /// awaited, and the platform's ids while they are being recorded.
    pub open spec fn wf(&self) -> bool {
        &&& self.phase is UploadingCover ==> self.studio is Some
        &&& self.phase is StreamingUpload ==> self.studio is Some
            && self.studio->Some_0.videos@.len() < self.request.videos@.len()
        &&& self.phase is Persisting ==> self.result is Some
    }

    /// A submission of `request`, waiting to be started.
    pub fn new(request: SubmitRequest) -> (r: Submission)
        ensures
            r.wf(),
            r.request == request,
            r.phase is AwaitingLocks,
            r.studio is None,
            r.result is None,
    {
        Submission { request, phase: Phase::AwaitingLocks, studio: None, result: None }
    }

    /// Starts verifying: the lock records of the archive and of every video
    /// are to be read, before any remote call.
    pub fn begin(&mut self) -> (r: Action)
        requires
            old(self).phase is AwaitingLocks,
        ensures
            final(self).request == old(self).request,
            final(self).wf(),
            final(self).phase is Verifying,
            final(self).studio is None,
            r matches Action::ReadLocks(ids) && ids@ == claims_of(old(self).request).map_values(
                |c: LockRecord| c.entity,
            ),
    {
        let mut ids: Vec<EntityId> = Vec::new();
        ids.push(self.request.archive);
        let n = self.request.videos.len();
        let mut i: usize = 0;
        while i < n
            invariant
                n == self.request.videos@.len(),
                0 <= i <= n,
                ids@ == claims_of(self.request).map_values(|c: LockRecord| c.entity).take(
                    i + 1,
                ),
            decreases n - i,
        {
            ids.push(self.request.videos[i].entity);
            proof {
                let all = claims_of(self.request).map_values(|c: LockRecord| c.entity);
                assert(ids@ =~= all.take(i + 2));
            }
            i = i + 1;
        }
        proof {
            let all = claims_of(self.request).map_values(|c: LockRecord| c.entity);
            assert(ids@ =~= all);
        }
        self.phase = Phase::Verifying;
        self.studio = None;
        Action::ReadLocks(ids)
    }

    /// The claims of the request, as lock records.
    fn claims(&self) -> (r: Vec<LockRecord>)
        ensures
            r@ == claims_of(self.request),
    {
        let mut out: Vec<LockRecord> = Vec::new();
        out.push(LockRecord { entity: self.request.archive, token: self.request.archive_lock });
        let n = self.request.videos.len();
        let mut i: usize = 0;
        while i < n
            invariant
                n == self.request.videos@.len(),
                0 <= i <= n,
                out@ == claims_of(self.request).take(i + 1),
            decreases n - i,
        {
            let v = &self.request.videos[i];
            out.push(LockRecord { entity: v.entity, token: v.lock });
            proof {
                assert(out@ =~= claims_of(self.request).take(i + 2));
            }
            i = i + 1;
        }
        proof {
            assert(out@ =~= claims_of(self.request));
        }
        out
    }

    /// Uploads the next video, or hands the finished descriptor over.
    fn upload_or_submit(&mut self, d: Studio) -> (r: Action)
        requires
            d.videos@.len() <= old(self).request.videos@.len(),
        ensures
            final(self).request == old(self).request,
            final(self).wf(),
            final(self).result == old(self).result,
            descriptor_of(*final(self), r) == d,
            upload_or_submit(*final(self), r),
    {
        let n = d.videos.len();
        if n < self.request.videos.len() {
            let path = self.request.videos[n].path.clone();
            self.studio = Some(d);
            self.phase = Phase::StreamingUpload;
            Action::UploadVideo(path)
        } else {
            self.studio = None;
            self.phase = Phase::Submitting;
            match &self.request.existing_remote_id {
                Some(_) => Action::EditArchive(d),
                None => Action::SubmitArchive(d),
            }
        }
    }

    /// Goes on from the base descriptor: the remote archive for an edit,
    /// the defaults for a new one.
    fn from_base(&mut self, base: Studio) -> (r: Action)
        ensures
            final(self).request == old(self).request,
            final(self).wf(),
            final(self).result == old(self).result,
            from_base(*final(self), r, base),
    {
        match &self.request.cover_path {
            Some(p) => {
                let p = p.clone();
                self.studio = Some(base);
                self.phase = Phase::UploadingCover;
                Action::UploadCover(p)
            },
            None => {
                let d = overlay(base, &self.request.overrides, None, Vec::new());
                self.upload_or_submit(d)
            },
        }
    }

    /// Decides on the lock records read. Where any claimed lock is not
    /// held, the submission is rejected with every such entity and nothing
    /// remote is done; else an edit fetches the remote archive and a new
    /// archive starts from the defaults.
    pub fn on_locks(&mut self, table: &LockTable) -> (r: Action)
        requires
            old(self).phase is Verifying,
        ensures
            final(self).request == old(self).request,
            final(self).wf(),
            final(self).result is None,
            locks_step(*old(self), table.held(), *final(self), r),
    {
        let claims = self.claims();
        let failing = table.rejected(&claims);
        self.result = None;
        if failing.len() > 0 {
            self.phase = Phase::Rejected;
            return Action::Stop(SubmitError::LockRejected(failing));
        }
        match &self.request.existing_remote_id {
            Some(id) => {
                let id = id.clone();
                self.phase = Phase::BuildingDescriptor;
                Action::FetchArchive(id)
            },
            None => {
                let base = default_studio();
                self.from_base(base)
            },
        }
    }

    /// Takes the remote archive that is to be edited as the base descriptor.
    pub fn on_archive_fetched(&mut self, remote: Studio) -> (r: Action)
        requires
            old(self).phase is BuildingDescriptor,
        ensures
            final(self).request == old(self).request,
            final(self).wf(),
            final(self).result == old(self).result,
            from_base(*final(self), r, remote),
    {
        self.from_base(remote)
    }

    /// Fetching the remote archive or uploading the cover failed: the
    /// submission fails with the error as it came, before anything is uploaded.
    pub fn on_step_failed(&mut self, message: String) -> (r: Action)
        requires
            old(self).phase is BuildingDescriptor || old(self).phase is UploadingCover,
        ensures
            final(self).request == old(self).request,
            final(self).wf(),
            final(self).phase is Failed,
            final(self).studio is None,
            r matches Action::Stop(SubmitError::RemoteRejected(m)) && m@ == message@,
    {
        self.phase = Phase::Failed;
        self.studio = None;
        Action::Stop(SubmitError::RemoteRejected(message))
    }

    /// Lays the caller's fields and the uploaded cover's URL over the base.
    pub fn on_cover_uploaded(&mut self, url: String) -> (r: Action)
        requires
            old(self).wf(),
            old(self).phase is UploadingCover,
        ensures
            final(self).request == old(self).request,
            final(self).wf(),
            final(self).result == old(self).result,
            overlaid(
                descriptor_of(*final(self), r),
                old(self).studio->Some_0,
                old(self).request.overrides,
                Some(url),
                seq![],
            ),
            upload_or_submit(*final(self), r),
    {
        let base = self.studio.take();
        match base {
            Some(base) => {
                let d = overlay(base, &self.request.overrides, Some(url), Vec::new());
                self.upload_or_submit(d)
            },
            None => Action::UploadCover(String::new()),
        }
    }

    /// Adds the uploaded video to the descriptor, and goes on to the next.
    pub fn on_video_uploaded(&mut self, remote_filename: String) -> (r: Action)
        requires
            old(self).wf(),
            old(self).phase is StreamingUpload,
        ensures
            final(self).request == old(self).request,
            final(self).wf(),
            final(self).result == old(self).result,
            ({
                let before = old(self).studio->Some_0;
                let after = descriptor_of(*final(self), r);
                &&& same_metadata(after, before)
                &&& after.videos@.len() == before.videos@.len() + 1
                &&& after.videos@.drop_last() == before.videos@
                &&& uploaded_video(
                    after.videos@.last(),
                    old(self).request.videos@[before.videos@.len() as int],
                    remote_filename@,
                )
            }),
            upload_or_submit(*final(self), r),
    {
        let taken = self.studio.take();
        match taken {
            Some(mut d) => {
                let ghost before = d;
                let i = d.videos.len();
                let title = clone_title(&self.request.videos[i].title);
                d.videos.push(Video { title, filename: remote_filename, desc: String::new() });
                proof {
                    assert(d.videos@.drop_last() == before.videos@);
                }
                self.upload_or_submit(d)
            },
            None => Action::UploadCover(String::new()),
        }
    }

    /// A video's bytes could not all be sent: the whole submission fails,
    /// naming the file and how much of it went out.
    pub fn on_upload_failed(&mut self, bytes_sent: u64) -> (r: Action)
        requires
            old(self).wf(),
            old(self).phase is StreamingUpload,
        ensures
            final(self).request == old(self).request,
            final(self).wf(),
            final(self).phase is Failed,
            r matches Action::Stop(SubmitError::UploadFailed { path, bytes_sent: b }) && b
                == bytes_sent && path@ == old(self).request.videos@[old(
                self,
            ).studio->Some_0.videos@.len() as int].path@,
    {
        let i = match &self.studio {
            Some(d) => d.videos.len(),
            None => 0,
        };
        let path = self.request.videos[i].path.clone();
        self.phase = Phase::Failed;
        self.studio = None;
        Action::Stop(SubmitError::UploadFailed { path, bytes_sent })
    }

    /// The platform accepted the submission; `ids` is what its reply gave,
    /// and `reply` the reply as it came, kept where it lacks the ids.
    /// The outcome is then to be recorded: the archive's record for a new
    /// archive, the short id on each video for an edit.
    pub fn on_submitted(&mut self, ids: Option<SubmitResponse>, reply: String) -> (r: Action)
        requires
            old(self).phase is Submitting,
        ensures
            final(self).request == old(self).request,
            final(self).wf(),
            match ids {
                Some(res) => {
                    &&& final(self).phase is Persisting
                    &&& final(self).result == Some(res)
                    &&& r matches Action::Persist(ws) && is_persist_plan(
                        ws@,
                        old(self).request.existing_remote_id is Some,
                        old(self).request.archive,
                        res.aid,
                        res.bvid@,
                        old(self).request.videos@.map_values(|v: VideoUnit| v.entity),
                    )
                },
                None => {
                    &&& final(self).phase is Failed
                    &&& r matches Action::Stop(SubmitError::MalformedReply(m)) && m@ == reply@
                },
            },
    {
        match ids {
            Some(res) => {
                let mut entities: Vec<EntityId> = Vec::new();
                let n = self.request.videos.len();
                let mut i: usize = 0;
                while i < n
                    invariant
                        n == self.request.videos@.len(),
                        0 <= i <= n,
                        entities@ == self.request.videos@.map_values(|v: VideoUnit| v.entity).take(
                            i as int,
                        ),
                    decreases n - i,
                {
                    entities.push(self.request.videos[i].entity);
                    proof {
                        assert(entities@ =~= self.request.videos@.map_values(
                            |v: VideoUnit| v.entity,
                        ).take(i + 1));
                    }
                    i = i + 1;
                }
                proof {
                    assert(entities@ =~= self.request.videos@.map_values(|v: VideoUnit| v.entity));
                }
                let edit = match &self.request.existing_remote_id {
                    Some(_) => true,
                    None => false,
                };
                let ws = persist_plan(&res, self.request.archive, edit, &entities);
                self.result = Some(res);
                self.phase = Phase::Persisting;
                Action::Persist(ws)
            },
            None => {
                self.phase = Phase::Failed;
                Action::Stop(SubmitError::MalformedReply(reply))
            },
        }
    }

    /// The platform refused the submission: its error is passed on as it came.
    pub fn on_remote_rejected(&mut self, error: String) -> (r: Action)
        requires
            old(self).phase is Submitting,
        ensures
            final(self).request == old(self).request,
            final(self).wf(),
            final(self).phase is Failed,
            r matches Action::Stop(SubmitError::RemoteRejected(e)) && e@ == error@,
    {
        self.phase = Phase::Failed;
        Action::Stop(SubmitError::RemoteRejected(error))
    }

    /// The outcome is recorded: the submission is done.
    pub fn on_persisted(&mut self) -> (r: Action)
        requires
            old(self).wf(),
            old(self).phase is Persisting,
        ensures
            final(self).request == old(self).request,
            final(self).wf(),
            final(self).phase is Done,
            r matches Action::Finish(res) && Some(res) == old(self).result,
    {
        self.phase = Phase::Done;
        match self.result.take() {
            Some(res) => Action::Finish(res),
            None => Action::Stop(SubmitError::MalformedReply(String::new())),
        }
    }

    /// Recording the outcome failed after the platform accepted it: the
    /// ids are handed back with the error, so that only the writes are retried.
    pub fn on_persist_failed(&mut self, message: String) -> (r: Action)
        requires
            old(self).wf(),
            old(self).phase is Persisting,
        ensures
            final(self).request == old(self).request,
            final(self).wf(),
            final(self).phase is Failed,
            r matches Action::Stop(SubmitError::PersistenceFailedPostCommit { result, message: m })
                && Some(result) == old(self).result && m@ == message@,
    {
        self.phase = Phase::Failed;
        match self.result.take() {
            Some(result) => Action::Stop(SubmitError::PersistenceFailedPostCommit { result, message }),
            None => Action::Stop(SubmitError::MalformedReply(String::new())),
        }
    }
}

} // verus!
