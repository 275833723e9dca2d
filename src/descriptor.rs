//! The archive descriptor: what is sent to the platform when an archive is
//! created or edited, built by laying the caller's fields over a base.
use vstd::prelude::*;
use vstd::string::StringExecFns;

verus! {

/// One uploaded video as an archive lists it.
pub struct Video {
    pub title: Option<String>,
    pub filename: String,
    pub desc: String,
}

/// A video named by the caller: its remote file name and its title.
pub struct VideoInfo {
    pub path: String,
    pub video_title: String,
}

/// An archive's metadata and videos.
pub struct Studio {
    /// 1 for the uploader's own work, 2 for a re-upload.
    pub copyright: u8,
    pub source: String,
    /// The category.
    pub tid: u16,
    pub cover: String,
    pub title: String,
    pub desc: String,
    /// The tags, joined with commas.
    pub tag: String,
    pub videos: Vec<Video>,
}

/// The fields that the caller sets; an absent field keeps the base's value.
pub struct Overrides {
    pub title: Option<String>,
    pub tag: Option<Vec<String>>,
    pub desc: Option<String>,
    pub tid: Option<u16>,
    pub source: Option<String>,
}

/// The copyright classification: a re-upload (2) where a source is given,
/// the uploader's own work (1) where none is.
pub open spec fn copyright_for(has_source: bool) -> u8 {
    if has_source {
        2
    } else {
        1
    }
}

pub open spec fn text_or(o: Option<String>, base: Seq<char>) -> Seq<char> {
    match o {
        Some(s) => s@,
        None => base,
    }
}

/// The tags joined with commas.
pub open spec fn joined_tags(tags: Seq<String>) -> Seq<char>
    decreases tags.len(),
{
    if tags.len() == 0 {
        seq![]
    } else if tags.len() == 1 {
        tags[0]@
    } else {
        joined_tags(tags.drop_last()) + seq![','] + tags.last()@
    }
}

/// `v` lists `infos` in order, each with its title and an empty description.
pub open spec fn videos_of(v: Seq<Video>, infos: Seq<VideoInfo>) -> bool {
    &&& v.len() == infos.len()
    &&& forall|i: int|
        0 <= i < v.len() ==> {
            &&& (#[trigger] v[i]).title is Some
            &&& v[i].title->Some_0@ == infos[i].video_title@
            &&& v[i].filename@ == infos[i].path@
            &&& v[i].desc@ == Seq::<char>::empty()
        }
}

/// `r` is `base` with the caller's fields laid over it, the given cover URL
/// (if any) and the given videos.
pub open spec fn overlaid(
    r: Studio,
    base: Studio,
    ov: Overrides,
    cover_url: Option<String>,
    videos: Seq<Video>,
) -> bool {
    &&& r.copyright == copyright_for(ov.source is Some)
    &&& r.source@ == text_or(ov.source, base.source@)
    &&& r.tid == match ov.tid {
        Some(t) => t,
        None => base.tid,
    }
    &&& r.cover@ == text_or(cover_url, base.cover@)
    &&& r.title@ == text_or(ov.title, base.title@)
    &&& r.desc@ == text_or(ov.desc, base.desc@)
    &&& r.tag@ == match ov.tag {
        Some(t) => joined_tags(t@),
        None => base.tag@,
    }
    &&& r.videos@ == videos
}

/// The descriptor that a new archive starts from: every text empty, no
/// category, no classification yet, no videos.
pub fn default_studio() -> (r: Studio)
    ensures
        r.copyright == 0,
        r.tid == 0,
        r.source@ == Seq::<char>::empty(),
        r.cover@ == Seq::<char>::empty(),
        r.title@ == Seq::<char>::empty(),
        r.desc@ == Seq::<char>::empty(),
        r.tag@ == Seq::<char>::empty(),
        r.videos@.len() == 0,
{
    Studio {
        copyright: 0,
        source: String::new(),
        tid: 0,
        cover: String::new(),
        title: String::new(),
        desc: String::new(),
        tag: String::new(),
        videos: Vec::new(),
    }
}

/// The tags joined with commas.
pub fn join_tags(tags: &Vec<String>) -> (r: String)
    ensures
        r@ == joined_tags(tags@),
{
    let mut out = String::new();
    let n = tags.len();
    let mut i: usize = 0;
    while i < n
        invariant
            n == tags@.len(),
            0 <= i <= n,
            out@ == joined_tags(tags@.take(i as int)),
        decreases n - i,
    {
        proof {
            reveal_strlit(",");
            let t = tags@.take(i + 1);
            assert(t.drop_last() == tags@.take(i as int));
        }
        if i > 0 {
            out.append(",");
        }
        out.append(tags[i].as_str());
        i = i + 1;
    }
    assert(tags@.take(n as int) == tags@);
    out
}

fn text_or_else(o: &Option<String>, base: String) -> (r: String)
    ensures
        r@ == text_or(*o, base@),
{
    match o {
        Some(s) => s.clone(),
        None => base,
    }
}

/// Lays the caller's fields over `base`: each field given replaces the
/// base's value and each one absent keeps it. The classification follows
/// from whether a source is given, whatever the base held; the cover is the
/// URL of the uploaded cover where there is one; the videos are `videos`.
pub fn overlay(base: Studio, ov: &Overrides, cover_url: Option<String>, videos: Vec<Video>) -> (r:
    Studio)
    ensures
        overlaid(r, base, *ov, cover_url, videos@),
{
    let copyright: u8 = match &ov.source {
        Some(_) => 2,
        None => 1,
    };
    let tid = match ov.tid {
        Some(t) => t,
        None => base.tid,
    };
    let tag = match &ov.tag {
        Some(t) => join_tags(t),
        None => base.tag,
    };
    Studio {
        copyright,
        source: text_or_else(&ov.source, base.source),
        tid,
        cover: text_or_else(&cover_url, base.cover),
        title: text_or_else(&ov.title, base.title),
        desc: text_or_else(&ov.desc, base.desc),
        tag,
        videos,
    }
}

/// One listed video for each named one, in order: its title, its file
/// name, and an empty description.
pub fn construct_videos_list(videos: &Vec<VideoInfo>) -> (r: Vec<Video>)
    ensures
        videos_of(r@, videos@),
{
    let mut out: Vec<Video> = Vec::new();
    let n = videos.len();
    let mut i: usize = 0;
    while i < n
        invariant
            n == videos@.len(),
            0 <= i <= n,
            videos_of(out@, videos@.take(i as int)),
        decreases n - i,
    {
        let v = &videos[i];
        out.push(
            Video { title: Some(v.video_title.clone()), filename: v.path.clone(), desc: String::new() },
        );
        proof {
            let t = videos@.take(i + 1);
            assert forall|k: int| 0 <= k < out@.len() implies {
                &&& (#[trigger] out@[k]).title is Some
                &&& out@[k].title->Some_0@ == t[k].video_title@
                &&& out@[k].filename@ == t[k].path@
                &&& out@[k].desc@ == Seq::<char>::empty()
            } by {
                if k < i {
                    assert(t[k] == videos@.take(i as int)[k]);
                }
            }
        }
        i = i + 1;
    }
    assert(videos@.take(n as int) == videos@);
    out
}

} // verus!
