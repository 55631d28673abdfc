//! The publish record ("studio"): the metadata bundle a caller supplies,
//! its assembly around the ordered uploaded-part list, the submission
//! modes, the response handling, and the server-side edit rule.

use vstd::prelude::*;
use crate::errors::SubmissionError;
use crate::line::UploadLine;

verus! {

/// A structured attribution entry as the caller hands it in.
#[derive(Debug)]
pub struct PyCredit {
    pub type_id: i8,
    pub raw_text: String,
    pub biz_id: Option<String>,
}

/// A structured attribution entry of a publish record's description;
/// list order is preserved.
#[derive(Debug)]
pub struct Credit {
    pub type_id: i8,
    pub raw_text: String,
    pub biz_id: Option<String>,
}

/// The credit a caller-supplied entry becomes, field for field.
pub open spec fn spec_credit(c: PyCredit) -> Credit {
    Credit { type_id: c.type_id, raw_text: c.raw_text, biz_id: c.biz_id }
}

/// Convert one caller-supplied credit.
pub fn credit_from_py(c: PyCredit) -> (r: Credit)
    ensures
        r == spec_credit(c),
{
    let PyCredit { type_id, raw_text, biz_id } = c;
    Credit { type_id, raw_text, biz_id }
}

/// Convert the caller-supplied credit list, preserving its order.
pub fn credits_from_py(v: Vec<PyCredit>) -> (r: Vec<Credit>)
    ensures
        r@ == v@.map_values(|c: PyCredit| spec_credit(c)),
{
    let ghost orig = v@;
    let mut rest = v;
    let mut r: Vec<Credit> = Vec::new();
    while rest.len() > 0
        invariant
            r@.len() + rest@.len() == orig.len(),
            rest@ == orig.skip(r@.len() as int),
            r@ == orig.take(r@.len() as int).map_values(|c: PyCredit| spec_credit(c)),
        decreases rest.len(),
    {
        let ghost done = r@.len() as int;
        let c = rest.remove(0);
        proof {
            assert(orig.skip(done).drop_first() =~= orig.skip(done + 1));
            assert(orig.take(done + 1).map_values(|c: PyCredit| spec_credit(c)) =~= orig.take(
                done,
            ).map_values(|c: PyCredit| spec_credit(c)).push(spec_credit(orig[done])));
        }
        r.push(credit_from_py(c));
    }
    proof {
        assert(orig.take(orig.len() as int) =~= orig);
    }
    r
}

/// The result of uploading one local file: an opaque remote reference
/// assigned by the storage endpoint, plus the original file's display
/// name. One-to-one with its input file; collected in caller-supplied
/// order, because the platform renders multi-part videos in list order.
#[derive(Debug)]
pub struct UploadedVideoPart {
    pub remote_ref: String,
    pub file_name: String,
}

/// Everything one upload operation is configured with: the input files
/// in the order their parts must keep, the credential file, the optional
/// explicit line, the concurrency limit, and the publish metadata.
#[derive(Debug)]
pub struct StudioPre {
    pub video_path: Vec<String>,
    pub cookie_file: String,
    pub line: Option<UploadLine>,
    pub limit: usize,
    pub title: String,
    pub tid: u16,
    pub tag: String,
    pub copyright: u8,
    pub source: String,
    pub desc: String,
    pub dynamic: String,
    pub cover: String,
    pub dtime: Option<u32>,
    pub dolby: u8,
    pub lossless_music: u8,
    pub no_reprint: u8,
    pub open_elec: u8,
    pub up_close_reply: bool,
    pub up_selection_reply: bool,
    pub up_close_danmu: bool,
    pub desc_v2_credit: Vec<PyCredit>,
}

/// The aggregate submitted to publish or update a video: metadata plus
/// the ordered uploaded-part list. Invariant: the part list is never
/// empty.
#[derive(Debug)]
pub struct Studio {
    pub title: String,
    pub tid: u16,
    pub tag: String,
    pub copyright: u8,
    pub source: String,
    pub desc: String,
    pub dynamic: String,
    pub cover: String,
    pub dtime: Option<u32>,
    pub dolby: u8,
    pub lossless_music: u8,
    pub no_reprint: u8,
    pub open_elec: u8,
    pub up_close_reply: bool,
    pub up_selection_reply: bool,
    pub up_close_danmu: bool,
    pub desc_v2: Vec<Credit>,
    pub videos: Vec<UploadedVideoPart>,
}

impl Studio {
    /// A publish record is well-formed when it carries at least one
    /// uploaded part.
    pub open spec fn wf(self) -> bool {
        self.videos@.len() >= 1
    }
}

/// Every metadata field of the record equals the configuration it was
/// assembled from, with the caller's credit list converted in order.
pub open spec fn studio_matches_pre(s: Studio, p: StudioPre) -> bool {
    &&& s.title == p.title
    &&& s.tid == p.tid
    &&& s.tag == p.tag
    &&& s.copyright == p.copyright
    &&& s.source == p.source
    &&& s.desc == p.desc
    &&& s.dynamic == p.dynamic
    &&& s.cover == p.cover
    &&& s.dtime == p.dtime
    &&& s.dolby == p.dolby
    &&& s.lossless_music == p.lossless_music
    &&& s.no_reprint == p.no_reprint
    &&& s.open_elec == p.open_elec
    &&& s.up_close_reply == p.up_close_reply
    &&& s.up_selection_reply == p.up_selection_reply
    &&& s.up_close_danmu == p.up_close_danmu
    &&& s.desc_v2@ == p.desc_v2_credit@.map_values(|c: PyCredit| spec_credit(c))
}

/// The two records agree on every field but the cover reference.
pub open spec fn same_except_cover(a: Studio, b: Studio) -> bool {
    &&& a.title == b.title
    &&& a.tid == b.tid
    &&& a.tag == b.tag
    &&& a.copyright == b.copyright
    &&& a.source == b.source
    &&& a.desc == b.desc
    &&& a.dynamic == b.dynamic
    &&& a.dtime == b.dtime
    &&& a.dolby == b.dolby
    &&& a.lossless_music == b.lossless_music
    &&& a.no_reprint == b.no_reprint
    &&& a.open_elec == b.open_elec
    &&& a.up_close_reply == b.up_close_reply
    &&& a.up_selection_reply == b.up_selection_reply
    &&& a.up_close_danmu == b.up_close_danmu
    &&& a.desc_v2 == b.desc_v2
    &&& a.videos == b.videos
}

/// Assemble the publish record from the caller's metadata, the converted
/// credit list, and the uploaded parts in caller-supplied order. Every
/// metadata field carries over unchanged.
pub fn assemble_studio(pre: StudioPre, videos: Vec<UploadedVideoPart>) -> (s: Studio)
    requires
        videos@.len() >= 1,
    ensures
        s.wf(),
        studio_matches_pre(s, pre),
        s.videos == videos,
{
    let StudioPre {
        video_path: _,
        cookie_file: _,
        line: _,
        limit: _,
        title,
        tid,
        tag,
        copyright,
        source,
        desc,
        dynamic,
        cover,
        dtime,
        dolby,
        lossless_music,
        no_reprint,
        open_elec,
        up_close_reply,
        up_selection_reply,
        up_close_danmu,
        desc_v2_credit,
    } = pre;
    let desc_v2 = credits_from_py(desc_v2_credit);
    Studio {
        title,
        tid,
        tag,
        copyright,
        source,
        desc,
        dynamic,
        cover,
        dtime,
        dolby,
        lossless_music,
        no_reprint,
        open_elec,
        up_close_reply,
        up_selection_reply,
        up_close_danmu,
        desc_v2,
        videos,
    }
}

/// How the assembled record is handed to the platform: the standard
/// submission, or the app submission with its optional outbound proxy
/// and user-agent override.
#[derive(Debug)]
pub enum Submission {
    Standard,
    App { proxy: Option<String>, user_agent: Option<String> },
}

/// The submission mode a flag-style caller asks for: the app mode takes
/// the optional proxy and user-agent overrides, the standard mode
/// ignores them.
pub fn submission_from_flags(by_app: bool, proxy: Option<String>, user_agent: Option<String>) -> (s:
    Submission)
    ensures
        by_app ==> s == (Submission::App { proxy, user_agent }),
        !by_app ==> s == Submission::Standard,
{
    if by_app {
        Submission::App { proxy, user_agent }
    } else {
        Submission::Standard
    }
}

/// What the pipeline reads out of the platform's answer to a submission
/// or an edit: the status code, and the published identifier when one
/// was sent.
#[derive(Debug)]
pub struct SubmitResponse {
    pub code: i64,
    pub bvid: Option<String>,
}

/// Extract the published identifier from a submission response. A
/// non-zero status is a semantic failure even though the transport call
/// succeeded; a zero status without the identifier field violates the
/// platform's contract and becomes the typed missing-field error.
pub fn extract_identifier(resp: SubmitResponse) -> (r: Result<String, SubmissionError>)
    ensures
        (match resp.bvid {
            Some(id) => resp.code == 0 ==> r == Ok::<String, SubmissionError>(id),
            None => resp.code == 0 ==> r == Err::<String, SubmissionError>(
                SubmissionError::MissingExpectedField,
            ),
        }),
        resp.code != 0 ==> r == Err::<String, SubmissionError>(
            SubmissionError::NonZeroStatus { code: resp.code },
        ),
{
    if resp.code != 0 {
        Err(SubmissionError::NonZeroStatus { code: resp.code })
    } else {
        match resp.bvid {
            Some(id) => Ok(id),
            None => Err(SubmissionError::MissingExpectedField),
        }
    }
}

/// Accept or reject an edit response by its status code alone: zero is
/// success, anything else a semantic failure even though the transport
/// call succeeded.
pub fn check_edit_response(code: i64) -> (r: Result<(), SubmissionError>)
    ensures
        r is Ok <==> code == 0,
        code != 0 ==> r == Err::<(), SubmissionError>(SubmissionError::NonZeroStatus { code }),
{
    if code == 0 {
        Ok(())
    } else {
        Err(SubmissionError::NonZeroStatus { code })
    }
}

/// Apply an edit to the current server-side record: each supplied
/// override replaces its field, each unsupplied field stays exactly as
/// it was, and nothing else changes. The cover override is the remote
/// URL the new cover was already uploaded to.
pub fn apply_edit(studio: Studio, title: Option<String>, cover_url: Option<String>, tag: Option<
    String,
>) -> (r: Studio)
    ensures
        r.title == (match title {
            Some(t) => t,
            None => studio.title,
        }),
        r.cover == (match cover_url {
            Some(u) => u,
            None => studio.cover,
        }),
        r.tag == (match tag {
            Some(t) => t,
            None => studio.tag,
        }),
        r.tid == studio.tid,
        r.copyright == studio.copyright,
        r.source == studio.source,
        r.desc == studio.desc,
        r.dynamic == studio.dynamic,
        r.dtime == studio.dtime,
        r.dolby == studio.dolby,
        r.lossless_music == studio.lossless_music,
        r.no_reprint == studio.no_reprint,
        r.open_elec == studio.open_elec,
        r.up_close_reply == studio.up_close_reply,
        r.up_selection_reply == studio.up_selection_reply,
        r.up_close_danmu == studio.up_close_danmu,
        r.desc_v2 == studio.desc_v2,
        r.videos == studio.videos,
        r.wf() == studio.wf(),
{
    let mut r = studio;
    match title {
        Some(t) => {
            r.title = t;
        },
        None => {},
    }
    match cover_url {
        Some(u) => {
            r.cover = u;
        },
        None => {},
    }
    match tag {
        Some(t) => {
            r.tag = t;
        },
        None => {},
    }
    r
}

} // verus!
