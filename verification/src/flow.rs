//! The upload orchestrator: a linear state machine with no retries
//! across stages. Authenticate, select a line, upload each input file in
//! caller order, assemble the publish record, resolve the cover, submit.
//! Any stage failure aborts the whole operation; parts already uploaded
//! are only discarded locally. The transport performs each step's
//! outside work and hands its outcome back to the flow, which decides
//! what follows.

use vstd::prelude::*;
use crate::errors::AuthError;
use crate::errors::FlowError;
use crate::errors::SubmissionError;
use crate::errors::UploadError;
use crate::line::ProbeSample;
use crate::line::UploadLine;
use crate::line::choose_line;
use crate::line::spec_chosen;
use crate::session::Session;
use crate::studio::Studio;
use crate::studio::StudioPre;
use crate::studio::SubmitResponse;
use crate::studio::UploadedVideoPart;
use crate::studio::assemble_studio;
use crate::studio::extract_identifier;
use crate::studio::same_except_cover;
use crate::studio::studio_matches_pre;

verus! {

/// How far one upload operation has come.
#[derive(Clone, Copy, Debug, PartialEq, Eq, Structural)]
pub enum UploadStage {
    /// Nothing has happened yet.
    Init,
    /// The session is established.
    Authenticated,
    /// The upload line is fixed; files are streamed in this stage.
    LineSelected,
    /// Every input file has its part; the record is assembled.
    FilesUploaded,
    /// The cover reference, if any, points at a remote URL.
    CoverResolved,
}

/// One end-to-end upload operation. Owns its session for the duration
/// and is never shared across concurrent operations.
#[derive(Debug)]
pub struct UploadFlow {
    pub stage: UploadStage,
    /// The configuration; consumed when the record is assembled.
    pub pre: Option<StudioPre>,
    /// How many input files the caller supplied.
    pub expected: usize,
    pub session: Option<Session>,
    pub line: Option<UploadLine>,
    /// One part per finished file, in caller-supplied order.
    pub parts: Vec<UploadedVideoPart>,
    /// The assembled record, from the files-uploaded stage on.
    pub studio: Option<Studio>,
}

impl UploadFlow {
    /// Stage-by-stage well-formedness: established by `new`, preserved
    /// by every step. In particular, from assembly on, the record holds
    /// exactly one part per input file.
    pub open spec fn wf(self) -> bool {
        &&& self.expected >= 1
        &&& (match self.pre {
            Some(p) => p.video_path@.len() == self.expected && p.limit >= 1,
            None => true,
        })
        &&& (match self.stage {
            UploadStage::Init => {
                &&& self.pre is Some
                &&& self.session is None
                &&& self.line is None
                &&& self.parts@.len() == 0
                &&& self.studio is None
            },
            UploadStage::Authenticated => {
                &&& self.pre is Some
                &&& self.session is Some
                &&& self.line is None
                &&& self.parts@.len() == 0
                &&& self.studio is None
            },
            UploadStage::LineSelected => {
                &&& self.pre is Some
                &&& self.session is Some
                &&& self.line is Some
                &&& self.parts@.len() <= self.expected
                &&& self.studio is None
            },
            UploadStage::FilesUploaded | UploadStage::CoverResolved => {
                &&& self.session is Some
                &&& self.line is Some
                &&& (match self.studio {
                    Some(s) => s.wf() && s.videos@.len() == self.expected,
                    None => false,
                })
            },
        })
    }

    /// Begin an operation over at least one input file.
    pub fn new(pre: StudioPre) -> (f: UploadFlow)
        requires
            pre.video_path@.len() >= 1,
            pre.limit >= 1,
        ensures
            f.wf(),
            f.stage == UploadStage::Init,
            f.pre == Some(pre),
            f.expected == pre.video_path@.len(),
    {
        let expected = pre.video_path.len();
        UploadFlow {
            stage: UploadStage::Init,
            pre: Some(pre),
            expected,
            session: None,
            line: None,
            parts: Vec::new(),
            studio: None,
        }
    }

    /// Take the authentication outcome. A success carries the operation
    /// into the authenticated stage; a failure aborts it with the exact
    /// authentication flavour, tagged with the credential file it
    /// concerned.
    pub fn on_auth(self, result: Result<Session, AuthError>) -> (r: Result<UploadFlow, FlowError>)
        requires
            self.wf(),
            self.stage == UploadStage::Init,
        ensures
            (match result {
                Ok(s) => (match r {
                    Ok(f) => {
                        &&& f.wf()
                        &&& f.stage == UploadStage::Authenticated
                        &&& f.session == Some(s)
                        &&& f.pre == self.pre
                        &&& f.expected == self.expected
                    },
                    Err(_) => false,
                }),
                Err(e) => (match (r, self.pre) {
                    (Err(fe), Some(p)) => fe == (FlowError::Auth {
                        err: e,
                        cookie_file: p.cookie_file,
                    }),
                    _ => false,
                }),
            }),
    {
        let UploadFlow { stage: _, pre, expected, session: _, line, parts, studio } = self;
        match result {
            Ok(s) => Ok(
                UploadFlow {
                    stage: UploadStage::Authenticated,
                    pre,
                    expected,
                    session: Some(s),
                    line,
                    parts,
                    studio,
                },
            ),
            Err(e) => {
                let p = pre.unwrap();
                Err(FlowError::Auth { err: e, cookie_file: p.cookie_file })
            },
        }
    }

    /// Fix the upload line: the configuration's explicit choice if the
    /// caller made one — probing is skipped entirely then — otherwise
    /// the best probe outcome, with the fixed default as fallback.
    pub fn on_line(self, samples: &Vec<ProbeSample>) -> (f: UploadFlow)
        requires
            self.wf(),
            self.stage == UploadStage::Authenticated,
        ensures
            f.wf(),
            f.stage == UploadStage::LineSelected,
            (match self.pre {
                Some(p) => f.line == Some(spec_chosen(p.line, samples@)),
                None => false,
            }),
            f.pre == self.pre,
            f.expected == self.expected,
            f.session == self.session,
            f.parts == self.parts,
    {
        let UploadFlow { stage: _, pre, expected, session, line: _, parts, studio } = self;
        let p = pre.unwrap();
        let chosen = choose_line(p.line, samples);
        UploadFlow {
            stage: UploadStage::LineSelected,
            pre: Some(p),
            expected,
            session,
            line: Some(chosen),
            parts,
            studio,
        }
    }

    /// Append the part of the file that just finished streaming. Parts
    /// arrive strictly sequentially, in caller-supplied file order.
    pub fn record_part(self, part: UploadedVideoPart) -> (f: UploadFlow)
        requires
            self.wf(),
            self.stage == UploadStage::LineSelected,
            self.parts@.len() < self.expected,
        ensures
            f.wf(),
            f.stage == UploadStage::LineSelected,
            f.parts@ == self.parts@.push(part),
            f.pre == self.pre,
            f.expected == self.expected,
            f.session == self.session,
            f.line == self.line,
    {
        let UploadFlow { stage, pre, expected, session, line, parts, studio } = self;
        let mut parts = parts;
        parts.push(part);
        UploadFlow { stage, pre, expected, session, line, parts, studio }
    }

    /// Whether every input file has its part yet.
    pub fn parts_complete(&self) -> (b: bool)
        requires
            self.wf(),
            self.stage == UploadStage::LineSelected,
        ensures
            b == (self.parts@.len() == self.expected),
    {
        self.parts.len() == self.expected
    }

    /// Assemble the publish record from the configuration's metadata and
    /// the collected parts, one per input file, in caller order.
    pub fn assemble(self) -> (f: UploadFlow)
        requires
            self.wf(),
            self.stage == UploadStage::LineSelected,
            self.parts@.len() == self.expected,
        ensures
            f.wf(),
            f.stage == UploadStage::FilesUploaded,
            (match (self.pre, f.studio) {
                (Some(p), Some(s)) => studio_matches_pre(s, p) && s.videos == self.parts,
                _ => false,
            }),
            f.expected == self.expected,
            f.session == self.session,
            f.line == self.line,
    {
        let UploadFlow { stage: _, pre, expected, session, line, parts, studio: _ } = self;
        let p = pre.unwrap();
        let studio = assemble_studio(p, parts);
        UploadFlow {
            stage: UploadStage::FilesUploaded,
            pre: None,
            expected,
            session,
            line,
            parts: Vec::new(),
            studio: Some(studio),
        }
    }

    /// Whether the record names a cover that still has to be read and
    /// uploaded. An empty reference means no cover.
    pub fn cover_pending(&self) -> (b: bool)
        requires
            self.wf(),
            self.stage == UploadStage::FilesUploaded,
        ensures
            (match self.studio {
                Some(s) => b == (s.cover@.len() > 0),
                None => false,
            }),
    {
        let s = self.studio.as_ref().unwrap();
        s.cover.as_str().unicode_len() > 0
    }

    /// Mark the cover resolved. When the cover upload produced a remote
    /// URL, it replaces the local reference; passing no URL is only for
    /// a record that names no cover. Nothing else in the record changes.
    pub fn on_cover_resolved(self, url: Option<String>) -> (f: UploadFlow)
        requires
            self.wf(),
            self.stage == UploadStage::FilesUploaded,
            url is None ==> (match self.studio {
                Some(s) => s.cover@.len() == 0,
                None => false,
            }),
        ensures
            f.wf(),
            f.stage == UploadStage::CoverResolved,
            (match (self.studio, f.studio) {
                (Some(s0), Some(s1)) => {
                    &&& same_except_cover(s0, s1)
                    &&& s1.cover == (match url {
                        Some(u) => u,
                        None => s0.cover,
                    })
                },
                _ => false,
            }),
            f.expected == self.expected,
            f.session == self.session,
            f.line == self.line,
    {
        let UploadFlow { stage: _, pre, expected, session, line, parts, studio } = self;
        let mut s = studio.unwrap();
        match url {
            Some(u) => {
                s.cover = u;
            },
            None => {},
        }
        UploadFlow {
            stage: UploadStage::CoverResolved,
            pre,
            expected,
            session,
            line,
            parts,
            studio: Some(s),
        }
    }

    /// Abort because reading or uploading the cover failed: the error
    /// names the cover reference so the caller sees which path was at
    /// fault.
    pub fn on_cover_failure(self) -> (e: FlowError)
        requires
            self.wf(),
            self.stage == UploadStage::FilesUploaded,
        ensures
            (match self.studio {
                Some(s) => e == (FlowError::Upload {
                    err: UploadError::CoverUploadFailure,
                    path: s.cover,
                }),
                None => false,
            }),
    {
        let UploadFlow { studio, .. } = self;
        let s = studio.unwrap();
        FlowError::Upload { err: UploadError::CoverUploadFailure, path: s.cover }
    }

    /// The assembled record: available once every part is in, and what
    /// is submitted once the cover is resolved.
    pub fn record(&self) -> (s: &Studio)
        requires
            self.wf(),
            self.stage == UploadStage::FilesUploaded || self.stage == UploadStage::CoverResolved,
        ensures
            Some(*s) == self.studio,
            s.wf(),
    {
        self.studio.as_ref().unwrap()
    }

    /// Take the platform's answer to the submission and close the
    /// operation: the published identifier on a zero status, the typed
    /// missing-field error on a zero status without one, and the
    /// non-zero status as a semantic failure otherwise.
    pub fn on_submit_response(self, resp: SubmitResponse) -> (r: Result<String, FlowError>)
        requires
            self.wf(),
            self.stage == UploadStage::CoverResolved,
        ensures
            resp.code != 0 ==> r == Err::<String, FlowError>(
                FlowError::Submission { err: SubmissionError::NonZeroStatus { code: resp.code } },
            ),
            (match resp.bvid {
                Some(id) => resp.code == 0 ==> r == Ok::<String, FlowError>(id),
                None => resp.code == 0 ==> r == Err::<String, FlowError>(
                    FlowError::Submission { err: SubmissionError::MissingExpectedField },
                ),
            }),
    {
        match extract_identifier(resp) {
            Ok(id) => Ok(id),
            Err(e) => Err(FlowError::Submission { err: e }),
        }
    }
}

/// Law: once the record is assembled, it carries exactly one part per
/// caller-supplied input file — however many files there were — and the
/// part list is the one collected in caller order.
pub proof fn lemma_parts_one_per_file(f: UploadFlow)
    requires
        f.wf(),
        f.stage == UploadStage::FilesUploaded || f.stage == UploadStage::CoverResolved,
    ensures
        (match f.studio {
            Some(s) => s.videos@.len() == f.expected && s.videos@.len() >= 1,
            None => false,
        }),
{
}

} // verus!
