//! The upload panel: the queue of files picked for the selected session and
//! peer, a run that uploads them one at a time, and what the panel shows.
use vstd::prelude::*;
use vstd::string::StringExecFns;

use crate::numeric::{decimal, decimal_text};
use crate::state::toast::ToastKind;
use crate::text::str_eq;

verus! {

/// How the last upload went.
#[derive(Clone, Copy, Debug, PartialEq, Eq, Structural)]
pub enum UploadOutcome {
    /// Nothing to report.
    Idle,
    /// Every queued file was uploaded.
    Done,
    /// An upload failed, or one could not start.
    Error,
}

/// The state of the upload panel.
#[derive(Clone, Debug)]
pub struct UploadPanelState {
    /// The paths queued for upload, in the order they were picked.
    pub files: Vec<String>,
    /// Whether a run is under way.
    pub is_uploading: bool,
    /// How many files of the run have been uploaded.
    pub done: usize,
    /// How many files the run has.
    pub total: usize,
    pub outcome: UploadOutcome,
    /// The message of the last failure.
    pub last_error: Option<String>,
}

/// What a run uploads: the queued paths, to the selected session as the
/// selected peer.
#[derive(Clone, Debug)]
pub struct UploadJob {
    pub session_id: String,
    pub peer_id: String,
    pub paths: Vec<String>,
}

/// The paths of `files` other than `path`, in their order.
pub open spec fn without_path(files: Seq<String>, path: Seq<char>) -> Seq<String> {
    files.filter(|p: String| p@ != path)
}

/// The message shown after a run in which `n` files were uploaded.
pub open spec fn uploaded_message(n: nat) -> Seq<char> {
    "Uploaded "@ + decimal_text(n) + " file(s)"@
}

/// The message shown after a run that failed with `msg`.
pub open spec fn failed_message(msg: Seq<char>) -> Seq<char> {
    "Upload failed: "@ + msg
}

impl UploadPanelState {
    /// No file queued and nothing to report.
    pub fn new() -> (r: Self)
        ensures
            r.files@.len() == 0,
            !r.is_uploading,
            r.done == 0 && r.total == 0,
            r.outcome == UploadOutcome::Idle,
            r.last_error is None,
    {
        UploadPanelState {
            files: Vec::new(),
            is_uploading: false,
            done: 0,
            total: 0,
            outcome: UploadOutcome::Idle,
            last_error: None,
        }
    }

    /// Queues picked files after those already queued, and clears the report.
    pub fn add_files(&mut self, picked: Vec<String>)
        ensures
            final(self).files@ == old(self).files@ + picked@,
            final(self).outcome == UploadOutcome::Idle,
            final(self).last_error is None,
            final(self).is_uploading == old(self).is_uploading,
            final(self).done == old(self).done,
            final(self).total == old(self).total,
    {
        let mut i: usize = 0;
        let ghost start = self.files@;
        while i < picked.len()
            invariant
                i <= picked@.len(),
                self.files@ == start + picked@.take(i as int),
                self.is_uploading == old(self).is_uploading,
                self.done == old(self).done,
                self.total == old(self).total,
            decreases picked@.len() - i,
        {
            self.files.push(picked[i].clone());
            assert(picked@.take(i + 1) =~= picked@.take(i as int).push(picked@[i as int]));
            i = i + 1;
        }
        assert(picked@.take(picked@.len() as int) =~= picked@);
        self.outcome = UploadOutcome::Idle;
        self.last_error = None;
    }

    /// Empties the queue and clears the report and the progress.
    pub fn clear_files(&mut self)
        ensures
            final(self).files@.len() == 0,
            final(self).outcome == UploadOutcome::Idle,
            final(self).last_error is None,
            final(self).done == 0 && final(self).total == 0,
            final(self).is_uploading == old(self).is_uploading,
    {
        self.files = Vec::new();
        self.outcome = UploadOutcome::Idle;
        self.last_error = None;
        self.done = 0;
        self.total = 0;
    }

    /// Starts a run for the selected session and peer. With no session or no
    /// peer selected nothing starts and the panel says which is missing; with
    /// no file queued nothing happens; else the run of all queued files
    /// starts.
    pub fn begin(&mut self, session_id: Option<String>, peer_id: Option<String>) -> (r: Option<
        UploadJob,
    >)
        ensures
            session_id is None ==> {
                &&& r is None
                &&& final(self).outcome == UploadOutcome::Error
                &&& final(self).last_error matches Some(m) && m@ == "Select a session first."@
                &&& final(self).files == old(self).files
                &&& final(self).is_uploading == old(self).is_uploading
                &&& final(self).done == old(self).done && final(self).total == old(self).total
            },
            session_id is Some && peer_id is None ==> {
                &&& r is None
                &&& final(self).outcome == UploadOutcome::Error
                &&& final(self).last_error matches Some(m) && m@ == "Select a peer first."@
                &&& final(self).files == old(self).files
                &&& final(self).is_uploading == old(self).is_uploading
                &&& final(self).done == old(self).done && final(self).total == old(self).total
            },
            session_id is Some && peer_id is Some && old(self).files@.len() == 0 ==> {
                &&& r is None
                &&& *final(self) == *old(self)
            },
            session_id is Some && peer_id is Some && old(self).files@.len() > 0 ==> {
                &&& r matches Some(job) && job.session_id == session_id->0 && job.peer_id
                    == peer_id->0 && job.paths@ == old(self).files@
                &&& final(self).files == old(self).files
                &&& final(self).is_uploading
                &&& final(self).done == 0 && final(self).total == old(self).files@.len()
                &&& final(self).outcome == UploadOutcome::Idle
                &&& final(self).last_error is None
            },
    {
        let sid = match session_id {
            Some(s) => s,
            None => {
                self.last_error = Some(String::from_str("Select a session first."));
                self.outcome = UploadOutcome::Error;
                return None;
            },
        };
        let pid = match peer_id {
            Some(p) => p,
            None => {
                self.last_error = Some(String::from_str("Select a peer first."));
                self.outcome = UploadOutcome::Error;
                return None;
            },
        };
        if self.files.len() == 0 {
            return None;
        }
        let paths = self.files.clone();
        proof {
            assert(paths@ =~= self.files@);
        }
        self.is_uploading = true;
        self.done = 0;
        self.total = paths.len();
        self.outcome = UploadOutcome::Idle;
        self.last_error = None;
        Some(UploadJob { session_id: sid, peer_id: pid, paths })
    }

    /// Records that the file at `index` of the run, `path`, was uploaded: it
    /// leaves the queue and the progress counts it.
    pub fn file_uploaded(&mut self, index: usize, path: &str)
        requires
            index < old(self).total,
        ensures
            final(self).files@ == without_path(old(self).files@, path@),
            final(self).done == index + 1,
            final(self).total == old(self).total,
            final(self).is_uploading == old(self).is_uploading,
            final(self).outcome == old(self).outcome,
            final(self).last_error == old(self).last_error,
    {
        let ghost old_files = self.files@;
        let mut kept: Vec<String> = Vec::new();
        let n = self.files.len();
        let mut i: usize = 0;
        while i < n
            invariant
                n == old_files.len(),
                self.files@ == old_files,
                i <= n,
                kept@ == without_path(old_files.take(i as int), path@),
            decreases n - i,
        {
            reveal_with_fuel(Seq::filter, 1);
            assert(old_files.take(i + 1).drop_last() =~= old_files.take(i as int));
            if !str_eq(self.files[i].as_str(), path) {
                kept.push(self.files[i].clone());
            }
            i = i + 1;
        }
        assert(old_files.take(n as int) =~= old_files);
        self.files = kept;
        self.done = index + 1;
    }

    /// Ends the run: with a failure the panel reports it and keeps the files
    /// not yet uploaded; else the queue is emptied and the panel reports
    /// success. Returns the notification to show.
    pub fn finish(&mut self, uploaded: usize, failure: Option<String>) -> (r: (ToastKind, String))
        ensures
            !final(self).is_uploading,
            final(self).done == old(self).done && final(self).total == old(self).total,
            match failure {
                Some(msg) => {
                    &&& r.0 == ToastKind::Error
                    &&& r.1@ == failed_message(msg@)
                    &&& final(self).last_error == Some(msg)
                    &&& final(self).outcome == UploadOutcome::Error
                    &&& final(self).files == old(self).files
                },
                None => {
                    &&& r.0 == ToastKind::Info
                    &&& r.1@ == uploaded_message(uploaded as nat)
                    &&& final(self).files@.len() == 0
                    &&& final(self).outcome == UploadOutcome::Done
                    &&& final(self).last_error == old(self).last_error
                },
            },
    {
        self.is_uploading = false;
        match failure {
            Some(msg) => {
                let text = String::from_str("Upload failed: ").concat(msg.as_str());
                self.last_error = Some(msg);
                self.outcome = UploadOutcome::Error;
                (ToastKind::Error, text)
            },
            None => {
                let mut text = String::from_str("Uploaded ");
                let count = decimal(uploaded as u64);
                text.append(count.as_str());
                text.append(" file(s)");
                self.files = Vec::new();
                self.outcome = UploadOutcome::Done;
                (ToastKind::Info, text)
            },
        }
    }
}

/// One step of a run.
#[derive(Clone, Debug, PartialEq, Eq)]
pub enum UploadStep {
    /// Upload the path at this index of the run.
    Send { index: usize, path: String },
    /// The run is over: this many files were uploaded, and this failure, if
    /// any, stopped it.
    Finished { uploaded: usize, failure: Option<String> },
}

/// A run over the queued paths: they are uploaded in order, one at a time,
/// and the first failure ends the run.
#[derive(Debug)]
pub struct UploadRun {
    paths: Vec<String>,
    uploaded: usize,
    failure: Option<String>,
}

impl UploadRun {
    /// The paths of the run.
    pub closed spec fn paths(&self) -> Seq<String> {
        self.paths@
    }

    /// How many paths have been uploaded.
    pub closed spec fn uploaded(&self) -> nat {
        self.uploaded as nat
    }

    /// The failure that ended the run, if one did.
    pub closed spec fn failure(&self) -> Option<String> {
        self.failure
    }

    /// The run is consistent: it never uploaded more paths than it has.
    #[verifier::type_invariant]
    closed spec fn wf(self) -> bool {
        self.uploaded <= self.paths@.len()
    }

    /// A run over `paths` that has uploaded nothing.
    pub fn new(paths: Vec<String>) -> (r: Self)
        ensures
            r.paths() == paths@,
            r.uploaded() == 0,
            r.failure() is None,
    {
        UploadRun { paths, uploaded: 0, failure: None }
    }

    /// What the run does next: upload the next path, or end when every path
    /// was uploaded or one failed.
    pub fn step(&self) -> (r: UploadStep)
        ensures
            (self.failure() is None && self.uploaded() < self.paths().len()) ==> r
                == (UploadStep::Send {
                index: self.uploaded() as usize,
                path: self.paths()[self.uploaded() as int],
            }),
            !(self.failure() is None && self.uploaded() < self.paths().len()) ==> r
                == (UploadStep::Finished {
                uploaded: self.uploaded() as usize,
                failure: self.failure(),
            }),
    {
        match &self.failure {
            Some(msg) => UploadStep::Finished { uploaded: self.uploaded, failure: Some(msg.clone()) },
            None => {
                if self.uploaded < self.paths.len() {
                    UploadStep::Send { index: self.uploaded, path: self.paths[self.uploaded].clone() }
                } else {
                    UploadStep::Finished { uploaded: self.uploaded, failure: None }
                }
            },
        }
    }

    /// Records the answer for the path just sent: `None` when it was
    /// uploaded, else the message of the failure.
    pub fn on_reply(&mut self, failure: Option<String>)
        requires
            old(self).failure() is None,
            old(self).uploaded() < old(self).paths().len(),
        ensures
            final(self).paths() == old(self).paths(),
            failure is None ==> final(self).uploaded() == old(self).uploaded() + 1
                && final(self).failure() is None,
            failure is Some ==> final(self).uploaded() == old(self).uploaded()
                && final(self).failure() == failure,
    {
        match failure {
            None => {
                let n = self.paths.len();
                assert(self.uploaded < n);
                self.uploaded = self.uploaded + 1;
            },
            Some(msg) => {
                self.failure = Some(msg);
            },
        }
    }
}

/// What the upload panel shows.
#[derive(Clone, Debug, PartialEq, Eq)]
pub enum UploadView {
    /// A run is under way: `done` of `total` files uploaded.
    Uploading { done: usize, total: usize },
    /// The last attempt failed with this message.
    Failed(String),
    /// No session or no peer is selected.
    NothingSelected,
    /// No file is queued; `success` shows the banner of a finished run.
    NoFiles { success: bool },
    /// Files are queued; `success` shows the banner of a finished run.
    Files { success: bool },
}

impl UploadPanelState {
    /// What the panel shows, given whether a session and a peer are selected.
    pub fn view(&self, session_selected: bool, peer_selected: bool) -> (r: UploadView)
        ensures
            self.is_uploading ==> r == (UploadView::Uploading { done: self.done, total: self.total }),
            !self.is_uploading && self.outcome == UploadOutcome::Error ==> (r matches UploadView::Failed(
                m,
            ) && m@ == match self.last_error {
                Some(e) => e@,
                None => "Unknown error"@,
            }),
            !self.is_uploading && self.outcome != UploadOutcome::Error && !(session_selected
                && peer_selected) ==> r == UploadView::NothingSelected,
            !self.is_uploading && self.outcome != UploadOutcome::Error && session_selected
                && peer_selected ==> r == if self.files@.len() == 0 {
                UploadView::NoFiles { success: self.outcome == UploadOutcome::Done }
            } else {
                UploadView::Files { success: self.outcome == UploadOutcome::Done }
            },
    {
        if self.is_uploading {
            return UploadView::Uploading { done: self.done, total: self.total };
        }
        if self.outcome == UploadOutcome::Error {
            let m = match &self.last_error {
                Some(e) => e.clone(),
                None => String::from_str("Unknown error"),
            };
            return UploadView::Failed(m);
        }
        if !(session_selected && peer_selected) {
            return UploadView::NothingSelected;
        }
        let success = self.outcome == UploadOutcome::Done;
        if self.files.len() == 0 {
            UploadView::NoFiles { success }
        } else {
            UploadView::Files { success }
        }
    }
}

/// The text of the panel while a run is under way.
pub open spec fn progress_text(done: nat, total: nat) -> Seq<char> {
    "Uploading "@ + decimal_text(done) + "/"@ + decimal_text(total) + "..."@
}

/// The text of the panel while a run is under way: `Uploading 2/5...`.
pub fn progress_label(done: usize, total: usize) -> (r: String)
    ensures
        r@ == progress_text(done as nat, total as nat),
{
    let mut s = String::from_str("Uploading ");
    s.append(decimal(done as u64).as_str());
    s.append("/");
    s.append(decimal(total as u64).as_str());
    s.append("...");
    s
}

} // verus!
