//! Copying a file to the remote side and back, each over a channel of its
//! own.
//!
//! A transfer is idle until it asks for its channel, then transfers, and
//! ends closed. It can fail from any state but the last. A channel that was
//! opened is closed before the transfer ends, whether it ends well or not.

use crate::channel::{closes, law_closed_exactly_once, opens, orderly, Hold};
use crate::error::SshError;
use crate::reply::{all_data, payload, FileStat, Reply};
use vstd::prelude::*;
use vstd::slice::slice_subrange;

verus! {

/// The permission bits that an uploaded file is created with: the owner may
/// read and write, everybody else may read.
pub const UPLOAD_MODE: i32 = 0o644;

/// Where a transfer stands.
#[derive(Clone, Copy, Debug, PartialEq, Eq, Structural)]
pub enum TransferStage {
    /// No channel has been asked for yet.
    Idle,
    /// The channel has been asked for.
    ChannelOpening,
    /// The channel is open and bytes are going through.
    Transferring,
    /// The channel is open and is to be closed; how the transfer ends is
    /// decided.
    Closing,
    /// The transfer has ended well.
    Closed,
    /// The transfer has failed.
    Failed,
}

impl TransferStage {
    /// What the transfer has of its channel at this stage.
    pub open spec fn hold(self) -> Hold {
        match self {
            TransferStage::Idle | TransferStage::ChannelOpening => Hold::Unopened,
            TransferStage::Transferring => Hold::Open,
            TransferStage::Closing => Hold::Closing,
            TransferStage::Closed | TransferStage::Failed => Hold::Ended,
        }
    }

    /// Whether the transfer has ended.
    pub open spec fn ended(self) -> bool {
        self == TransferStage::Closed || self == TransferStage::Failed
    }
}

/// What the driver is to do next for an upload.
#[derive(Debug)]
pub enum UploadAction<'a> {
    /// Read on in the local file at this path.
    ReadLocal { path: &'a str },
    /// Ask the remote side to take a file of `size` bytes at `path`, with
    /// the permission bits `mode`.
    OpenSend { path: &'a str, mode: i32, size: u64 },
    /// Offer these bytes to the channel.
    Write { bytes: &'a [u8] },
    /// Close the channel.
    Close,
    /// The upload has ended, with this result.
    Finish(Result<(), SshError>),
}

/// How far a transfer has come. The three values change together.
#[derive(Clone, Copy, Debug)]
struct Progress {
    sent: usize,
    stage: TransferStage,
    failure: Option<SshError>,
}

/// The upload of one local file, as far as it has come.
#[derive(Debug)]
pub struct Upload {
    local: String,
    remote: String,
    mode: i32,
    data: Vec<u8>,
    progress: Progress,
}

/// An `Upload` as plain values.
pub struct UploadView {
    /// The path of the local file.
    pub local: Seq<char>,
    /// The path that the file is to have on the remote side.
    pub remote: Seq<char>,
    /// The permission bits that the file is to have there.
    pub mode: i32,
    /// The bytes of the local file, as far as they have been read.
    pub data: Seq<u8>,
    /// How many of them the channel has taken.
    pub sent: nat,
    pub stage: TransferStage,
    /// Why the upload fails, once that is decided.
    pub failure: Option<SshError>,
}

impl View for Upload {
    type V = UploadView;

    closed spec fn view(&self) -> UploadView {
        UploadView {
            local: self.local@,
            remote: self.remote@,
            mode: self.mode,
            data: self.data@,
            sent: self.progress.sent as nat,
            stage: self.progress.stage,
            failure: self.progress.failure,
        }
    }
}

impl UploadView {
    /// An upload that has not read anything yet. The file is to be created
    /// with the permission bits `UPLOAD_MODE`.
    pub open spec fn begin(local: Seq<char>, remote: Seq<char>) -> UploadView {
        UploadView {
            local,
            remote,
            mode: UPLOAD_MODE,
            data: Seq::empty(),
            sent: 0,
            stage: TransferStage::Idle,
            failure: None,
        }
    }

    /// What holds of every upload: the channel has taken no more than there
    /// is; it has taken nothing before it was open; while bytes go through
    /// some are left; and an upload ends well only with all bytes taken.
    pub open spec fn wf(self) -> bool {
        &&& self.sent <= self.data.len()
        &&& match self.stage {
            TransferStage::Idle | TransferStage::ChannelOpening => self.sent == 0
                && self.failure is None,
            TransferStage::Transferring => self.sent < self.data.len() && self.failure is None,
            TransferStage::Closing => self.failure is None ==> self.sent == self.data.len(),
            TransferStage::Closed => self.sent == self.data.len() && self.failure is None,
            TransferStage::Failed => self.failure is Some,
        }
    }

    /// The bytes that the channel has taken.
    pub open spec fn delivered(self) -> Seq<u8> {
        self.data.subrange(0, self.sent as int)
    }

    /// The bytes that the channel has yet to take.
    pub open spec fn pending(self) -> Seq<u8> {
        self.data.subrange(self.sent as int, self.data.len() as int)
    }

    /// The upload after the answer to its action.
    ///
    /// Idle, it reads the local file: bytes are added to what was read, the
    /// end of the file leads on to the channel, anything else is a local
    /// failure. Asking for the channel either opens it or fails. With the
    /// channel open, a write that took some of the bytes offered, and no more
    /// than were offered, moves on by that many; any other answer is a
    /// failed transfer. When nothing is left, or the transfer has failed,
    /// the channel is closed, and whatever closing answers the upload ends
    /// as was decided.
    pub open spec fn next(self, reply: Reply) -> UploadView {
        match self.stage {
            TransferStage::Idle => match reply {
                Reply::Data(chunk) => UploadView { data: self.data + chunk@, ..self },
                Reply::End => UploadView { stage: TransferStage::ChannelOpening, ..self },
                _ => UploadView {
                    stage: TransferStage::Failed,
                    failure: Some(SshError::LocalIo),
                    ..self
                },
            },
            TransferStage::ChannelOpening => match reply {
                Reply::Done => UploadView {
                    stage: if self.sent == self.data.len() {
                        TransferStage::Closing
                    } else {
                        TransferStage::Transferring
                    },
                    ..self
                },
                _ => UploadView {
                    stage: TransferStage::Failed,
                    failure: Some(SshError::ChannelOpen),
                    ..self
                },
            },
            TransferStage::Transferring => match reply {
                Reply::Wrote(n) if 0 < n && self.sent + n <= self.data.len() => UploadView {
                    sent: self.sent + n as nat,
                    stage: if self.sent + n == self.data.len() {
                        TransferStage::Closing
                    } else {
                        TransferStage::Transferring
                    },
                    ..self
                },
                _ => UploadView {
                    stage: TransferStage::Closing,
                    failure: Some(SshError::Transfer),
                    ..self
                },
            },
            TransferStage::Closing => UploadView {
                stage: if self.failure is None {
                    TransferStage::Closed
                } else {
                    TransferStage::Failed
                },
                ..self
            },
            TransferStage::Closed | TransferStage::Failed => self,
        }
    }

    /// The upload after a row of answers.
    pub open spec fn run(self, replies: Seq<Reply>) -> UploadView
        decreases replies.len(),
    {
        if replies.len() == 0 {
            self
        } else {
            self.next(replies[0]).run(replies.skip(1))
        }
    }

    /// What the upload has of its channel from step to step, while it takes
    /// the answers.
    pub open spec fn course(self, replies: Seq<Reply>) -> Seq<Hold>
        decreases replies.len(),
    {
        if replies.len() == 0 {
            seq![self.stage.hold()]
        } else {
            seq![self.stage.hold()] + self.next(replies[0]).course(replies.skip(1))
        }
    }

    /// How the upload has ended, if it has.
    pub open spec fn outcome(self) -> Option<Result<(), SshError>> {
        match self.stage {
            TransferStage::Closed => Some(Ok(())),
            TransferStage::Failed => Some(Err(self.failure->0)),
            _ => None,
        }
    }
}

impl Upload {
    #[verifier::type_invariant]
    spec fn inv(&self) -> bool {
        self@.wf()
    }

    /// An upload of the file at `local` to `remote`. Nothing is read yet.
    pub fn begin(local: &str, remote: &str) -> (up: Upload)
        ensures
            up@ == UploadView::begin(local@, remote@),
    {
        Upload {
            local: local.to_owned(),
            remote: remote.to_owned(),
            mode: UPLOAD_MODE,
            data: Vec::new(),
            progress: Progress { sent: 0, stage: TransferStage::Idle, failure: None },
        }
    }

    /// The same upload with other permission bits for the remote file.
    pub fn with_mode(self, mode: i32) -> (up: Upload)
        ensures
            up@ == (UploadView { mode, ..self@ }),
    {
        proof {
            use_type_invariant(&self);
        }
        Upload { mode, ..self }
    }

    /// How many bytes of the local file have been read.
    pub fn size(&self) -> (n: usize)
        ensures
            n == self@.data.len(),
    {
        self.data.len()
    }

    /// How many bytes the channel has taken.
    pub fn sent(&self) -> (n: usize)
        ensures
            n == self@.sent,
            n <= self@.data.len(),
    {
        proof {
            use_type_invariant(self);
        }
        self.progress.sent
    }

    /// Where the upload stands.
    pub fn stage(&self) -> (s: TransferStage)
        ensures
            s == self@.stage,
            self@.wf(),
    {
        proof {
            use_type_invariant(self);
        }
        self.progress.stage
    }

    /// What the driver is to do next. The size that the remote side is told
    /// is the number of bytes read; the bytes offered are all that the
    /// channel has not taken yet.
    pub fn action(&self) -> (a: UploadAction<'_>)
        ensures
            self@.wf(),
            match self@.stage {
                TransferStage::Idle => a matches UploadAction::ReadLocal { path } && path@
                    == self@.local,
                TransferStage::ChannelOpening => a matches UploadAction::OpenSend {
                    path,
                    mode,
                    size,
                } && path@ == self@.remote && mode == self@.mode && size == self@.data.len(),
                TransferStage::Transferring => a matches UploadAction::Write { bytes } && bytes@
                    == self@.pending() && bytes@.len() > 0,
                TransferStage::Closing => a == UploadAction::Close,
                TransferStage::Closed | TransferStage::Failed => a matches UploadAction::Finish(r)
                    && Some(r) == self@.outcome(),
            },
    {
        proof {
            use_type_invariant(self);
        }
        match self.progress.stage {
            TransferStage::Idle => UploadAction::ReadLocal { path: self.local.as_str() },
            TransferStage::ChannelOpening => UploadAction::OpenSend {
                path: self.remote.as_str(),
                mode: self.mode,
                size: self.data.len() as u64,
            },
            TransferStage::Transferring => UploadAction::Write {
                bytes: slice_subrange(self.data.as_slice(), self.progress.sent, self.data.len()),
            },
            TransferStage::Closing => UploadAction::Close,
            TransferStage::Closed => UploadAction::Finish(Ok(())),
            TransferStage::Failed => UploadAction::Finish(Err(self.progress.failure.unwrap())),
        }
    }

    /// Takes the answer to the last action.
    pub fn step(&mut self, reply: Reply)
        ensures
            final(self)@ == old(self)@.next(reply),
            final(self)@.wf(),
    {
        proof {
            use_type_invariant(&*self);
        }
        let now = self.progress;
        match now.stage {
            TransferStage::Idle => match reply {
                Reply::Data(chunk) => {
                    let mut chunk = chunk;
                    let mut data: Vec<u8> = Vec::new();
                    core::mem::swap(&mut data, &mut self.data);
                    data.append(&mut chunk);
                    self.data = data;
                },
                Reply::End => {
                    self.progress = Progress { stage: TransferStage::ChannelOpening, ..now };
                },
                _ => {
                    self.progress = Progress {
                        stage: TransferStage::Failed,
                        failure: Some(SshError::LocalIo),
                        ..now
                    };
                },
            },
            TransferStage::ChannelOpening => match reply {
                Reply::Done => {
                    let stage = if self.data.len() == 0 {
                        TransferStage::Closing
                    } else {
                        TransferStage::Transferring
                    };
                    self.progress = Progress { stage, ..now };
                },
                _ => {
                    self.progress = Progress {
                        stage: TransferStage::Failed,
                        failure: Some(SshError::ChannelOpen),
                        ..now
                    };
                },
            },
            TransferStage::Transferring => {
                let left = self.data.len() - now.sent;
                match reply {
                    Reply::Wrote(n) if 0 < n && n <= left => {
                        let stage = if n == left {
                            TransferStage::Closing
                        } else {
                            TransferStage::Transferring
                        };
                        self.progress = Progress { sent: now.sent + n, stage, ..now };
                    },
                    _ => {
                        self.progress = Progress {
                            stage: TransferStage::Closing,
                            failure: Some(SshError::Transfer),
                            ..now
                        };
                    },
                }
            },
            TransferStage::Closing => {
                let stage = if now.failure.is_none() {
                    TransferStage::Closed
                } else {
                    TransferStage::Failed
                };
                self.progress = Progress { stage, ..now };
            },
            TransferStage::Closed | TransferStage::Failed => {},
        }
    }
}

/// What the driver is to do next for a download.
#[derive(Debug)]
pub enum DownloadAction<'a> {
    /// Ask the remote side to send the file at this path.
    OpenRecv { path: &'a str },
    /// Read on in the channel.
    Read,
    /// Close the channel.
    Close,
    /// The download has ended; `finish` gives the result.
    Finish,
}

/// How far a download has come. The three values change together.
#[derive(Clone, Copy, Debug)]
struct Reception {
    stat: Option<FileStat>,
    stage: TransferStage,
    failure: Option<SshError>,
}

/// The download of one remote file, as far as it has come.
#[derive(Debug)]
pub struct Download {
    remote: String,
    data: Vec<u8>,
    reception: Reception,
}

/// A `Download` as plain values.
pub struct DownloadView {
    /// The path of the file on the remote side.
    pub remote: Seq<char>,
    /// What the remote side reported of the file when it agreed to send it.
    pub stat: Option<FileStat>,
    /// The bytes received so far.
    pub data: Seq<u8>,
    pub stage: TransferStage,
    /// Why the download fails, once that is decided.
    pub failure: Option<SshError>,
}

impl View for Download {
    type V = DownloadView;

    closed spec fn view(&self) -> DownloadView {
        DownloadView {
            remote: self.remote@,
            stat: self.reception.stat,
            data: self.data@,
            stage: self.reception.stage,
            failure: self.reception.failure,
        }
    }
}

impl DownloadView {
    /// A download that is about to ask for its channel.
    pub open spec fn begin(remote: Seq<char>) -> DownloadView {
        DownloadView {
            remote,
            stat: None,
            data: Seq::empty(),
            stage: TransferStage::ChannelOpening,
            failure: None,
        }
    }

    /// What holds of every download: it is never idle; once the channel was
    /// open the metadata is known; it ends well only without a failure, and
    /// fails only with one.
    pub open spec fn wf(self) -> bool {
        match self.stage {
            TransferStage::Idle => false,
            TransferStage::ChannelOpening => self.stat is None && self.failure is None,
            TransferStage::Transferring => self.stat is Some && self.failure is None,
            TransferStage::Closing => self.stat is Some,
            TransferStage::Closed => self.stat is Some && self.failure is None,
            TransferStage::Failed => self.failure is Some,
        }
    }

    /// The download after the answer to its action.
    ///
    /// Asking for the channel either brings the file's metadata, and the
    /// channel is open, or fails. With the channel open, bytes that a read
    /// brings are added to what was received, the end of the stream leads on
    /// to closing, and any other answer is a failed transfer. The channel is
    /// then closed, and whatever closing answers the download ends as was
    /// decided.
    pub open spec fn next(self, reply: Reply) -> DownloadView {
        match self.stage {
            TransferStage::Idle => self,
            TransferStage::ChannelOpening => match reply {
                Reply::Stat(stat) => DownloadView {
                    stat: Some(stat),
                    stage: TransferStage::Transferring,
                    ..self
                },
                _ => DownloadView {
                    stage: TransferStage::Failed,
                    failure: Some(SshError::ChannelOpen),
                    ..self
                },
            },
            TransferStage::Transferring => match reply {
                Reply::Data(chunk) => DownloadView { data: self.data + chunk@, ..self },
                Reply::End => DownloadView { stage: TransferStage::Closing, ..self },
                _ => DownloadView {
                    stage: TransferStage::Closing,
                    failure: Some(SshError::Transfer),
                    ..self
                },
            },
            TransferStage::Closing => DownloadView {
                stage: if self.failure is None {
                    TransferStage::Closed
                } else {
                    TransferStage::Failed
                },
                ..self
            },
            TransferStage::Closed | TransferStage::Failed => self,
        }
    }

    /// The download after a row of answers.
    pub open spec fn run(self, replies: Seq<Reply>) -> DownloadView
        decreases replies.len(),
    {
        if replies.len() == 0 {
            self
        } else {
            self.next(replies[0]).run(replies.skip(1))
        }
    }

    /// What the download has of its channel from step to step, while it takes
    /// the answers.
    pub open spec fn course(self, replies: Seq<Reply>) -> Seq<Hold>
        decreases replies.len(),
    {
        if replies.len() == 0 {
            seq![self.stage.hold()]
        } else {
            seq![self.stage.hold()] + self.next(replies[0]).course(replies.skip(1))
        }
    }

    /// How the download has ended, if it has: with all bytes received and
    /// the metadata as the remote side reported it, or with the error.
    pub open spec fn outcome(self) -> Option<Result<(Seq<u8>, FileStat), SshError>> {
        match self.stage {
            TransferStage::Closed => Some(Ok((self.data, self.stat->0))),
            TransferStage::Failed => Some(Err(self.failure->0)),
            _ => None,
        }
    }
}

impl Download {
    #[verifier::type_invariant]
    spec fn inv(&self) -> bool {
        self@.wf()
    }

    /// A download of the file at `remote`. Nothing is asked yet.
    pub fn begin(remote: &str) -> (down: Download)
        ensures
            down@ == DownloadView::begin(remote@),
    {
        Download {
            remote: remote.to_owned(),
            data: Vec::new(),
            reception: Reception {
                stat: None,
                stage: TransferStage::ChannelOpening,
                failure: None,
            },
        }
    }

    /// What the remote side reported of the file, once it has.
    pub fn stat(&self) -> (st: Option<FileStat>)
        ensures
            st == self@.stat,
    {
        self.reception.stat
    }

    /// How many bytes have been received.
    pub fn received(&self) -> (n: usize)
        ensures
            n == self@.data.len(),
    {
        self.data.len()
    }

    /// Where the download stands.
    pub fn stage(&self) -> (s: TransferStage)
        ensures
            s == self@.stage,
            self@.wf(),
    {
        proof {
            use_type_invariant(self);
        }
        self.reception.stage
    }

    /// What the driver is to do next.
    pub fn action(&self) -> (a: DownloadAction<'_>)
        ensures
            self@.wf(),
            match self@.stage {
                TransferStage::Idle => false,
                TransferStage::ChannelOpening => a matches DownloadAction::OpenRecv { path }
                    && path@ == self@.remote,
                TransferStage::Transferring => a == DownloadAction::Read,
                TransferStage::Closing => a == DownloadAction::Close,
                TransferStage::Closed | TransferStage::Failed => a == DownloadAction::Finish,
            },
    {
        proof {
            use_type_invariant(self);
        }
        match self.reception.stage {
            TransferStage::Idle | TransferStage::ChannelOpening => DownloadAction::OpenRecv {
                path: self.remote.as_str(),
            },
            TransferStage::Transferring => DownloadAction::Read,
            TransferStage::Closing => DownloadAction::Close,
            TransferStage::Closed | TransferStage::Failed => DownloadAction::Finish,
        }
    }

    /// Takes the answer to the last action.
    pub fn step(&mut self, reply: Reply)
        ensures
            final(self)@ == old(self)@.next(reply),
            final(self)@.wf(),
    {
        proof {
            use_type_invariant(&*self);
        }
        let now = self.reception;
        match now.stage {
            TransferStage::ChannelOpening => match reply {
                Reply::Stat(stat) => {
                    self.reception = Reception {
                        stat: Some(stat),
                        stage: TransferStage::Transferring,
                        ..now
                    };
                },
                _ => {
                    self.reception = Reception {
                        stage: TransferStage::Failed,
                        failure: Some(SshError::ChannelOpen),
                        ..now
                    };
                },
            },
            TransferStage::Transferring => match reply {
                Reply::Data(chunk) => {
                    let mut chunk = chunk;
                    let mut data: Vec<u8> = Vec::new();
                    core::mem::swap(&mut data, &mut self.data);
                    data.append(&mut chunk);
                    self.data = data;
                },
                Reply::End => {
                    self.reception = Reception { stage: TransferStage::Closing, ..now };
                },
                _ => {
                    self.reception = Reception {
                        stage: TransferStage::Closing,
                        failure: Some(SshError::Transfer),
                        ..now
                    };
                },
            },
            TransferStage::Closing => {
                let stage = if now.failure.is_none() {
                    TransferStage::Closed
                } else {
                    TransferStage::Failed
                };
                self.reception = Reception { stage, ..now };
            },
            TransferStage::Idle | TransferStage::Closed | TransferStage::Failed => {},
        }
    }

    /// The result of a download that has ended: the bytes received and the
    /// metadata, or the error. A download that has not ended has no result.
    pub fn finish(self) -> (r: Option<Result<(Vec<u8>, FileStat), SshError>>)
        ensures
            match self@.outcome() {
                None => r is None,
                Some(Ok((data, stat))) => r matches Some(Ok((bytes, s))) && bytes@ == data && s
                    == stat,
                Some(Err(e)) => r == Some(Err::<(Vec<u8>, FileStat), SshError>(e)),
            },
    {
        proof {
            use_type_invariant(&self);
        }
        match self.reception.stage {
            TransferStage::Closed => Some(Ok((self.data, self.reception.stat.unwrap()))),
            TransferStage::Failed => Some(Err(self.reception.failure.unwrap())),
            _ => None,
        }
    }
}

/// Every upload is well formed: a fresh one is, and each answer keeps it so.
pub proof fn law_upload_invariant(local: Seq<char>, remote: Seq<char>, replies: Seq<Reply>)
    ensures
        UploadView::begin(local, remote).run(replies).wf(),
{
    lemma_upload_run_keeps_wf(UploadView::begin(local, remote), replies);
}

/// Every download is well formed: a fresh one is, and each answer keeps it
/// so.
pub proof fn law_download_invariant(remote: Seq<char>, replies: Seq<Reply>)
    ensures
        DownloadView::begin(remote).run(replies).wf(),
{
    lemma_download_run_keeps_wf(DownloadView::begin(remote), replies);
}

proof fn lemma_upload_run_keeps_wf(up: UploadView, replies: Seq<Reply>)
    requires
        up.wf(),
    ensures
        up.run(replies).wf(),
    decreases replies.len(),
{
    if replies.len() > 0 {
        lemma_upload_run_keeps_wf(up.next(replies[0]), replies.skip(1));
    }
}

proof fn lemma_download_run_keeps_wf(down: DownloadView, replies: Seq<Reply>)
    requires
        down.wf(),
    ensures
        down.run(replies).wf(),
    decreases replies.len(),
{
    if replies.len() > 0 {
        lemma_download_run_keeps_wf(down.next(replies[0]), replies.skip(1));
    }
}

/// Nothing is cut short: in an upload that has ended well nothing is left
/// to send. The channel has taken every byte that was read.
pub proof fn law_upload_delivers_all(up: UploadView)
    requires
        up.wf(),
        up.stage == TransferStage::Closed,
    ensures
        up.delivered() == up.data,
        up.pending().len() == 0,
{
}

/// What a write took is what the remote side has more: the bytes delivered
/// grow by the first `n` of the bytes that were offered.
pub proof fn law_write_appends(up: UploadView, n: usize)
    requires
        up.wf(),
        up.stage == TransferStage::Transferring,
        0 < n <= up.pending().len(),
    ensures
        up.next(Reply::Wrote(n)).delivered() == up.delivered() + up.pending().subrange(
            0,
            n as int,
        ),
        up.next(Reply::Wrote(n)).data == up.data,
{
}

/// Reading the local file adds every piece, however the file is cut: after a
/// row of reads the upload holds what it held and then the bytes of each
/// read, in their order.
pub proof fn law_upload_reads_whole_file(up: UploadView, reads: Seq<Reply>)
    requires
        up.stage == TransferStage::Idle,
        all_data(reads),
    ensures
        up.run(reads) == (UploadView { data: up.data + payload(reads), ..up }),
    decreases reads.len(),
{
    if reads.len() == 0 {
        assert(up.data + payload(reads) == up.data);
    } else {
        let next = up.next(reads[0]);
        law_upload_reads_whole_file(next, reads.skip(1));
        assert(next.data + payload(reads.skip(1)) == up.data + payload(reads));
    }
}

/// Receiving adds every piece, however the stream is cut: after a row of
/// reads the download holds what it held and then the bytes of each read, in
/// their order.
pub proof fn law_download_receives_all(down: DownloadView, reads: Seq<Reply>)
    requires
        down.stage == TransferStage::Transferring,
        all_data(reads),
    ensures
        down.run(reads) == (DownloadView { data: down.data + payload(reads), ..down }),
    decreases reads.len(),
{
    if reads.len() == 0 {
        assert(down.data + payload(reads) == down.data);
    } else {
        let next = down.next(reads[0]);
        law_download_receives_all(next, reads.skip(1));
        assert(next.data + payload(reads.skip(1)) == down.data + payload(reads));
    }
}

/// Once the local file is read its bytes stay as they are.
proof fn lemma_upload_data_is_kept(up: UploadView, replies: Seq<Reply>)
    requires
        up.stage != TransferStage::Idle,
    ensures
        up.run(replies).data == up.data,
        up.run(replies).stage != TransferStage::Idle,
    decreases replies.len(),
{
    if replies.len() > 0 {
        lemma_upload_data_is_kept(up.next(replies[0]), replies.skip(1));
    }
}

/// An upload that ends well has delivered the local file, whole: where the
/// file is read in `file`, piece by piece to its end, and the upload then
/// ends well on the answers in `sending`, the bytes that the channel has
/// taken are those of all the reads, in their order, and their number is
/// the size that the remote side was told.
pub proof fn law_upload_delivers_the_file(
    local: Seq<char>,
    remote: Seq<char>,
    file: Seq<Reply>,
    sending: Seq<Reply>,
)
    requires
        all_data(file),
        UploadView::begin(local, remote).run(file).next(Reply::End).run(sending).stage
            == TransferStage::Closed,
    ensures
        UploadView::begin(local, remote).run(file).next(Reply::End).run(sending).delivered()
            == payload(file),
        UploadView::begin(local, remote).run(file).next(Reply::End).run(sending).data.len()
            == payload(file).len(),
{
    let fresh = UploadView::begin(local, remote);
    let read = fresh.run(file).next(Reply::End);
    law_upload_reads_whole_file(fresh, file);
    assert(fresh.data + payload(file) == payload(file));
    lemma_upload_run_keeps_wf(fresh, file);
    lemma_upload_run_keeps_wf(read, sending);
    lemma_upload_data_is_kept(read, sending);
}

/// Round trip: a file that was uploaded comes back as it was. Where an
/// upload has ended well and the remote side then sends the bytes that it
/// was given, in pieces of any size, the download ends well with exactly the
/// bytes of the local file, from none to more than any one read brings.
pub proof fn law_round_trip(
    local: Seq<char>,
    remote: Seq<char>,
    file: Seq<Reply>,
    sending: Seq<Reply>,
    stat: FileStat,
    receiving: Seq<Reply>,
    closing: Reply,
)
    requires
        all_data(file),
        UploadView::begin(local, remote).run(file).next(Reply::End).run(sending).stage
            == TransferStage::Closed,
        all_data(receiving),
        payload(receiving) == UploadView::begin(local, remote).run(file).next(Reply::End).run(
            sending,
        ).delivered(),
    ensures
        DownloadView::begin(remote).next(Reply::Stat(stat)).run(receiving).next(Reply::End).next(
            closing,
        ).outcome() == Some(Ok::<(Seq<u8>, FileStat), SshError>((payload(file), stat))),
{
    law_upload_delivers_the_file(local, remote, file, sending);
    let open = DownloadView::begin(remote).next(Reply::Stat(stat));
    law_download_receives_all(open, receiving);
    assert(open.data + payload(receiving) == payload(file));
}

/// An upload opens at most one channel, and closes the one that it opened
/// exactly once on whatever path it ends: with all bytes through, or on a
/// write that did not complete.
pub proof fn law_upload_closes_its_channel(
    local: Seq<char>,
    remote: Seq<char>,
    replies: Seq<Reply>,
)
    ensures
        ({
            let course = UploadView::begin(local, remote).course(replies);
            &&& orderly(course)
            &&& opens(course) <= 1
            &&& closes(course) <= opens(course)
            &&& UploadView::begin(local, remote).run(replies).stage.ended() ==> closes(course)
                == opens(course)
        }),
{
    lemma_upload_course(UploadView::begin(local, remote), replies);
    law_closed_exactly_once(UploadView::begin(local, remote).course(replies));
}

/// A download opens at most one channel, and closes the one that it opened
/// exactly once on whatever path it ends: with all bytes received, or on a
/// failed read.
pub proof fn law_download_closes_its_channel(remote: Seq<char>, replies: Seq<Reply>)
    ensures
        ({
            let course = DownloadView::begin(remote).course(replies);
            &&& orderly(course)
            &&& opens(course) <= 1
            &&& closes(course) <= opens(course)
            &&& DownloadView::begin(remote).run(replies).stage.ended() ==> closes(course)
                == opens(course)
        }),
{
    lemma_download_course(DownloadView::begin(remote), replies);
    law_closed_exactly_once(DownloadView::begin(remote).course(replies));
}

proof fn lemma_upload_course(at: UploadView, replies: Seq<Reply>)
    ensures
        orderly(at.course(replies)),
        at.course(replies).len() == replies.len() + 1,
        at.course(replies)[0] == at.stage.hold(),
        at.course(replies).last() == at.run(replies).stage.hold(),
    decreases replies.len(),
{
    if replies.len() > 0 {
        let rest = at.next(replies[0]).course(replies.skip(1));
        let course = at.course(replies);
        lemma_upload_course(at.next(replies[0]), replies.skip(1));
        assert(course == seq![at.stage.hold()] + rest);
        assert forall|i: int| 0 <= i < course.len() - 1 implies (#[trigger] course[i]).may_lead_to(
            course[i + 1],
        ) by {
            if i == 0 {
                assert(course[1] == rest[0]);
            } else {
                assert(course[i] == rest[i - 1]);
                assert(course[i + 1] == rest[i]);
            }
        }
    }
}

proof fn lemma_download_course(at: DownloadView, replies: Seq<Reply>)
    ensures
        orderly(at.course(replies)),
        at.course(replies).len() == replies.len() + 1,
        at.course(replies)[0] == at.stage.hold(),
        at.course(replies).last() == at.run(replies).stage.hold(),
    decreases replies.len(),
{
    if replies.len() > 0 {
        let rest = at.next(replies[0]).course(replies.skip(1));
        let course = at.course(replies);
        lemma_download_course(at.next(replies[0]), replies.skip(1));
        assert(course == seq![at.stage.hold()] + rest);
        assert forall|i: int| 0 <= i < course.len() - 1 implies (#[trigger] course[i]).may_lead_to(
            course[i + 1],
        ) by {
            if i == 0 {
                assert(course[1] == rest[0]);
            } else {
                assert(course[i] == rest[i - 1]);
                assert(course[i + 1] == rest[i]);
            }
        }
    }
}

} // verus!
