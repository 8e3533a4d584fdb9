//! The server's records and requests as plain values.
//!
//! The transport that talks to the server is not part of this library. What it returns is
//! handed over in the types of this module, and what the views ask of it is described by
//! [`Request`].

use vstd::prelude::*;
use vstd::string::*;
use crate::error::{AppError, AppErrorView};
use crate::text::option_text;

verus! {

/// Download priority of a file.
#[derive(Clone, Copy, Debug, PartialEq, Eq, Structural)]
pub enum Priority {
    Low,
    Normal,
    High,
}

/// What a torrent is doing.
#[derive(Clone, Copy, Debug, PartialEq, Eq, Structural)]
pub enum TorrentStatus {
    Stopped,
    QueuedToVerify,
    Verifying,
    QueuedToDownload,
    Downloading,
    QueuedToSeed,
    Seeding,
}

/// A command for torrents.
#[derive(Clone, Copy, Debug, PartialEq, Eq, Structural)]
pub enum TorrentAction {
    Start,
    Stop,
}

/// One file of a torrent as the server reports it.
#[derive(Debug)]
pub struct RawFile {
    pub name: String,
    pub bytes_completed: i64,
    pub length: i64,
}

/// What a [`RawFile`] holds.
pub struct RawFileView {
    pub name: Seq<char>,
    pub bytes_completed: i64,
    pub length: i64,
}

impl View for RawFile {
    type V = RawFileView;

    open spec fn view(&self) -> RawFileView {
        RawFileView {
            name: self.name@,
            bytes_completed: self.bytes_completed,
            length: self.length,
        }
    }
}

/// The download settings of one file, reported in the order of the files.
#[derive(Clone, Copy, Debug)]
pub struct RawFileStat {
    pub wanted: bool,
    pub priority: Priority,
}

/// One tracker of a torrent as the server reports it.
#[derive(Debug)]
pub struct RawTracker {
    pub host: String,
    pub is_backup: bool,
    /// Time of the next announce, already as text.
    pub next_announce_time: String,
}

/// What a [`RawTracker`] holds.
pub struct RawTrackerView {
    pub host: Seq<char>,
    pub is_backup: bool,
    pub next_announce_time: Seq<char>,
}

impl View for RawTracker {
    type V = RawTrackerView;

    open spec fn view(&self) -> RawTrackerView {
        RawTrackerView {
            host: self.host@,
            is_backup: self.is_backup,
            next_announce_time: self.next_announce_time@,
        }
    }
}

/// One torrent as the server reports it. The server may leave out any field.
///
/// The two fractions that the server reports, the upload ratio and the part that is done,
/// arrive here as display text.
#[derive(Debug)]
pub struct RawTorrent {
    pub id: Option<i64>,
    pub name: Option<String>,
    pub is_stalled: Option<bool>,
    pub status: Option<TorrentStatus>,
    pub size_when_done: Option<i64>,
    pub left_until_done: Option<i64>,
    pub total_size: Option<i64>,
    pub uploaded_ever: Option<i64>,
    pub rate_upload: Option<i64>,
    pub rate_download: Option<i64>,
    pub eta: Option<i64>,
    pub upload_ratio: Option<String>,
    pub percent_done: Option<String>,
    pub download_dir: Option<String>,
    pub hash_string: Option<String>,
    pub error_string: Option<String>,
    /// Seconds since the Unix epoch.
    pub added_date: Option<i64>,
    /// Seconds since the Unix epoch.
    pub done_date: Option<i64>,
    pub tracker_stats: Option<Vec<RawTracker>>,
    pub files: Option<Vec<RawFile>>,
    pub file_stats: Option<Vec<RawFileStat>>,
}

/// What a [`RawTorrent`] holds.
pub struct RawTorrentView {
    pub id: Option<i64>,
    pub name: Option<Seq<char>>,
    pub is_stalled: Option<bool>,
    pub status: Option<TorrentStatus>,
    pub size_when_done: Option<i64>,
    pub left_until_done: Option<i64>,
    pub total_size: Option<i64>,
    pub uploaded_ever: Option<i64>,
    pub rate_upload: Option<i64>,
    pub rate_download: Option<i64>,
    pub eta: Option<i64>,
    pub upload_ratio: Option<Seq<char>>,
    pub percent_done: Option<Seq<char>>,
    pub download_dir: Option<Seq<char>>,
    pub hash_string: Option<Seq<char>>,
    pub error_string: Option<Seq<char>>,
    pub added_date: Option<i64>,
    pub done_date: Option<i64>,
    pub tracker_stats: Option<Seq<RawTrackerView>>,
    pub files: Option<Seq<RawFileView>>,
    pub file_stats: Option<Seq<RawFileStat>>,
}

/// The views of a sequence of raw trackers.
pub open spec fn raw_trackers_view(trackers: Seq<RawTracker>) -> Seq<RawTrackerView> {
    trackers.map_values(|t: RawTracker| t@)
}

/// The views of a sequence of raw files.
pub open spec fn raw_files_view(files: Seq<RawFile>) -> Seq<RawFileView> {
    files.map_values(|f: RawFile| f@)
}

impl View for RawTorrent {
    type V = RawTorrentView;

    open spec fn view(&self) -> RawTorrentView {
        RawTorrentView {
            id: self.id,
            name: option_text(self.name),
            is_stalled: self.is_stalled,
            status: self.status,
            size_when_done: self.size_when_done,
            left_until_done: self.left_until_done,
            total_size: self.total_size,
            uploaded_ever: self.uploaded_ever,
            rate_upload: self.rate_upload,
            rate_download: self.rate_download,
            eta: self.eta,
            upload_ratio: option_text(self.upload_ratio),
            percent_done: option_text(self.percent_done),
            download_dir: option_text(self.download_dir),
            hash_string: option_text(self.hash_string),
            error_string: option_text(self.error_string),
            added_date: self.added_date,
            done_date: self.done_date,
            tracker_stats: match self.tracker_stats {
                Some(trackers) => Some(raw_trackers_view(trackers@)),
                None => None,
            },
            files: match self.files {
                Some(files) => Some(raw_files_view(files@)),
                None => None,
            },
            file_stats: match self.file_stats {
                Some(stats) => Some(stats@),
                None => None,
            },
        }
    }
}

/// The views of a sequence of raw torrents.
pub open spec fn raw_torrents_view(torrents: Seq<RawTorrent>) -> Seq<RawTorrentView> {
    torrents.map_values(|t: RawTorrent| t@)
}

/// The totals of a session as the server reports them.
#[derive(Clone, Copy, Debug)]
pub struct SessionStats {
    pub torrent_count: i32,
    pub download_speed: i64,
    pub upload_speed: i64,
}

/// A request to the server.
#[derive(Debug)]
pub enum Request {
    /// The torrents: all of them, or the one with the given number.
    GetItems(Option<i64>),
    /// A command for the torrents with the given numbers.
    SetAction(TorrentAction, Vec<i64>),
    /// The totals of the session.
    GetStats,
}

/// What a [`Request`] holds.
pub enum RequestView {
    GetItems(Option<i64>),
    SetAction(TorrentAction, Seq<i64>),
    GetStats,
}

impl View for Request {
    type V = RequestView;

    open spec fn view(&self) -> RequestView {
        match self {
            Request::GetItems(filter) => RequestView::GetItems(*filter),
            Request::SetAction(kind, ids) => RequestView::SetAction(*kind, ids@),
            Request::GetStats => RequestView::GetStats,
        }
    }
}

/// The answer to a request.
#[derive(Debug)]
pub enum Reply {
    /// The torrents that were asked for.
    Items(Vec<RawTorrent>),
    /// The command was carried out.
    Done,
    /// The totals of the session.
    Stats(SessionStats),
    /// The request failed, for the given reason.
    Failed(String),
}

/// What the answer to a request is for.
#[derive(Clone, Copy, Debug, PartialEq, Eq, Structural)]
pub enum Purpose {
    /// The torrents of the list are replaced.
    RefreshList,
    /// The totals of the session are replaced.
    RefreshStats,
    /// The torrent of the detail view is replaced.
    RefreshDetail,
    /// The list is opened, the cursor on the torrent with the given number.
    EnterList(Option<i64>),
    /// The detail view is opened on the torrent with the given number.
    EnterDetail(i64),
    /// The answer to a command only says that it was carried out.
    Acknowledge,
}

/// A request that waits to be sent, and what its answer is for.
#[derive(Debug)]
pub struct Pending {
    pub request: Request,
    pub purpose: Purpose,
}

/// What a [`Pending`] request holds.
pub struct PendingView {
    pub request: RequestView,
    pub purpose: Purpose,
}

impl View for Pending {
    type V = PendingView;

    open spec fn view(&self) -> PendingView {
        PendingView { request: self.request@, purpose: self.purpose }
    }
}

/// The views of a sequence of pending requests.
pub open spec fn pending_view(requests: Seq<Pending>) -> Seq<PendingView> {
    requests.map_values(|p: Pending| p@)
}

/// The one handle to the server. It lets a single request be out at a time: whoever asks
/// while one is out is refused at once.
#[derive(Debug)]
pub struct Transport {
    in_flight: Option<Purpose>,
}

impl Transport {
    /// What the request that is out is for, if one is out.
    pub closed spec fn in_flight(&self) -> Option<Purpose> {
        self.in_flight
    }

    /// A handle with no request out.
    pub fn new() -> (transport: Self)
        ensures
            transport.in_flight() is None,
    {
        Transport { in_flight: None }
    }

    /// Whether a request is out.
    pub fn is_in_use(&self) -> (busy: bool)
        ensures
            busy == self.in_flight() is Some,
    {
        self.in_flight.is_some()
    }

    /// Claims the handle for a request. While a request is out the claim fails, and the
    /// request that is out is not disturbed.
    pub fn begin(&mut self, purpose: Purpose) -> (claim: Result<(), AppError>)
        ensures
            old(self).in_flight() is Some ==> (claim matches Err(error) && error@
                == AppErrorView::TransportBusy) && *final(self) == *old(self),
            old(self).in_flight() is None ==> claim is Ok && final(self).in_flight() == Some(
                purpose,
            ),
    {
        if self.in_flight.is_some() {
            Err(AppError::TransportBusy)
        } else {
            self.in_flight = Some(purpose);
            Ok(())
        }
    }

    /// Gives the handle back when the answer to the request has come, and says what the
    /// answer is for.
    pub fn finish(&mut self) -> (purpose: Option<Purpose>)
        ensures
            purpose == old(self).in_flight(),
            final(self).in_flight() is None,
            old(self).in_flight() is None ==> *final(self) == *old(self),
    {
        let purpose = self.in_flight;
        self.in_flight = None;
        purpose
    }
}

} // verus!
