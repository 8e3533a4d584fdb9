//! Display records of torrents and the raw server records they are made from.

use itertools::Itertools;
use std::cmp::Ordering;
use vstd::prelude::*;
use vstd::string::*;
use vstd::utf8::{decode_utf8, encode_utf8, is_char_boundary};
use crate::dates::{utc_date_string, utc_date_text};
use crate::order::{name_order, order_of_names};
use crate::rpc::{
    raw_torrents_view, RawFile, RawFileStat, RawFileView, RawTorrent, RawTorrentView, RawTracker,
    RawTrackerView,
};
use crate::text::option_text;
use crate::utils::{
    bytes_text, convert_bytes, convert_eta, convert_priority, convert_status, eta_text,
    priority_text, status_text,
};

verus! {

/// One file of a torrent, ready for display.
#[derive(Debug)]
pub struct Files {
    /// Path of the file inside the torrent, its segments separated by `/`.
    pub name: String,
    /// Bytes already downloaded, formatted.
    pub downloaded: String,
    /// Size of the file, formatted.
    pub total_size: String,
    /// Label of the download priority.
    pub priority: String,
    /// Whether the file is to be downloaded.
    pub wanted: bool,
}

/// What a [`Files`] record holds.
pub struct FilesView {
    pub name: Seq<char>,
    pub downloaded: Seq<char>,
    pub total_size: Seq<char>,
    pub priority: Seq<char>,
    pub wanted: bool,
}

impl View for Files {
    type V = FilesView;

    open spec fn view(&self) -> FilesView {
        FilesView {
            name: self.name@,
            downloaded: self.downloaded@,
            total_size: self.total_size@,
            priority: self.priority@,
            wanted: self.wanted,
        }
    }
}

impl Clone for Files {
    fn clone(&self) -> (copy: Self)
        ensures
            copy@ == self@,
    {
        Files {
            name: self.name.clone(),
            downloaded: self.downloaded.clone(),
            total_size: self.total_size.clone(),
            priority: self.priority.clone(),
            wanted: self.wanted,
        }
    }
}

/// The views of a sequence of file records.
pub open spec fn files_view(files: Seq<Files>) -> Seq<FilesView> {
    files.map_values(|f: Files| f@)
}

/// Copies a list of file records.
pub fn clone_files(files: &Vec<Files>) -> (copy: Vec<Files>)
    ensures
        files_view(copy@) == files_view(files@),
{
    let mut copy: Vec<Files> = Vec::new();
    let mut i: usize = 0;
    while i < files.len()
        invariant
            i <= files.len(),
            copy.len() == i,
            forall|k: int| 0 <= k < i ==> copy[k]@ == files[k]@,
        decreases files.len() - i,
    {
        copy.push(files[i].clone());
        i += 1;
    }
    assert(files_view(copy@) =~= files_view(files@));
    copy
}

/// One tracker of a torrent, ready for display.
#[derive(Debug)]
pub struct Tracker {
    pub host: String,
    pub is_backup: bool,
    /// Time of the next announce, as text.
    pub next_announce: String,
}

/// What a [`Tracker`] record holds.
pub struct TrackerView {
    pub host: Seq<char>,
    pub is_backup: bool,
    pub next_announce: Seq<char>,
}

impl View for Tracker {
    type V = TrackerView;

    open spec fn view(&self) -> TrackerView {
        TrackerView {
            host: self.host@,
            is_backup: self.is_backup,
            next_announce: self.next_announce@,
        }
    }
}

impl Clone for Tracker {
    fn clone(&self) -> (copy: Self)
        ensures
            copy@ == self@,
    {
        Tracker {
            host: self.host.clone(),
            is_backup: self.is_backup,
            next_announce: self.next_announce.clone(),
        }
    }
}

/// The views of a sequence of tracker records.
pub open spec fn trackers_view(trackers: Seq<Tracker>) -> Seq<TrackerView> {
    trackers.map_values(|t: Tracker| t@)
}

/// Copies a list of tracker records.
pub fn clone_trackers(trackers: &Vec<Tracker>) -> (copy: Vec<Tracker>)
    ensures
        trackers_view(copy@) == trackers_view(trackers@),
{
    let mut copy: Vec<Tracker> = Vec::new();
    let mut i: usize = 0;
    while i < trackers.len()
        invariant
            i <= trackers.len(),
            copy.len() == i,
            forall|k: int| 0 <= k < i ==> copy[k]@ == trackers[k]@,
        decreases trackers.len() - i,
    {
        copy.push(trackers[i].clone());
        i += 1;
    }
    assert(trackers_view(copy@) =~= trackers_view(trackers@));
    copy
}

/// One torrent, ready for display. A record is made anew from each answer of the server and
/// never changed afterwards.
#[derive(Debug)]
pub struct Torrent {
    /// The number the server knows the torrent by.
    pub id: i64,
    pub is_stalled: bool,
    pub status: String,
    pub name: String,
    /// The shortened name above a line with the status and the progress.
    pub formatted_name: String,
    pub percent_done: String,
    pub total_size: String,
    pub size_done: String,
    pub uploaded: String,
    pub upload_speed: String,
    pub downloaded: String,
    pub download_speed: String,
    pub ratio: String,
    pub location: String,
    pub hash: String,
    /// When the torrent was added, as text.
    pub added_date: String,
    /// When the torrent was completed, as text.
    pub done_date: String,
    pub eta: String,
    pub error: String,
    pub trackers: Vec<Tracker>,
    pub files: Vec<Files>,
}

/// What a [`Torrent`] record holds.
pub struct TorrentView {
    pub id: i64,
    pub is_stalled: bool,
    pub status: Seq<char>,
    pub name: Seq<char>,
    pub formatted_name: Seq<char>,
    pub percent_done: Seq<char>,
    pub total_size: Seq<char>,
    pub size_done: Seq<char>,
    pub uploaded: Seq<char>,
    pub upload_speed: Seq<char>,
    pub downloaded: Seq<char>,
    pub download_speed: Seq<char>,
    pub ratio: Seq<char>,
    pub location: Seq<char>,
    pub hash: Seq<char>,
    pub added_date: Seq<char>,
    pub done_date: Seq<char>,
    pub eta: Seq<char>,
    pub error: Seq<char>,
    pub trackers: Seq<TrackerView>,
    pub files: Seq<FilesView>,
}

impl View for Torrent {
    type V = TorrentView;

    open spec fn view(&self) -> TorrentView {
        TorrentView {
            id: self.id,
            is_stalled: self.is_stalled,
            status: self.status@,
            name: self.name@,
            formatted_name: self.formatted_name@,
            percent_done: self.percent_done@,
            total_size: self.total_size@,
            size_done: self.size_done@,
            uploaded: self.uploaded@,
            upload_speed: self.upload_speed@,
            downloaded: self.downloaded@,
            download_speed: self.download_speed@,
            ratio: self.ratio@,
            location: self.location@,
            hash: self.hash@,
            added_date: self.added_date@,
            done_date: self.done_date@,
            eta: self.eta@,
            error: self.error@,
            trackers: trackers_view(self.trackers@),
            files: files_view(self.files@),
        }
    }
}

impl Clone for Torrent {
    fn clone(&self) -> (copy: Self)
        ensures
            copy@ == self@,
    {
        Torrent {
            id: self.id,
            is_stalled: self.is_stalled,
            status: self.status.clone(),
            name: self.name.clone(),
            formatted_name: self.formatted_name.clone(),
            percent_done: self.percent_done.clone(),
            total_size: self.total_size.clone(),
            size_done: self.size_done.clone(),
            uploaded: self.uploaded.clone(),
            upload_speed: self.upload_speed.clone(),
            downloaded: self.downloaded.clone(),
            download_speed: self.download_speed.clone(),
            ratio: self.ratio.clone(),
            location: self.location.clone(),
            hash: self.hash.clone(),
            added_date: self.added_date.clone(),
            done_date: self.done_date.clone(),
            eta: self.eta.clone(),
            error: self.error.clone(),
            trackers: clone_trackers(&self.trackers),
            files: clone_files(&self.files),
        }
    }
}

impl Torrent {
    /// The six texts of the torrent's row in the list: name, done, remaining time,
    /// download, upload and ratio.
    pub fn ref_array(&self) -> (cells: [&String; 6])
        ensures
            cells[0]@ == self.formatted_name@,
            cells[1]@ == self.percent_done@,
            cells[2]@ == self.eta@,
            cells[3]@ == self.download_speed@,
            cells[4]@ == self.upload_speed@,
            cells[5]@ == self.ratio@,
    {
        [
            &self.formatted_name,
            &self.percent_done,
            &self.eta,
            &self.download_speed,
            &self.upload_speed,
            &self.ratio,
        ]
    }

    /// The two lines that name the torrent in the list.
    pub fn formatted_name(&self) -> (text: &str)
        ensures
            text@ == self.formatted_name@,
    {
        self.formatted_name.as_str()
    }

    /// How much of the torrent is done.
    pub fn percent_done(&self) -> (text: &str)
        ensures
            text@ == self.percent_done@,
    {
        self.percent_done.as_str()
    }

    /// The time that the download still takes.
    pub fn eta(&self) -> (text: &str)
        ensures
            text@ == self.eta@,
    {
        self.eta.as_str()
    }

    /// The rate at which the torrent is uploaded.
    pub fn upload_speed(&self) -> (text: &str)
        ensures
            text@ == self.upload_speed@,
    {
        self.upload_speed.as_str()
    }

    /// The rate at which the torrent is downloaded.
    pub fn download_speed(&self) -> (text: &str)
        ensures
            text@ == self.download_speed@,
    {
        self.download_speed.as_str()
    }

    /// What was uploaded for each part that was downloaded.
    pub fn ratio(&self) -> (text: &str)
        ensures
            text@ == self.ratio@,
    {
        self.ratio.as_str()
    }

    /// The texts of the cells of the torrent's row in the list, each between an empty line
    /// above and one below.
    pub fn row(&self) -> (cells: Vec<String>)
        ensures
            crate::text::texts(cells@) == seq![
                cell_text(self.formatted_name@),
                cell_text(self.percent_done@),
                cell_text(self.eta@),
                cell_text(self.download_speed@),
                cell_text(self.upload_speed@),
                cell_text(self.ratio@),
            ],
    {
        let mut cells: Vec<String> = Vec::new();
        cells.push(cell_string(self.formatted_name()));
        cells.push(cell_string(self.percent_done()));
        cells.push(cell_string(self.eta()));
        cells.push(cell_string(self.download_speed()));
        cells.push(cell_string(self.upload_speed()));
        cells.push(cell_string(self.ratio()));
        assert(crate::text::texts(cells@) =~= seq![
            cell_text(self.formatted_name@),
            cell_text(self.percent_done@),
            cell_text(self.eta@),
            cell_text(self.download_speed@),
            cell_text(self.upload_speed@),
            cell_text(self.ratio@),
        ]);
        cells
    }
}

/// The text of a cell of the list: a line feed before and after what the cell shows.
pub open spec fn cell_text(content: Seq<char>) -> Seq<char> {
    "\n"@ + content + "\n"@
}

/// The text of a cell of the list.
pub fn cell_string(content: &str) -> (text: String)
    ensures
        text@ == cell_text(content@),
{
    let mut text = "\n".to_owned();
    text.append(content);
    text.append("\n");
    text
}

/// The views of a sequence of torrent records.
pub open spec fn torrents_view(torrents: Seq<Torrent>) -> Seq<TorrentView> {
    torrents.map_values(|t: Torrent| t@)
}

/// The view of an optional torrent record.
pub open spec fn option_torrent_view(record: Option<Torrent>) -> Option<TorrentView> {
    match record {
        Some(torrent) => Some(torrent@),
        None => None,
    }
}

/// The longest name, in bytes of its UTF-8 encoding, that is shown in full.
pub const NAME_LIMIT: usize = 80;

/// The last position at or before `index` at which the bytes of a text can be cut between
/// two characters.
pub open spec fn boundary_before(bytes: Seq<u8>, index: int) -> int
    decreases index,
{
    if index <= 0 || is_char_boundary(bytes, index) {
        index
    } else {
        boundary_before(bytes, index - 1)
    }
}

/// The name as the list shows it: a name of more than 80 bytes is cut to the characters that
/// fit into its first 80 bytes, and three dots are put behind them.
pub open spec fn short_name(name: Seq<char>) -> Seq<char> {
    let bytes = encode_utf8(name);
    if bytes.len() > 80 {
        decode_utf8(bytes.subrange(0, boundary_before(bytes, 80))) + "..."@
    } else {
        name
    }
}

/// A name of plain ASCII characters is cut after its first 80 characters.
pub proof fn short_name_of_ascii(name: Seq<char>)
    requires
        vstd::utf8::is_ascii_chars(name),
    ensures
        name.len() <= 80 ==> short_name(name) == name,
        name.len() > 80 ==> short_name(name) == name.take(80) + "..."@,
{
    let bytes = encode_utf8(name);
    vstd::utf8::is_ascii_chars_encode_utf8(name);
    if name.len() > 80 {
        let head = name.take(80);
        vstd::utf8::encode_utf8_valid_utf8(name);
        let byte = bytes[80];
        assert(byte == name[80] as u8);
        assert(name[80] as u32 <= 127);
        assert(!vstd::utf8::is_continuation_byte(byte));
        vstd::utf8::is_char_boundary_iff_not_is_continuation_byte(bytes, 80);
        assert(boundary_before(bytes, 80) == 80);
        assert(vstd::utf8::is_ascii_chars(head));
        vstd::utf8::is_ascii_chars_encode_utf8(head);
        assert(encode_utf8(head) =~= bytes.subrange(0, 80)) by {
            assert forall|i: int| 0 <= i < 80 implies encode_utf8(head)[i] == bytes[i] by {
                assert(head[i] == name[i]);
            }
        }
        vstd::utf8::encode_utf8_decode_utf8(head);
    }
}

/// Shortens a name for the list.
pub fn shorten_name(name: &str) -> (short: String)
    ensures
        short@ == short_name(name@),
{
    if name.as_bytes().len() > NAME_LIMIT {
        let ghost bytes = encode_utf8(name@);
        let mut cut: usize = NAME_LIMIT;
        while cut > 0 && !name.is_char_boundary(cut)
            invariant
                cut <= 80,
                bytes == encode_utf8(name@),
                boundary_before(bytes, 80) == boundary_before(bytes, cut as int),
            decreases cut,
        {
            cut -= 1;
        }
        proof {
            vstd::utf8::encode_utf8_valid_utf8(name@);
            vstd::utf8::is_char_boundary_start_end_of_seq(bytes);
        }
        assert(boundary_before(bytes, 80) == cut);
        let (head, _) = name.split_at(cut);
        let mut short = head.to_owned();
        proof {
            assert(encode_utf8(head@) == bytes.subrange(0, cut as int));
            vstd::utf8::encode_utf8_decode_utf8(head@);
        }
        short.append("...");
        short
    } else {
        name.to_owned()
    }
}

/// The text of a transfer rate: the bytes per second with their unit, and `/s`.
pub open spec fn speed_text(rate: int) -> Seq<char> {
    bytes_text(rate) + "/s"@
}

/// Formats a transfer rate.
pub fn convert_speed(rate: i64) -> (text: String)
    ensures
        text@ == speed_text(rate as int),
{
    let mut text = convert_bytes(rate);
    text.append("/s");
    text
}

/// The two lines that name a torrent in the list: the shortened name, and below it the
/// status and how much of the torrent is there.
pub open spec fn formatted_name_text(
    name: Seq<char>,
    status: Seq<char>,
    have: Seq<char>,
    size: Seq<char>,
) -> Seq<char> {
    short_name(name) + "\nStatus: "@ + status + "    Have: "@ + have + " of "@ + size
}

/// The display records of the files of a torrent. A file is shown only if the server
/// reports its download settings, which it does by position.
pub open spec fn kept_files(files: Seq<RawFileView>, stats: Option<Seq<RawFileStat>>) -> Seq<
    FilesView,
> {
    match stats {
        None => Seq::empty(),
        Some(stats) => Seq::new(
            if files.len() <= stats.len() {
                files.len()
            } else {
                stats.len()
            },
            |i: int|
                FilesView {
                    name: files[i].name,
                    downloaded: bytes_text(files[i].bytes_completed as int),
                    total_size: bytes_text(files[i].length as int),
                    priority: priority_text(stats[i].priority),
                    wanted: stats[i].wanted,
                },
        ),
    }
}

/// The display records of the trackers of a torrent.
pub open spec fn kept_trackers(trackers: Seq<RawTrackerView>) -> Seq<TrackerView> {
    Seq::new(
        trackers.len(),
        |i: int|
            TrackerView {
                host: trackers[i].host,
                is_backup: trackers[i].is_backup,
                next_announce: trackers[i].next_announce_time,
            },
    )
}

/// Whether the server has reported every field that a display record needs, and the bytes
/// that are there can be counted.
pub open spec fn is_complete(raw: RawTorrentView) -> bool {
    &&& raw.tracker_stats is Some
    &&& raw.files is Some
    &&& raw.name is Some
    &&& raw.status is Some
    &&& raw.size_when_done is Some
    &&& raw.left_until_done is Some
    &&& i64::MIN <= raw.size_when_done.unwrap() - raw.left_until_done.unwrap() <= i64::MAX
    &&& raw.id is Some
    &&& raw.is_stalled is Some
    &&& raw.eta is Some
    &&& raw.upload_ratio is Some
    &&& raw.percent_done is Some
    &&& raw.total_size is Some
    &&& raw.uploaded_ever is Some
    &&& raw.rate_upload is Some
    &&& raw.rate_download is Some
    &&& raw.download_dir is Some
    &&& raw.hash_string is Some
    &&& raw.added_date is Some
    &&& raw.done_date is Some
    &&& raw.error_string is Some
}

/// The display record of a raw record, given the texts of its two dates: there is one only
/// if the raw record is complete and both dates have a text.
pub open spec fn assembled(
    raw: RawTorrentView,
    added: Option<Seq<char>>,
    done: Option<Seq<char>>,
) -> Option<TorrentView> {
    if is_complete(raw) && added is Some && done is Some {
        let have = bytes_text(raw.size_when_done.unwrap() - raw.left_until_done.unwrap());
        let size = bytes_text(raw.size_when_done.unwrap() as int);
        let status = status_text(raw.status.unwrap());
        Some(
            TorrentView {
                id: raw.id.unwrap(),
                is_stalled: raw.is_stalled.unwrap(),
                status: status,
                name: raw.name.unwrap(),
                formatted_name: formatted_name_text(raw.name.unwrap(), status, have, size),
                percent_done: raw.percent_done.unwrap(),
                total_size: bytes_text(raw.total_size.unwrap() as int),
                size_done: size,
                uploaded: bytes_text(raw.uploaded_ever.unwrap() as int),
                upload_speed: speed_text(raw.rate_upload.unwrap() as int),
                downloaded: have,
                download_speed: speed_text(raw.rate_download.unwrap() as int),
                ratio: raw.upload_ratio.unwrap(),
                location: raw.download_dir.unwrap(),
                hash: raw.hash_string.unwrap(),
                added_date: added.unwrap(),
                done_date: done.unwrap(),
                eta: eta_text(raw.eta.unwrap() as int),
                error: raw.error_string.unwrap(),
                trackers: kept_trackers(raw.tracker_stats.unwrap()),
                files: kept_files(raw.files.unwrap(), raw.file_stats),
            },
        )
    } else {
        None
    }
}

/// The text of an optional timestamp: there is none without a timestamp, nor for one whose
/// date cannot be represented.
pub open spec fn date_text(seconds: Option<i64>) -> Option<Seq<char>> {
    match seconds {
        Some(seconds) => utc_date_text(seconds),
        None => None,
    }
}

/// The display record of a raw record, if there is one. Anything that is missing drops
/// the whole record.
pub open spec fn mapped(raw: RawTorrentView) -> Option<TorrentView> {
    assembled(raw, date_text(raw.added_date), date_text(raw.done_date))
}

fn map_trackers(trackers: &Vec<RawTracker>) -> (records: Vec<Tracker>)
    ensures
        trackers_view(records@) == kept_trackers(crate::rpc::raw_trackers_view(trackers@)),
{
    let mut records: Vec<Tracker> = Vec::new();
    let mut i: usize = 0;
    while i < trackers.len()
        invariant
            i <= trackers.len(),
            records.len() == i,
            forall|k: int|
                0 <= k < i ==> records[k]@ == (TrackerView {
                    host: trackers[k].host@,
                    is_backup: trackers[k].is_backup,
                    next_announce: trackers[k].next_announce_time@,
                }),
        decreases trackers.len() - i,
    {
        let tracker = &trackers[i];
        records.push(
            Tracker {
                host: tracker.host.clone(),
                is_backup: tracker.is_backup,
                next_announce: tracker.next_announce_time.clone(),
            },
        );
        i += 1;
    }
    assert(trackers_view(records@) =~= kept_trackers(crate::rpc::raw_trackers_view(trackers@)));
    records
}

fn map_files(files: &Vec<RawFile>, stats: &Option<Vec<RawFileStat>>) -> (records: Vec<Files>)
    ensures
        files_view(records@) == kept_files(
            crate::rpc::raw_files_view(files@),
            match *stats {
                Some(stats) => Some(stats@),
                None => None,
            },
        ),
{
    let mut records: Vec<Files> = Vec::new();
    match stats {
        None => {
            assert(files_view(records@) =~= Seq::<FilesView>::empty());
        },
        Some(stats) => {
            let mut i: usize = 0;
            while i < files.len() && i < stats.len()
                invariant
                    i <= files.len(),
                    i <= stats.len(),
                    records.len() == i,
                    forall|k: int|
                        0 <= k < i ==> records[k]@ == (FilesView {
                            name: files[k].name@,
                            downloaded: bytes_text(files[k].bytes_completed as int),
                            total_size: bytes_text(files[k].length as int),
                            priority: priority_text(stats[k].priority),
                            wanted: stats[k].wanted,
                        }),
                decreases files.len() - i,
            {
                let file = &files[i];
                let stat = &stats[i];
                records.push(
                    Files {
                        name: file.name.clone(),
                        downloaded: convert_bytes(file.bytes_completed),
                        total_size: convert_bytes(file.length),
                        priority: convert_priority(&stat.priority),
                        wanted: stat.wanted,
                    },
                );
                i += 1;
            }
            assert(files_view(records@) =~= kept_files(
                crate::rpc::raw_files_view(files@),
                Some(stats@),
            ));
        },
    }
    records
}

/// Makes the display record of a raw record whose two dates have already been turned into
/// text.
pub fn assemble_torrent(raw: &RawTorrent, added: Option<String>, done: Option<String>) -> (record:
    Option<Torrent>)
    ensures
        option_torrent_view(record) == assembled(raw@, option_text(added), option_text(done)),
{
    let trackers = match &raw.tracker_stats {
        Some(trackers) => map_trackers(trackers),
        None => {
            return None;
        },
    };
    let files = match &raw.files {
        Some(files) => map_files(files, &raw.file_stats),
        None => {
            return None;
        },
    };
    let name = match &raw.name {
        Some(name) => name.clone(),
        None => {
            return None;
        },
    };
    let status = match raw.status {
        Some(status) => convert_status(status),
        None => {
            return None;
        },
    };
    let size_when_done = match raw.size_when_done {
        Some(size) => size,
        None => {
            return None;
        },
    };
    let left_until_done = match raw.left_until_done {
        Some(left) => left,
        None => {
            return None;
        },
    };
    let have = match size_when_done.checked_sub(left_until_done) {
        Some(have) => have,
        None => {
            return None;
        },
    };
    let downloaded = convert_bytes(have);
    let size_done = convert_bytes(size_when_done);
    let mut formatted_name = shorten_name(name.as_str());
    formatted_name.append("\nStatus: ");
    formatted_name.append(status.as_str());
    formatted_name.append("    Have: ");
    formatted_name.append(downloaded.as_str());
    formatted_name.append(" of ");
    formatted_name.append(size_done.as_str());
    let id = match raw.id {
        Some(id) => id,
        None => {
            return None;
        },
    };
    let is_stalled = match raw.is_stalled {
        Some(stalled) => stalled,
        None => {
            return None;
        },
    };
    let eta = match raw.eta {
        Some(eta) => convert_eta(eta),
        None => {
            return None;
        },
    };
    let ratio = match &raw.upload_ratio {
        Some(ratio) => ratio.clone(),
        None => {
            return None;
        },
    };
    let percent_done = match &raw.percent_done {
        Some(percent) => percent.clone(),
        None => {
            return None;
        },
    };
    let total_size = match raw.total_size {
        Some(size) => convert_bytes(size),
        None => {
            return None;
        },
    };
    let uploaded = match raw.uploaded_ever {
        Some(bytes) => convert_bytes(bytes),
        None => {
            return None;
        },
    };
    let upload_speed = match raw.rate_upload {
        Some(rate) => convert_speed(rate),
        None => {
            return None;
        },
    };
    let download_speed = match raw.rate_download {
        Some(rate) => convert_speed(rate),
        None => {
            return None;
        },
    };
    let location = match &raw.download_dir {
        Some(dir) => dir.clone(),
        None => {
            return None;
        },
    };
    let hash = match &raw.hash_string {
        Some(hash) => hash.clone(),
        None => {
            return None;
        },
    };
    if raw.added_date.is_none() || raw.done_date.is_none() {
        return None;
    }
    let added_date = match added {
        Some(text) => text,
        None => {
            return None;
        },
    };
    let done_date = match done {
        Some(text) => text,
        None => {
            return None;
        },
    };
    let error = match &raw.error_string {
        Some(error) => error.clone(),
        None => {
            return None;
        },
    };
    let record = Torrent {
        id,
        is_stalled,
        status,
        name,
        formatted_name,
        percent_done,
        total_size,
        size_done,
        uploaded,
        upload_speed,
        downloaded,
        download_speed,
        ratio,
        location,
        hash,
        added_date,
        done_date,
        eta,
        error,
        trackers,
        files,
    };
    assert(record.formatted_name@ =~= formatted_name_text(
        record.name@,
        record.status@,
        record.downloaded@,
        record.size_done@,
    ));
    Some(record)
}

/// Makes the display record of a raw record, or nothing where the raw record lacks a field
/// or one of its dates cannot be represented.
pub fn map_torrent(raw: &RawTorrent) -> (record: Option<Torrent>)
    ensures
        option_torrent_view(record) == mapped(raw@),
{
    let added = match raw.added_date {
        Some(seconds) => utc_date_string(seconds),
        None => None,
    };
    let done = match raw.done_date {
        Some(seconds) => utc_date_string(seconds),
        None => None,
    };
    assemble_torrent(raw, added, done)
}

/// The display records of the raw records that have one, in the order of the raw records.
pub open spec fn kept_records(raws: Seq<RawTorrentView>) -> Seq<TorrentView>
    decreases raws.len(),
{
    if raws.len() == 0 {
        Seq::empty()
    } else {
        let front = kept_records(raws.drop_last());
        match mapped(raws.last()) {
            Some(record) => front.push(record),
            None => front,
        }
    }
}

/// Makes the display records of the raw records that have one.
pub fn keep_records(torrents: &Vec<RawTorrent>) -> (records: Vec<Torrent>)
    ensures
        torrents_view(records@) == kept_records(raw_torrents_view(torrents@)),
{
    let ghost raws = raw_torrents_view(torrents@);
    let mut records: Vec<Torrent> = Vec::new();
    let mut i: usize = 0;
    assert(raws.take(0) =~= Seq::<RawTorrentView>::empty());
    assert(torrents_view(records@) =~= Seq::<TorrentView>::empty());
    while i < torrents.len()
        invariant
            i <= torrents.len(),
            raws == raw_torrents_view(torrents@),
            torrents_view(records@) == kept_records(raws.take(i as int)),
        decreases torrents.len() - i,
    {
        let ghost before = torrents_view(records@);
        proof {
            let next = raws.take(i + 1);
            assert(next.drop_last() =~= raws.take(i as int));
            assert(next.last() == torrents[i as int]@);
        }
        match map_torrent(&torrents[i]) {
            Some(record) => {
                records.push(record);
                assert(torrents_view(records@) =~= before.push(record@));
            },
            None => {},
        }
        i += 1;
    }
    assert(raws.take(i as int) =~= raws);
    records
}

/// No more records are kept than the server reported.
pub proof fn lemma_kept_records_are_no_more(raws: Seq<RawTorrentView>)
    ensures
        kept_records(raws).len() <= raws.len(),
    decreases raws.len(),
{
    if raws.len() > 0 {
        lemma_kept_records_are_no_more(raws.drop_last());
    }
}

/// Counts the raw records that have no display record, so that what is left out of the
/// list does not go unnoticed.
pub fn dropped_records(torrents: &Vec<RawTorrent>) -> (dropped: usize)
    ensures
        dropped == torrents.len() - kept_records(raw_torrents_view(torrents@)).len(),
{
    let kept = keep_records(torrents);
    proof {
        lemma_kept_records_are_no_more(raw_torrents_view(torrents@));
        assert(torrents_view(kept@).len() == kept.len());
    }
    torrents.len() - kept.len()
}

/// Whether the records stand in the order of their names, equal names side by side.
pub open spec fn sorted_by_name(records: Seq<TorrentView>) -> bool {
    forall|j: int, k: int|
        0 <= j < k < records.len() ==> name_order(
            (#[trigger] records[j]).name,
            (#[trigger] records[k]).name,
        ) <= 0
}

/// Whether `output` holds the records of `input`, the record at each place of `output`
/// being the one that `input` has at the place that `order` gives, and every place of
/// `input` given once.
pub open spec fn rearranged(
    input: Seq<TorrentView>,
    output: Seq<TorrentView>,
    order: Seq<int>,
) -> bool {
    &&& order.len() == input.len()
    &&& output.len() == input.len()
    &&& forall|k: int| 0 <= k < order.len() ==> 0 <= #[trigger] order[k] < input.len()
    &&& forall|j: int, k: int|
        0 <= j < k < order.len() ==> #[trigger] order[j] != #[trigger] order[k]
    &&& forall|k: int| 0 <= k < output.len() ==> #[trigger] output[k] == input[order[k]]
}

/// Whether `output` is `input` sorted by name, records of the same name staying in the order
/// that they had.
pub open spec fn stably_sorted(input: Seq<TorrentView>, output: Seq<TorrentView>) -> bool {
    &&& sorted_by_name(output)
    &&& exists|order: Seq<int>|
        {
            &&& #[trigger] rearranged(input, output, order)
            &&& forall|j: int, k: int|
                0 <= j < k < order.len() && name_order(output[j].name, output[k].name) == 0
                    ==> #[trigger] order[j] < #[trigger] order[k]
        }
}

/// Compares two records by their names, for the sort.
pub fn order_of_records(a: &Torrent, b: &Torrent) -> (order: Ordering)
    ensures
        (order == Ordering::Less) == (name_order(a.name@, b.name@) == -1),
        (order == Ordering::Equal) == (name_order(a.name@, b.name@) == 0),
        (order == Ordering::Greater) == (name_order(a.name@, b.name@) == 1),
{
    order_of_names(a.name.as_str(), b.name.as_str())
}

/// `Itertools::sorted_by` on the records, compared by `order_of_records`: a stable sort, so
/// the result holds the same records in the order of their names, and records of one name
/// in the order in which they came.
#[verifier::external_body]
fn sort_by_name(records: Vec<Torrent>) -> (sorted: Vec<Torrent>)
    ensures
        stably_sorted(torrents_view(records@), torrents_view(sorted@)),
{
    records.into_iter().sorted_by(order_of_records).collect()
}

/// Turns the records that the server reports into display records, sorted by name. A raw
/// record without a display record is left out.
pub fn map_torrent_data(torrents: &Vec<RawTorrent>) -> (records: Vec<Torrent>)
    ensures
        stably_sorted(kept_records(raw_torrents_view(torrents@)), torrents_view(records@)),
{
    sort_by_name(keep_records(torrents))
}

} // verus!
