//! The tab with the facts of a torrent.

use vstd::prelude::*;
use vstd::string::*;
use crate::data::{Torrent, TorrentView};
use crate::text::texts;

verus! {

/// The tab with the facts of a torrent.
#[derive(Debug)]
pub struct InfoTab {
    pub data: Torrent,
}

/// The lines about what the torrent is doing.
pub open spec fn activity_text(data: TorrentView) -> Seq<Seq<char>> {
    seq![
        "Have: "@ + data.downloaded + " of "@ + data.size_done + " ("@ + data.percent_done + ")"@,
        "Uploaded: "@ + data.uploaded + " (Ratio: "@ + data.ratio + ")"@,
        "Downloaded: "@ + data.downloaded,
        "Remaining Time: "@ + data.eta,
        "State: "@ + data.status,
        "Error: "@ + data.error,
    ]
}

/// The lines about what the torrent is.
pub open spec fn details_text(data: TorrentView) -> Seq<Seq<char>> {
    seq![
        "Name: "@ + data.name,
        "Size: "@ + data.total_size,
        "Location: "@ + data.location,
        "Hash: "@ + data.hash,
        "Added: "@ + data.added_date,
        "Done: "@ + data.done_date,
    ]
}

fn labelled(label: &str, value: &String) -> (line: String)
    ensures
        line@ == label@ + value@,
{
    let mut line = label.to_owned();
    line.append(value.as_str());
    line
}

impl InfoTab {
    /// A tab that shows the given torrent.
    pub fn new(data: &Torrent) -> (tab: Self)
        ensures
            tab.data@ == data@,
    {
        InfoTab { data: data.clone() }
    }

    /// The lines about what the torrent is doing.
    pub fn activity(&self) -> (lines: Vec<String>)
        ensures
            texts(lines@) == activity_text(self.data@),
    {
        let data = &self.data;
        let mut have = labelled("Have: ", &data.downloaded);
        have.append(" of ");
        have.append(data.size_done.as_str());
        have.append(" (");
        have.append(data.percent_done.as_str());
        have.append(")");
        let mut uploaded = labelled("Uploaded: ", &data.uploaded);
        uploaded.append(" (Ratio: ");
        uploaded.append(data.ratio.as_str());
        uploaded.append(")");
        let mut lines: Vec<String> = Vec::new();
        lines.push(have);
        lines.push(uploaded);
        lines.push(labelled("Downloaded: ", &data.downloaded));
        lines.push(labelled("Remaining Time: ", &data.eta));
        lines.push(labelled("State: ", &data.status));
        lines.push(labelled("Error: ", &data.error));
        assert(texts(lines@) =~= activity_text(self.data@));
        lines
    }

    /// The lines about what the torrent is.
    pub fn details(&self) -> (lines: Vec<String>)
        ensures
            texts(lines@) == details_text(self.data@),
    {
        let data = &self.data;
        let mut lines: Vec<String> = Vec::new();
        lines.push(labelled("Name: ", &data.name));
        lines.push(labelled("Size: ", &data.total_size));
        lines.push(labelled("Location: ", &data.location));
        lines.push(labelled("Hash: ", &data.hash));
        lines.push(labelled("Added: ", &data.added_date));
        lines.push(labelled("Done: ", &data.done_date));
        assert(texts(lines@) =~= details_text(self.data@));
        lines
    }

    /// What the tab shows: the lines about what the torrent is doing, and the lines about
    /// what it is.
    pub fn render(&self) -> (lines: (Vec<String>, Vec<String>))
        ensures
            texts(lines.0@) == activity_text(self.data@),
            texts(lines.1@) == details_text(self.data@),
    {
        (self.activity(), self.details())
    }
}

} // verus!
