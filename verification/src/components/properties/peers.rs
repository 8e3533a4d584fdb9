//! The tab for the peers of a torrent, which shows nothing yet.

use vstd::prelude::*;
use vstd::string::*;
use crate::data::Torrent;

verus! {

/// The tab for the peers of a torrent.
#[derive(Debug)]
pub struct Tab {
    pub data: Torrent,
}

impl Tab {
    /// A tab for the given torrent.
    pub fn new(data: &Torrent) -> (tab: Self)
        ensures
            tab.data@ == data@,
    {
        Tab { data: data.clone() }
    }

    /// What the tab shows.
    pub fn render(&self) -> (text: &'static str)
        ensures
            text@ == "Under Construction"@,
    {
        "Under Construction"
    }
}

} // verus!
