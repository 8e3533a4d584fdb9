//! The strip with the totals of the session.

use vstd::prelude::*;
use vstd::string::*;
use crate::action::Action;
use crate::components::{Outcome, OutcomeView};
use crate::rpc::{Request, RequestView, SessionStats};
use crate::text::{signed_decimal, signed_decimal_string};
use crate::utils::{bytes_text, convert_bytes};

verus! {

/// The totals of the session as they were last reported.
#[derive(Debug)]
pub struct SessionStat {
    pub stats: SessionStats,
}

/// The line that the strip shows.
pub open spec fn stats_text(stats: SessionStats) -> Seq<char> {
    "Down: "@ + bytes_text(stats.download_speed as int) + "/s Up: "@ + bytes_text(
        stats.upload_speed as int,
    ) + "/s Torrents: "@ + signed_decimal(stats.torrent_count as int) + " "@
}

impl SessionStat {
    /// A strip that shows the given totals.
    pub fn new(stats: SessionStats) -> (strip: Self)
        ensures
            strip.stats == stats,
    {
        SessionStat { stats }
    }

    /// Reacts to an action: a tick asks the server for the totals, nothing else matters.
    pub fn update(&self, action: &Action) -> (outcome: Outcome)
        ensures
            outcome@ == if action is Tick {
                OutcomeView::Call(RequestView::GetStats)
            } else {
                OutcomeView::Nothing
            },
    {
        match action {
            Action::Tick => Outcome::Call(Request::GetStats),
            _ => Outcome::Nothing,
        }
    }

    /// Takes the totals that the server reported in place of those shown so far.
    pub fn receive(&mut self, stats: SessionStats)
        ensures
            final(self).stats == stats,
    {
        self.stats = stats;
    }

    /// The line that the strip shows.
    pub fn render_stats(&self) -> (line: String)
        ensures
            line@ == stats_text(self.stats),
    {
        let mut line = "Down: ".to_owned();
        line.append(convert_bytes(self.stats.download_speed).as_str());
        line.append("/s Up: ");
        line.append(convert_bytes(self.stats.upload_speed).as_str());
        line.append("/s Torrents: ");
        line.append(signed_decimal_string(self.stats.torrent_count as i64).as_str());
        line.append(" ");
        assert(line@ =~= stats_text(self.stats));
        line
    }
}

} // verus!
