//! The views of the dashboard and what their handlers answer.

use vstd::prelude::*;
use crate::action::{Action, ActionView};
use crate::rpc::{Request, RequestView};

pub mod home;
pub mod properties;
pub mod selection;
pub mod session_stats;
pub mod torrent_info;

verus! {

/// A move in the tree of files. The tree keeps its cursor where it is drawn, so the move is
/// handed on to there.
#[derive(Clone, Copy, Debug, PartialEq, Eq, Structural)]
pub enum TreeCommand {
    Down,
    Up,
    ScrollUp(usize),
    ScrollDown(usize),
    Top,
    Bottom,
    /// Opens or closes the directory under the cursor.
    Toggle,
}

/// What a view answers when it has handled a key press or a tick.
#[derive(Debug)]
pub enum Outcome {
    /// Nothing is left to do.
    Nothing,
    /// An action that is to be handled before anything that arrives from outside.
    FollowUp(Action),
    /// A request for the server.
    Call(Request),
    /// A move in the tree of files.
    Tree(TreeCommand),
}

/// What an [`Outcome`] holds.
pub enum OutcomeView {
    Nothing,
    FollowUp(ActionView),
    Call(RequestView),
    Tree(TreeCommand),
}

impl View for Outcome {
    type V = OutcomeView;

    open spec fn view(&self) -> OutcomeView {
        match self {
            Outcome::Nothing => OutcomeView::Nothing,
            Outcome::FollowUp(action) => OutcomeView::FollowUp(action@),
            Outcome::Call(request) => OutcomeView::Call(request@),
            Outcome::Tree(command) => OutcomeView::Tree(*command),
        }
    }
}

} // verus!
