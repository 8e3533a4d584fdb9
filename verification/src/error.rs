//! What can go wrong while an action is handled.

use vstd::prelude::*;
use vstd::string::*;

verus! {

/// An error of a handler. None of them ends the loop: each is shown to the operator.
#[derive(Debug)]
pub enum AppError {
    /// A key asked for the selected row, and no row is selected.
    NoSelection,
    /// The selection points past the rows that are there.
    IndexOutOfRange,
    /// The server could not be asked, or its answer could not be used.
    TransportFailure(String),
    /// The transport was asked while an earlier request was still out.
    TransportBusy,
}

/// What an [`AppError`] holds.
pub enum AppErrorView {
    NoSelection,
    IndexOutOfRange,
    TransportFailure(Seq<char>),
    TransportBusy,
}

impl View for AppError {
    type V = AppErrorView;

    open spec fn view(&self) -> AppErrorView {
        match self {
            AppError::NoSelection => AppErrorView::NoSelection,
            AppError::IndexOutOfRange => AppErrorView::IndexOutOfRange,
            AppError::TransportFailure(message) => AppErrorView::TransportFailure(message@),
            AppError::TransportBusy => AppErrorView::TransportBusy,
        }
    }
}

/// The sentence that tells the operator of an error.
pub open spec fn error_text(error: AppErrorView) -> Seq<char> {
    match error {
        AppErrorView::NoSelection => "No row is selected"@,
        AppErrorView::IndexOutOfRange => "The selection is past the end of the list"@,
        AppErrorView::TransportFailure(message) => message,
        AppErrorView::TransportBusy => "The transport is already in use"@,
    }
}

impl AppError {
    /// The sentence that tells the operator of this error.
    pub fn message(&self) -> (text: String)
        ensures
            text@ == error_text(self@),
    {
        match self {
            AppError::NoSelection => "No row is selected".to_owned(),
            AppError::IndexOutOfRange => "The selection is past the end of the list".to_owned(),
            AppError::TransportFailure(message) => message.clone(),
            AppError::TransportBusy => "The transport is already in use".to_owned(),
        }
    }
}

} // verus!
