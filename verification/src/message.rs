//! Messages: what key handlers, dialogs and finished requests ask the
//! application to do.
use crate::dialog::Dialog;
use crate::dialog::menu::Language;
use crate::error::{AppError, ValidationMessage};
use crate::model::User;
use crate::page::PageId;
use crate::request::{ApiRequest, ApiResult, StatusMessage};
use vstd::prelude::*;

verus! {

/// How a dialog is placed on the dialog stack.
#[derive(Clone, Copy, Debug, PartialEq, Eq, Structural)]
pub enum DialogOpenMode {
    /// On top of the open dialogs.
    Push,
    /// In place of the top dialog.
    ReplaceTop,
    /// As the only dialog.
    Reset,
}

/// A request to the application.
#[derive(Debug)]
pub enum Message {
    ApiRequest(ApiRequest),
    ApiResponse(ApiResult),
    Status(StatusMessage),
    Failed(AppError),
    OpenDialog { dialog: Dialog, mode: DialogOpenMode },
    /// Opens a dialog that follows the administrator state.
    OpenAdminDialog { dialog: Dialog, mode: DialogOpenMode },
    CloseDialog,
    CardScanned(String),
    OpenUser(User),
    Navigate(PageId),
    Quit,
    SetLanguage(Language),
    ToggleLanguage,
}

impl Message {
    /// A message that opens a dialog opens a well-formed one.
    pub open spec fn wf(self) -> bool {
        match self {
            Message::OpenDialog { dialog, .. } => dialog.wf(),
            Message::OpenAdminDialog { dialog, .. } => dialog.wf(),
            _ => true,
        }
    }
}

/// What a dialog or page did with an input.
#[derive(Debug)]
pub enum DialogResult<T> {
    /// The input was used up.
    Consumed,
    /// The input turned into a message for the application.
    Message(Message),
    /// The input is handed back for the next handler.
    Unhandled(T),
}

/// The result that reports a form error.
pub open spec fn invalid(v: ValidationMessage) -> DialogResult<crate::key::Key> {
    DialogResult::Message(Message::Failed(AppError::Validation(v)))
}

} // verus!

verus! {

/// A message in the result is well formed.
pub open spec fn result_wf<T>(r: DialogResult<T>) -> bool {
    r matches DialogResult::Message(m) ==> m.wf()
}

} // verus!
