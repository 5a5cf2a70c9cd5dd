//! Choosing a media file for an item: the inspector's loading flag and
//! error message, and what each step of the choice leads to. The file
//! dialog, the probing of the file and the update of the item are done by
//! the caller, which reports their results here.
use vstd::prelude::*;
use crate::model::str_equal;
use crate::text::{push_str, string_from_chars};

verus! {

/// Whether a file is being chosen and the last error of a choice.
pub struct FileLoadState {
    loading_file: bool,
    file_error: Option<String>,
}

/// The mathematical value of a [`FileLoadState`].
pub struct FileLoadView {
    pub loading_file: bool,
    pub file_error: Option<Seq<char>>,
}

impl View for FileLoadState {
    type V = FileLoadView;

    closed spec fn view(&self) -> FileLoadView {
        FileLoadView {
            loading_file: self.loading_file,
            file_error: match self.file_error {
                Some(e) => Some(e@),
                None => None,
            },
        }
    }
}

/// What probing the chosen file gave.
pub enum ProbeResult {
    /// The file was read and is of the kind the item expects.
    Matched,
    /// The file was read but belongs to another kind of item.
    Mismatched,
    /// The file could not be read; the error's text.
    Failed(String),
}

/// What the caller does next.
pub enum FileLoadAction {
    /// Set the probed file on the item, then report with `apply_finished`.
    Apply,
    /// Show this notification.
    Notify(String),
}

/// The message shown when the chosen file belongs to another kind of item.
pub open spec fn mismatch_message() -> Seq<char> {
    "選択したファイルの種類がこのアイテムと一致しません"@
}

/// The message shown when the file dialog reports an error.
pub open spec fn picker_error_message(detail: Seq<char>) -> Seq<char> {
    "ファイルを選択できません: "@ + detail
}

/// The message shown when the file dialog gives no answer.
pub open spec fn picker_unanswered_message(detail: Seq<char>) -> Seq<char> {
    "ファイル選択ダイアログから応答を取得できません: "@ + detail
}

fn prefixed(prefix: &str, detail: &str) -> (res: String)
    ensures
        res@ == prefix@ + detail@,
{
    let mut out: Vec<char> = Vec::new();
    push_str(&mut out, prefix);
    push_str(&mut out, detail);
    string_from_chars(&out)
}

/// Whether the probed file was made for the expected plugin, item and file input.
pub fn imported_matches(
    expected_plugin_id: &str,
    expected_item_id: &str,
    expected_input_id: &str,
    plugin_id: &str,
    item_id: &str,
    input_id: &str,
) -> (res: bool)
    ensures
        res == (plugin_id@ == expected_plugin_id@ && item_id@ == expected_item_id@ && input_id@
            == expected_input_id@),
{
    str_equal(plugin_id, expected_plugin_id) && str_equal(item_id, expected_item_id) && str_equal(
        input_id,
        expected_input_id,
    )
}

impl FileLoadState {
    /// Not loading, no error.
    pub fn new() -> (res: Self)
        ensures
            res@ == (FileLoadView { loading_file: false, file_error: None }),
    {
        FileLoadState { loading_file: false, file_error: None }
    }

    /// Whether a file is being chosen.
    pub fn is_loading(&self) -> (res: bool)
        ensures
            res == self@.loading_file,
    {
        self.loading_file
    }

    /// The last error, if any.
    pub fn error(&self) -> (res: Option<&str>)
        ensures
            match res {
                Some(e) => self@.file_error == Some(e@),
                None => self@.file_error is None,
            },
    {
        match &self.file_error {
            Some(e) => Some(e.as_str()),
            None => None,
        }
    }

    /// Starts choosing a file for a file input of the selected item; refused
    /// while another choice is running or when the item has no such input.
    pub fn begin(&mut self, has_file_input: bool) -> (started: bool)
        ensures
            started == (!old(self)@.loading_file && has_file_input),
            started ==> final(self)@ == (FileLoadView { loading_file: true, file_error: None }),
            !started ==> final(self)@ == old(self)@,
    {
        if self.loading_file || !has_file_input {
            return false;
        }
        self.loading_file = true;
        self.file_error = None;
        true
    }

    /// The dialog reported an error: the choice ends with an error, which is
    /// also the notification to show.
    pub fn picker_failed(&mut self, detail: &str) -> (notification: String)
        ensures
            notification@ == picker_error_message(detail@),
            final(self)@ == (FileLoadView { loading_file: false, file_error: Some(notification@) }),
    {
        let message = prefixed("ファイルを選択できません: ", detail);
        self.loading_file = false;
        self.file_error = Some(message.clone());
        message
    }

    /// The dialog gave no answer: the choice ends with an error, which is
    /// also the notification to show.
    pub fn picker_unanswered(&mut self, detail: &str) -> (notification: String)
        ensures
            notification@ == picker_unanswered_message(detail@),
            final(self)@ == (FileLoadView { loading_file: false, file_error: Some(notification@) }),
    {
        let message = prefixed("ファイル選択ダイアログから応答を取得できません: ", detail);
        self.loading_file = false;
        self.file_error = Some(message.clone());
        message
    }

    /// No file was chosen: the choice ends quietly.
    pub fn picker_cancelled(&mut self)
        ensures
            final(self)@ == (FileLoadView { loading_file: false, file_error: old(self)@.file_error }),
    {
        self.loading_file = false;
    }

    /// The chosen file was probed: a matching file is applied next, anything
    /// else ends the choice with an error that is shown.
    pub fn probe_finished(&mut self, result: ProbeResult) -> (action: FileLoadAction)
        ensures
            final(self)@.loading_file == false,
            match result {
                ProbeResult::Matched => action is Apply && final(self)@.file_error
                    == old(self)@.file_error,
                ProbeResult::Mismatched => match action {
                    FileLoadAction::Notify(m) => m@ == mismatch_message() && final(self)@.file_error
                        == Some(mismatch_message()),
                    FileLoadAction::Apply => false,
                },
                ProbeResult::Failed(e) => match action {
                    FileLoadAction::Notify(m) => m@ == e@ && final(self)@.file_error == Some(e@),
                    FileLoadAction::Apply => false,
                },
            },
    {
        self.loading_file = false;
        match result {
            ProbeResult::Matched => FileLoadAction::Apply,
            ProbeResult::Mismatched => {
                let message = "選択したファイルの種類がこのアイテムと一致しません".to_owned();
                self.file_error = Some(message.clone());
                FileLoadAction::Notify(message)
            },
            ProbeResult::Failed(error) => {
                self.file_error = Some(error.clone());
                FileLoadAction::Notify(error)
            },
        }
    }

    /// The probed file was set on the item (or setting it failed with
    /// `error`); returns the notification to show, if any error stands.
    pub fn apply_finished(&mut self, error: Option<String>) -> (notification: Option<String>)
        ensures
            final(self)@.loading_file == old(self)@.loading_file,
            final(self)@.file_error == (match error {
                Some(e) => Some(e@),
                None => old(self)@.file_error,
            }),
            match notification {
                Some(n) => final(self)@.file_error == Some(n@),
                None => final(self)@.file_error is None,
            },
    {
        if let Some(error) = error {
            self.file_error = Some(error);
        }
        match &self.file_error {
            Some(e) => Some(e.clone()),
            None => None,
        }
    }

    /// The project session changed: any running choice is forgotten.
    pub fn session_changed(&mut self)
        ensures
            final(self)@ == (FileLoadView { loading_file: false, file_error: None }),
    {
        self.loading_file = false;
        self.file_error = None;
    }

    /// Another item was selected: its error no longer applies.
    pub fn selection_changed(&mut self)
        ensures
            final(self)@ == (FileLoadView { loading_file: old(self)@.loading_file, file_error: None }),
    {
        self.file_error = None;
    }
}

} // verus!
