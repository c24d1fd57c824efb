//! The uploads tab: picking one of the server's downloader scripts, typing
//! the URLs for it, and watching the job it runs.
use vstd::prelude::*;
use vstd::string::*;
use crate::api::DownloaderInfo;
use crate::ui::format::{split_urls, split_urls_spec};
use crate::ui::input::{edit_buf, edited};
use crate::ui::model::{Key, KeyCode};
use crate::ui::screens::UploadPane;
use crate::ui::select::{picker_down, picker_up};

verus! {

/// What the uploads tab shows.
pub enum UploadStage {
    /// The list of scripts, with the cursor at `index`.
    List { index: usize },
    /// The URL prompt for `script`, holding the text typed so far.
    Input { script: String, buf: String },
    /// The log of the job that was started.
    Job,
}

/// A stage with its texts as sequences.
pub enum UploadView {
    List { index: usize },
    Input { script: Seq<char>, buf: Seq<char> },
    Job,
}

impl View for UploadStage {
    type V = UploadView;

    open spec fn view(&self) -> UploadView {
        match self {
            UploadStage::List { index } => UploadView::List { index: *index },
            UploadStage::Input { script, buf } => UploadView::Input { script: script@, buf: buf@ },
            UploadStage::Job => UploadView::Job,
        }
    }
}

impl UploadStage {
    /// The pane of the stage, for the help overlay.
    pub fn pane(&self) -> (p: UploadPane)
        ensures
            p == match self@ {
                UploadView::List { .. } => UploadPane::List,
                UploadView::Input { .. } => UploadPane::Input,
                UploadView::Job => UploadPane::Job,
            },
    {
        match self {
            UploadStage::List { .. } => UploadPane::List,
            UploadStage::Input { .. } => UploadPane::Input,
            UploadStage::Job => UploadPane::Job,
        }
    }

    /// URLs are being typed, so every key is text.
    pub fn is_typing(&self) -> (b: bool)
        ensures
            b == (self@ is Input),
    {
        match self {
            UploadStage::Input { .. } => true,
            _ => false,
        }
    }
}

/// What a key in the uploads tab asks for.
pub enum UploadsAction {
    Nothing,
    /// Fetch the list of scripts again.
    Refresh,
    /// Run `script` on the URLs of the typed text `raw`.
    Run { script: String, raw: String },
}

pub enum UploadsActionView {
    Nothing,
    Refresh,
    Run { script: Seq<char>, raw: Seq<char> },
}

impl View for UploadsAction {
    type V = UploadsActionView;

    open spec fn view(&self) -> UploadsActionView {
        match self {
            UploadsAction::Nothing => UploadsActionView::Nothing,
            UploadsAction::Refresh => UploadsActionView::Refresh,
            UploadsAction::Run { script, raw } => UploadsActionView::Run { script: script@, raw: raw@ },
        }
    }
}

/// A key in the uploads tab over the given scripts: in the list, `j`/`k`
/// move, Enter opens the URL prompt for the script at the cursor and `r`
/// fetches the list again; in the prompt, Esc goes back to the list, Enter
/// runs the script and other keys edit the text; in the job view, Esc goes
/// back to the list.
pub open spec fn uploads_step(s: UploadView, code: KeyCode, scripts: Seq<DownloaderInfo>) -> (
    UploadView,
    UploadsActionView,
) {
    match s {
        UploadView::List { index } => match code {
            KeyCode::Char('j') | KeyCode::Down => (
                UploadView::List {
                    index: if scripts.len() == 0 {
                        index
                    } else if index + 1 < scripts.len() - 1 {
                        (index + 1) as usize
                    } else {
                        (scripts.len() - 1) as usize
                    },
                },
                UploadsActionView::Nothing,
            ),
            KeyCode::Char('k') | KeyCode::Up => (
                UploadView::List {
                    index: if index > 0 {
                        (index - 1) as usize
                    } else {
                        0
                    },
                },
                UploadsActionView::Nothing,
            ),
            KeyCode::Enter => if index < scripts.len() {
                (
                    UploadView::Input { script: scripts[index as int].name@, buf: Seq::empty() },
                    UploadsActionView::Nothing,
                )
            } else {
                (s, UploadsActionView::Nothing)
            },
            KeyCode::Char('r') => (UploadView::List { index: 0 }, UploadsActionView::Refresh),
            _ => (s, UploadsActionView::Nothing),
        },
        UploadView::Input { script, buf } => match code {
            KeyCode::Esc => (UploadView::List { index: 0 }, UploadsActionView::Nothing),
            KeyCode::Enter => (s, UploadsActionView::Run { script, raw: buf }),
            _ => (UploadView::Input { script, buf: edited(buf, code) }, UploadsActionView::Nothing),
        },
        UploadView::Job => if code == KeyCode::Esc {
            (UploadView::List { index: 0 }, UploadsActionView::Nothing)
        } else {
            (s, UploadsActionView::Nothing)
        },
    }
}

impl UploadStage {
    /// Handles a key of the uploads tab.
    pub fn handle_key(&mut self, key: Key, scripts: &[DownloaderInfo]) -> (a: UploadsAction)
        requires
            old(self)@ matches UploadView::List { index } ==> index < usize::MAX,
        ensures
            (final(self)@, a@) == uploads_step(old(self)@, key.code, scripts@),
    {
        let code = key.code;
        let mut stage = UploadStage::Job;
        std::mem::swap(&mut stage, self);
        match stage {
            UploadStage::List { index } => match code {
                KeyCode::Char('j') | KeyCode::Down => {
                    *self = UploadStage::List { index: picker_down(index, scripts.len()) };
                    UploadsAction::Nothing
                },
                KeyCode::Char('k') | KeyCode::Up => {
                    *self = UploadStage::List { index: picker_up(index) };
                    UploadsAction::Nothing
                },
                KeyCode::Enter => {
                    if index < scripts.len() {
                        *self = UploadStage::Input {
                            script: scripts[index].name.clone(),
                            buf: String::new(),
                        };
                    } else {
                        *self = UploadStage::List { index };
                    }
                    UploadsAction::Nothing
                },
                KeyCode::Char('r') => {
                    *self = UploadStage::List { index: 0 };
                    UploadsAction::Refresh
                },
                _ => {
                    *self = UploadStage::List { index };
                    UploadsAction::Nothing
                },
            },
            UploadStage::Input { script, buf } => match code {
                KeyCode::Esc => {
                    *self = UploadStage::List { index: 0 };
                    UploadsAction::Nothing
                },
                KeyCode::Enter => {
                    let a = UploadsAction::Run { script: script.clone(), raw: buf.clone() };
                    *self = UploadStage::Input { script, buf };
                    a
                },
                _ => {
                    *self = UploadStage::Input { script, buf: edit_buf(buf, code) };
                    UploadsAction::Nothing
                },
            },
            UploadStage::Job => {
                if code == KeyCode::Esc {
                    *self = UploadStage::List { index: 0 };
                }
                UploadsAction::Nothing
            },
        }
    }
}

/// The URLs a downloader runs on, from the typed text; the message to show
/// when there are none.
pub fn urls_to_run(raw: &str) -> (r: Result<Vec<String>, String>)
    ensures
        match r {
            Ok(urls) => split_urls_spec(raw@).len() > 0 && urls@.len() == split_urls_spec(raw@).len()
                && forall|k: int| 0 <= k < urls@.len() ==> #[trigger] urls@[k]@ == split_urls_spec(
                    raw@,
                )[k],
            Err(m) => split_urls_spec(raw@).len() == 0 && m@ == "enter at least one URL"@,
        },
{
    let urls = split_urls(raw);
    if urls.len() == 0 {
        Err(String::from_str("enter at least one URL"))
    } else {
        Ok(urls)
    }
}

} // verus!
