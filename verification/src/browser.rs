//! The browser's own state: the selected file, the pane that is shown, and
//! the rule that routes a file to a pane by its extension.

use vstd::prelude::*;
use crate::audio_player::{following_session, AudioPlayer, PlayerStatus, WorkerLaunch};
use crate::text::Text;

verus! {

/// What the text pane shows before any file was selected.
pub const NOTE_NO_SELECTION: &'static str = "No file selected";

/// What the text pane shows for an image.
pub const NOTE_IMAGE: &'static str = "Un mage d'Apple.";

/// What the text pane shows for a plain text file.
pub const NOTE_PLAIN_TEXT: &'static str = "This is a text file, printing content to be done...";

/// What the text pane shows for a PDF file.
pub const NOTE_PDF: &'static str = "Portable Document Format.";

/// What the text pane shows for any other file.
pub const NOTE_UNSUPPORTED: &'static str = "Format non support\u{e9}!";

/// A selected file: its full path, its last component, and its extension
/// without the dot.
pub struct Path {
    pub full_path: String,
    pub file_name: String,
    pub extension: String,
}

impl Path {
    /// A path made of the three given parts, as they are.
    pub fn new(full_path: String, file_name: String, extension: String) -> (path: Self)
        ensures
            path.full_path@ == full_path@,
            path.file_name@ == file_name@,
            path.extension@ == extension@,
    {
        Self { full_path, file_name, extension }
    }
}

/// The pane that is shown beside the file tree.
#[derive(Clone, Copy, Debug, PartialEq, Eq, Structural)]
pub enum ActiveUi {
    Audio,
    Text,
    Video,
}

/// What a file is taken for, going by its extension.
#[derive(Clone, Copy, Debug, PartialEq, Eq, Structural)]
pub enum FileKind {
    Image,
    PlainText,
    Pdf,
    Audio,
    Video,
    Unsupported,
}

/// What the caller of `resolve_file` has to do.
pub enum BrowserAction {
    /// Nothing.
    Nothing,
    /// Start a channel and a playback worker for the session.
    StartAudio(WorkerLaunch),
    /// Open the video player on the file at this path.
    OpenVideo(String),
}

/// The kind of a file with the given extension. Extensions are compared as
/// they are, so `PNG` is not `png`.
pub open spec fn kind_of(extension: Seq<char>) -> FileKind {
    if extension == "png"@ || extension == "jpg"@ {
        FileKind::Image
    } else if extension == "txt"@ {
        FileKind::PlainText
    } else if extension == "pdf"@ {
        FileKind::Pdf
    } else if extension == "mp3"@ {
        FileKind::Audio
    } else if extension == "webm"@ {
        FileKind::Video
    } else {
        FileKind::Unsupported
    }
}

impl FileKind {
    /// The pane that shows a file of this kind.
    pub open spec fn pane(self) -> ActiveUi {
        match self {
            FileKind::Audio => ActiveUi::Audio,
            FileKind::Video => ActiveUi::Video,
            _ => ActiveUi::Text,
        }
    }

    /// What the text pane says of a file of this kind. The audio and video
    /// panes have their own display: their kinds have no note.
    pub open spec fn note(self) -> Option<Seq<char>> {
        match self {
            FileKind::Image => Some(NOTE_IMAGE@),
            FileKind::PlainText => Some(NOTE_PLAIN_TEXT@),
            FileKind::Pdf => Some(NOTE_PDF@),
            FileKind::Unsupported => Some(NOTE_UNSUPPORTED@),
            FileKind::Audio => None,
            FileKind::Video => None,
        }
    }
}

fn same_text(left: &str, right: &str) -> (same: bool)
    ensures
        same == (left@ == right@),
{
    let left_owned = left.to_owned();
    let right_owned = right.to_owned();
    left_owned == right_owned
}

/// The kind of a file with the given extension.
pub fn classify(extension: &str) -> (kind: FileKind)
    ensures
        kind == kind_of(extension@),
{
    if same_text(extension, "png") || same_text(extension, "jpg") {
        FileKind::Image
    } else if same_text(extension, "txt") {
        FileKind::PlainText
    } else if same_text(extension, "pdf") {
        FileKind::Pdf
    } else if same_text(extension, "mp3") {
        FileKind::Audio
    } else if same_text(extension, "webm") {
        FileKind::Video
    } else {
        FileKind::Unsupported
    }
}

/// The browser: the selected file, the pane on display, and the state of the
/// audio and text panes.
pub struct MediaBrowser {
    pub selected_path: Option<Path>,
    pub active_ui: ActiveUi,
    pub audio_player: AudioPlayer,
    pub text: Text,
}

impl MediaBrowser {
    /// The browser at start: nothing selected, the text pane on display.
    pub fn new() -> (browser: Self)
        ensures
            browser.selected_path is None,
            browser.active_ui == ActiveUi::Text,
            browser.text@ == NOTE_NO_SELECTION@,
            browser.audio_player.status() == PlayerStatus::Idle,
            browser.audio_player.name() == crate::audio_player::IDLE_NAME@,
            !browser.audio_player.paused(),
            browser.audio_player.session() == 0,
    {
        Self {
            selected_path: None,
            active_ui: ActiveUi::Text,
            audio_player: AudioPlayer::default(),
            text: Text::new(NOTE_NO_SELECTION.to_owned()),
        }
    }

    /// Routes the selected file to its pane.
    ///
    /// With nothing selected, nothing changes. An audio file starts a session
    /// under the file's name; a video file is handed to the caller to open;
    /// any other file puts a note on the text pane. A session that plays goes
    /// on when another pane takes over.
    pub fn resolve_file(&mut self) -> (action: BrowserAction)
        ensures
            final(self).selected_path == old(self).selected_path,
            old(self).selected_path is None ==> *final(self) == *old(self),
            old(self).selected_path is None ==> action is Nothing,
            old(self).selected_path matches Some(path) ==> {
                let kind = kind_of(path.extension@);
                &&& final(self).active_ui == kind.pane()
                &&& kind == FileKind::Audio ==> {
                    &&& final(self).text == old(self).text
                    &&& final(self).audio_player.status() == PlayerStatus::Active
                    &&& final(self).audio_player.name() == path.file_name@
                    &&& !final(self).audio_player.paused()
                    &&& final(self).audio_player.session() == following_session(
                        old(self).audio_player.session(),
                    )
                    &&& action matches BrowserAction::StartAudio(launch)
                    &&& launch.session == final(self).audio_player.session()
                    &&& launch.full_path@ == path.full_path@
                }
                &&& kind == FileKind::Video ==> {
                    &&& final(self).text == old(self).text
                    &&& final(self).audio_player == old(self).audio_player
                    &&& action matches BrowserAction::OpenVideo(opened)
                    &&& opened@ == path.full_path@
                }
                &&& kind.note() matches Some(note) ==> {
                    &&& final(self).text@ == note
                    &&& final(self).audio_player == old(self).audio_player
                    &&& action is Nothing
                }
            },
    {
        match &self.selected_path {
            None => BrowserAction::Nothing,
            Some(path) => {
                let kind = classify(path.extension.as_str());
                match kind {
                    FileKind::Image => {
                        self.active_ui = ActiveUi::Text;
                        self.text.print(NOTE_IMAGE.to_owned());
                        BrowserAction::Nothing
                    },
                    FileKind::PlainText => {
                        self.active_ui = ActiveUi::Text;
                        self.text.print(NOTE_PLAIN_TEXT.to_owned());
                        BrowserAction::Nothing
                    },
                    FileKind::Pdf => {
                        self.active_ui = ActiveUi::Text;
                        self.text.print(NOTE_PDF.to_owned());
                        BrowserAction::Nothing
                    },
                    FileKind::Audio => {
                        let full_path = path.full_path.clone();
                        let file_name = path.file_name.clone();
                        self.active_ui = ActiveUi::Audio;
                        BrowserAction::StartAudio(self.audio_player.play(full_path, file_name))
                    },
                    FileKind::Video => {
                        let full_path = path.full_path.clone();
                        self.active_ui = ActiveUi::Video;
                        BrowserAction::OpenVideo(full_path)
                    },
                    FileKind::Unsupported => {
                        self.active_ui = ActiveUi::Text;
                        self.text.print(NOTE_UNSUPPORTED.to_owned());
                        BrowserAction::Nothing
                    },
                }
            },
        }
    }
}

impl Default for MediaBrowser {
    /// The browser at start.
    fn default() -> (browser: Self)
        ensures
            browser.selected_path is None,
            browser.active_ui == ActiveUi::Text,
            browser.text@ == NOTE_NO_SELECTION@,
            browser.audio_player.status() == PlayerStatus::Idle,
            browser.audio_player.name() == crate::audio_player::IDLE_NAME@,
            !browser.audio_player.paused(),
            browser.audio_player.session() == 0,
    {
        MediaBrowser::new()
    }
}

} // verus!
