//! The events that drive the reader and the work it asks for in return.

use vstd::prelude::*;
use vstd::string::StringExecFns;
use crate::extract::{ExtractionError, ExtractionFailure};
use crate::ingest::{load_outcome, Loaded, LoadedView};
use crate::theme::Rgb;

verus! {

/// One of the colours of the theme.
#[derive(Clone, Copy, Debug, PartialEq, Eq, Structural)]
pub enum ColorOption {
    Background,
    Text,
    Primary,
    _Success,
    _Warning,
    _Danger,
}

/// The name of a colour as the interface shows it.
pub open spec fn color_name(option: ColorOption) -> Seq<char> {
    match option {
        ColorOption::Background => "Background"@,
        ColorOption::Text => "Text"@,
        ColorOption::Primary => "Primary"@,
        ColorOption::_Success => "_Success"@,
        ColorOption::_Warning => "_Warning"@,
        ColorOption::_Danger => "_Danger"@,
    }
}

impl ColorOption {
    /// The colour's name.
    pub fn name(&self) -> (r: String)
        ensures
            r@ == color_name(*self),
    {
        match self {
            ColorOption::Background => String::from_str("Background"),
            ColorOption::Text => String::from_str("Text"),
            ColorOption::Primary => String::from_str("Primary"),
            ColorOption::_Success => String::from_str("_Success"),
            ColorOption::_Warning => String::from_str("_Warning"),
            ColorOption::_Danger => String::from_str("_Danger"),
        }
    }
}

/// The keys that change the window mode.
#[derive(Clone, Copy, Debug, PartialEq, Eq, Structural)]
pub enum FullscreenKey {
    Escape,
    F11,
}

/// The two modes of the window.
#[derive(Clone, Copy, Debug, PartialEq, Eq, Structural)]
pub enum WindowMode {
    Windowed,
    Fullscreen,
}

/// A key of the keyboard, as far as the reader tells keys apart.
#[derive(Clone, Copy, Debug, PartialEq, Eq, Structural)]
pub enum KeyPress {
    ArrowLeft,
    ArrowRight,
    Space,
    F11,
    Escape,
    Other,
}

/// What went wrong while saving, without stopping the reader.
#[derive(Clone, Copy, Debug, PartialEq, Eq, Structural)]
pub enum Warning {
    /// An extracted text could not be kept in the cache.
    CacheWriteFailure,
    /// The reading position could not be saved.
    HistoryPersistFailure,
}

/// An event that the reader reacts to.  Instants are milliseconds on the
/// session's clock.
#[derive(Debug, PartialEq, Eq)]
pub enum Message {
    /// Open the picker of a colour.
    DisplayColor(ColorOption),
    /// Close the picker of a colour.
    UndisplayColor(ColorOption),
    /// A colour was picked.
    SubmitColor(Rgb, ColorOption),
    /// The user asks for a document.
    FileDialog,
    /// The user chose a document's file.
    FilePicked,
    /// The load that was started under the given number has ended.
    FileLoaded(u64, Result<Loaded, ExtractionError>),
    /// The word timer fired at the given instant.
    Tick(u64),
    ArrowLeftPressed,
    ArrowRightPressed,
    SpacePressed,
    /// Go back to the first word.
    ResetIndex,
    ToggleFullscreen(FullscreenKey),
    /// A frame is drawn at the given instant.
    TextAnimation(u64),
    /// The user asks for a font.
    FileDialogFont,
    /// The user chose a font file; the string is its family name.
    FontPicked(String),
    /// The chosen font is ready for use.
    FontChanged,
    /// Saving went wrong.
    Warned(Warning),
}

/// A [`Message`] as plain values.
pub enum MessageView {
    DisplayColor(ColorOption),
    UndisplayColor(ColorOption),
    SubmitColor(Rgb, ColorOption),
    FileDialog,
    FilePicked,
    FileLoaded(u64, Result<LoadedView, ExtractionFailure>),
    Tick(u64),
    ArrowLeftPressed,
    ArrowRightPressed,
    SpacePressed,
    ResetIndex,
    ToggleFullscreen(FullscreenKey),
    TextAnimation(u64),
    FileDialogFont,
    FontPicked(Seq<char>),
    FontChanged,
    Warned(Warning),
}

impl View for Message {
    type V = MessageView;

    open spec fn view(&self) -> MessageView {
        match self {
            Message::DisplayColor(o) => MessageView::DisplayColor(*o),
            Message::UndisplayColor(o) => MessageView::UndisplayColor(*o),
            Message::SubmitColor(c, o) => MessageView::SubmitColor(*c, *o),
            Message::FileDialog => MessageView::FileDialog,
            Message::FilePicked => MessageView::FilePicked,
            Message::FileLoaded(n, r) => MessageView::FileLoaded(*n, load_outcome(*r)),
            Message::Tick(t) => MessageView::Tick(*t),
            Message::ArrowLeftPressed => MessageView::ArrowLeftPressed,
            Message::ArrowRightPressed => MessageView::ArrowRightPressed,
            Message::SpacePressed => MessageView::SpacePressed,
            Message::ResetIndex => MessageView::ResetIndex,
            Message::ToggleFullscreen(k) => MessageView::ToggleFullscreen(*k),
            Message::TextAnimation(t) => MessageView::TextAnimation(*t),
            Message::FileDialogFont => MessageView::FileDialogFont,
            Message::FontPicked(name) => MessageView::FontPicked(name@),
            Message::FontChanged => MessageView::FontChanged,
            Message::Warned(w) => MessageView::Warned(*w),
        }
    }
}

/// What the reader asks its surroundings to do after an event.
#[derive(Clone, Debug, PartialEq, Eq)]
pub enum Action {
    /// Nothing.
    Nothing,
    /// Write the settings to disk.
    SaveConfig,
    /// Let the user choose a document's file.
    PickFile,
    /// Load the chosen document in the background, under the given number.
    StartLoad(u64),
    /// Let the user choose a font file.
    PickFont,
    /// Make the font named in the settings ready for use.
    LoadFont,
    /// Write the settings to disk and draw with the font they name.
    ApplyFont,
    /// Put the window in the given mode.
    SetWindowMode(WindowMode),
    /// Tell the user that the document could not be loaded.
    ReportFailure(ExtractionError),
}

/// An [`Action`] as plain values.
pub enum ActionView {
    Nothing,
    SaveConfig,
    PickFile,
    StartLoad(u64),
    PickFont,
    LoadFont,
    ApplyFont,
    SetWindowMode(WindowMode),
    ReportFailure(ExtractionFailure),
}

impl View for Action {
    type V = ActionView;

    open spec fn view(&self) -> ActionView {
        match self {
            Action::Nothing => ActionView::Nothing,
            Action::SaveConfig => ActionView::SaveConfig,
            Action::PickFile => ActionView::PickFile,
            Action::StartLoad(n) => ActionView::StartLoad(*n),
            Action::PickFont => ActionView::PickFont,
            Action::LoadFont => ActionView::LoadFont,
            Action::ApplyFont => ActionView::ApplyFont,
            Action::SetWindowMode(m) => ActionView::SetWindowMode(*m),
            Action::ReportFailure(e) => ActionView::ReportFailure(e@),
        }
    }
}

/// The event that a key stands for: the arrows change the speed, the space
/// bar starts and stops playback, F11 and escape change the window mode.
pub open spec fn key_event(key: KeyPress) -> Option<MessageView> {
    match key {
        KeyPress::ArrowLeft => Some(MessageView::ArrowLeftPressed),
        KeyPress::ArrowRight => Some(MessageView::ArrowRightPressed),
        KeyPress::Space => Some(MessageView::SpacePressed),
        KeyPress::F11 => Some(MessageView::ToggleFullscreen(FullscreenKey::F11)),
        KeyPress::Escape => Some(MessageView::ToggleFullscreen(FullscreenKey::Escape)),
        KeyPress::Other => None,
    }
}

/// The event that a pressed key stands for, if it stands for one.
pub fn message_for_key(key: KeyPress) -> (r: Option<Message>)
    ensures
        match r {
            Some(m) => Some(m@),
            None => None,
        } == key_event(key),
{
    match key {
        KeyPress::ArrowLeft => Some(Message::ArrowLeftPressed),
        KeyPress::ArrowRight => Some(Message::ArrowRightPressed),
        KeyPress::Space => Some(Message::SpacePressed),
        KeyPress::F11 => Some(Message::ToggleFullscreen(FullscreenKey::F11)),
        KeyPress::Escape => Some(Message::ToggleFullscreen(FullscreenKey::Escape)),
        KeyPress::Other => None,
    }
}

} // verus!
