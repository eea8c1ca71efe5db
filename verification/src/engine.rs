//! The playback engine: the reader's state and how each event changes it.

use vstd::prelude::*;
use crate::config::{
    adjusted_speed, nearest_speed, normalize_speed, valid_speed, Config, ConfigView,
    MAX_SPEED_MS, MIN_SPEED_MS, SPEED_STEP_MS,
};
use crate::extract::{ExtractionError, ExtractionFailure};
use crate::fade::{Fade, FADE_MS};
use crate::ingest::{load_outcome, Loaded, LoadedView};
use crate::message::{
    Action, ActionView, ColorOption, FullscreenKey, Message, MessageView, Warning, WindowMode,
};
use crate::theme::{hex_text, rgb_to_hex, ColorTheme, Rgb};
use crate::text::text_views;
use crate::tokenizer::{tokenize, words_of};

verus! {

/// Which colour pickers are open.
#[derive(Clone, Copy, Debug, PartialEq, Eq, Structural)]
pub struct DisplayColor {
    pub background: bool,
    pub text: bool,
    pub primary: bool,
    pub success: bool,
    pub warning: bool,
    pub danger: bool,
}

impl DisplayColor {
    /// No picker is open.
    pub open spec fn closed() -> DisplayColor {
        DisplayColor {
            background: false,
            text: false,
            primary: false,
            success: false,
            warning: false,
            danger: false,
        }
    }

    /// The pickers with the one of `option` open or closed as `open` says.
    pub open spec fn with(self, option: ColorOption, open: bool) -> DisplayColor {
        match option {
            ColorOption::Background => DisplayColor { background: open, ..self },
            ColorOption::Text => DisplayColor { text: open, ..self },
            ColorOption::Primary => DisplayColor { primary: open, ..self },
            ColorOption::_Success => DisplayColor { success: open, ..self },
            ColorOption::_Warning => DisplayColor { warning: open, ..self },
            ColorOption::_Danger => DisplayColor { danger: open, ..self },
        }
    }

    /// Opens or closes the picker of `option`.
    pub fn set(&mut self, option: ColorOption, open: bool)
        ensures
            *final(self) == old(self).with(option, open),
    {
        match option {
            ColorOption::Background => {
                self.background = open;
            },
            ColorOption::Text => {
                self.text = open;
            },
            ColorOption::Primary => {
                self.primary = open;
            },
            ColorOption::_Success => {
                self.success = open;
            },
            ColorOption::_Warning => {
                self.warning = open;
            },
            ColorOption::_Danger => {
                self.danger = open;
            },
        }
    }
}

/// The three parts of a word around its focus character: what stands before
/// it, the character itself, and what follows.  The focus is the character
/// at half the word's length, rounded down, counted in characters.
pub open spec fn focus_split(word: Seq<char>) -> (Seq<char>, Seq<char>, Seq<char>) {
    if word.len() == 0 {
        (Seq::empty(), Seq::empty(), Seq::empty())
    } else {
        let mid = word.len() as int / 2;
        (word.subrange(0, mid), word.subrange(mid, mid + 1), word.subrange(mid + 1, word.len() as int))
    }
}

/// The three parts of a word make up the word, and the focus of a word
/// that is not empty is the one character at half its length.
pub proof fn lemma_focus_split(word: Seq<char>)
    ensures
        focus_split(word).0 + focus_split(word).1 + focus_split(word).2 == word,
        word.len() > 0 ==> focus_split(word).1 == seq![word[word.len() as int / 2]],
        focus_split(word).0.len() == word.len() / 2,
{
}

/// The index at which a document of `count` words is entered when `index`
/// is asked for: the nearest one that holds a word.
pub open spec fn clamped_index(index: usize, count: nat) -> usize {
    if count == 0 {
        0
    } else if index < count {
        index
    } else {
        (count - 1) as usize
    }
}

/// The number that follows `token`, starting over after the largest.
pub open spec fn next_token(token: u64) -> u64 {
    if token == u64::MAX {
        0
    } else {
        (token + 1) as u64
    }
}

/// What the reader is doing.
#[derive(Clone, Copy, Debug, PartialEq, Eq, Structural)]
pub enum Playback {
    /// No document is loaded.
    Idle,
    /// A document is loaded and playback is paused.
    Paused,
    /// A document is loaded and playback runs.
    Playing,
}

/// The reader's state as plain values.
pub struct StateView {
    pub config: ConfigView,
    pub display: DisplayColor,
    /// The words of the loaded document, if one is loaded.
    pub words: Option<Seq<Seq<char>>>,
    /// The index of the word on show, if a document is loaded.
    pub index: Option<usize>,
    pub paused: bool,
    pub fade: Fade,
    /// The instant of the last tick or frame.
    pub instant: u64,
    pub fullscreen: bool,
    pub title: Seq<char>,
    /// Whether a load is under way.
    pub loading: bool,
    /// The number of the load that was started last.
    pub load_token: u64,
    pub warning: Option<Warning>,
}

impl StateView {
    /// What holds of every state: a position exists exactly when a document
    /// is loaded, it points at a word unless the document has none, and the
    /// speed is a valid one.
    pub open spec fn inv(self) -> bool {
        &&& self.words is Some <==> self.index is Some
        &&& self.words matches Some(w) ==> clamped_index(self.index->0, w.len()) == self.index->0
        &&& valid_speed(self.config.velocity as int)
    }

    /// What the reader is doing in this state.
    pub open spec fn playback(self) -> Playback {
        if self.words is None {
            Playback::Idle
        } else if self.paused {
            Playback::Paused
        } else {
            Playback::Playing
        }
    }

    /// Whether playback runs and has a word on show.
    pub open spec fn playing_word(self) -> bool {
        &&& !self.paused
        &&& self.words matches Some(w)
        &&& self.index matches Some(i)
        &&& i < w.len()
    }

    /// Whether the word on show is the document's last.
    pub open spec fn at_last_word(self) -> bool {
        &&& self.words matches Some(w)
        &&& self.index matches Some(i)
        &&& i + 1 >= w.len()
    }

    /// The state with the history holding `index` for `title`.
    pub open spec fn recorded(self, title: Seq<char>, index: usize) -> StateView {
        StateView {
            config: ConfigView {
                text_history: self.config.text_history.insert(title, index),
                ..self.config
            },
            ..self
        }
    }

    /// The state paused, with its position recorded under its title.
    pub open spec fn paused_here(self) -> StateView {
        match self.index {
            Some(i) => StateView { paused: true, ..self.recorded(self.title, i) },
            None => StateView { paused: true, ..self },
        }
    }

    /// The parts of the word on show; three empty texts if there is none.
    pub open spec fn current_word(self) -> (Seq<char>, Seq<char>, Seq<char>) {
        match (self.words, self.index) {
            (Some(w), Some(i)) => if i < w.len() {
                focus_split(w[i as int])
            } else {
                (Seq::empty(), Seq::empty(), Seq::empty())
            },
            _ => (Seq::empty(), Seq::empty(), Seq::empty()),
        }
    }

    /// After the word timer fires at `now`: if playback runs, a word is on
    /// show and no fade is under way, the word starts to fade out.
    pub open spec fn tick(self, now: u64) -> StateView {
        if self.playing_word() && !self.fade.animating(now) {
            StateView { fade: self.fade.heading(false, now), instant: now, ..self }
        } else {
            self
        }
    }

    /// Whether a frame at `now` is the point of advancement: playback runs,
    /// a word is on show and its fade-out has ended.
    pub open spec fn advances(self, now: u64) -> bool {
        self.playing_word() && !self.fade.animating(now) && !self.fade.shown
    }

    /// After a frame at `now`.  At the point of advancement the next word
    /// starts to fade in; after the last word nothing follows, so it fades
    /// in again and playback pauses there, the position recorded.
    pub open spec fn frame(self, now: u64) -> StateView {
        let seen = StateView { instant: now, ..self };
        if self.advances(now) {
            let next = StateView { fade: self.fade.heading(true, now), ..seen };
            if self.at_last_word() {
                next.paused_here()
            } else {
                StateView { index: Some((self.index->0 + 1) as usize), ..next }
            }
        } else {
            seen
        }
    }

    /// After the space bar: playback starts, or pauses with the position
    /// recorded.  Without a document nothing changes.
    pub open spec fn toggled(self) -> StateView {
        if self.words is None {
            self
        } else if self.paused {
            StateView { paused: false, ..self }
        } else {
            self.paused_here()
        }
    }

    /// After the speed is changed by `delta` milliseconds per word.
    pub open spec fn adjusted(self, delta: int) -> StateView {
        StateView {
            config: ConfigView {
                velocity: adjusted_speed(self.config.velocity as int, delta) as u32,
                ..self.config
            },
            ..self
        }
    }

    /// After going back to the first word.  Without a document there is no
    /// position to set.
    pub open spec fn reset(self) -> StateView {
        if self.words is Some {
            StateView { index: Some(0), ..self }
        } else {
            self
        }
    }

    /// After `loaded` is taken up: its words are the document, entered at
    /// the wanted index brought within the document, paused, with that
    /// position recorded under the new title.
    pub open spec fn opened(self, loaded: LoadedView) -> StateView {
        let words = words_of(loaded.text);
        let index = clamped_index(loaded.index, words.len());
        StateView {
            words: Some(words),
            index: Some(index),
            paused: true,
            title: loaded.title,
            loading: false,
            ..self.recorded(loaded.title, index)
        }
    }

    /// After a load is started: it is under way under the next number.
    pub open spec fn load_started(self) -> StateView {
        StateView { loading: true, load_token: next_token(self.load_token), ..self }
    }

    /// After the load started under `token` ends with `result`.  A load that
    /// a later one has overtaken is dropped; a failure leaves the document
    /// as it is.
    pub open spec fn load_ended(self, token: u64, result: Result<LoadedView, ExtractionFailure>) -> StateView {
        if token != self.load_token {
            self
        } else {
            match result {
                Ok(loaded) => self.opened(loaded),
                Err(_) => StateView { loading: false, ..self },
            }
        }
    }

    /// After a key that changes the window mode: escape leaves full screen,
    /// F11 enters or leaves it.
    pub open spec fn window_toggled(self, key: FullscreenKey) -> StateView {
        match key {
            FullscreenKey::Escape => StateView { fullscreen: false, ..self },
            FullscreenKey::F11 => StateView { fullscreen: !self.fullscreen, ..self },
        }
    }

    /// After `color` is picked for `option`: the theme holds its notation
    /// and the picker is closed.
    pub open spec fn color_set(self, color: Rgb, option: ColorOption) -> StateView {
        StateView {
            config: ConfigView {
                theme: self.config.theme.with(option, hex_text(color)),
                ..self.config
            },
            display: self.display.with(option, false),
            ..self
        }
    }
}

/// The state at the start of a session with the settings `config`: no
/// document, paused, the word at rest, the speed brought to a valid one.
pub open spec fn initial_state(config: ConfigView) -> StateView {
    StateView {
        config: ConfigView {
            velocity: nearest_speed(config.velocity as int) as u32,
            ..config
        },
        display: DisplayColor::closed(),
        words: None,
        index: None,
        paused: true,
        fade: Fade::resting(),
        instant: 0,
        fullscreen: false,
        title: Seq::empty(),
        loading: false,
        load_token: 0,
        warning: None,
    }
}

/// What an event does: the state after it and the work it asks for.
pub open spec fn step(s: StateView, m: MessageView) -> (StateView, ActionView) {
    match m {
        MessageView::DisplayColor(option) => (
            StateView { display: s.display.with(option, true), ..s },
            ActionView::Nothing,
        ),
        MessageView::UndisplayColor(option) => (
            StateView { display: s.display.with(option, false), ..s },
            ActionView::Nothing,
        ),
        MessageView::SubmitColor(color, option) => (
            s.color_set(color, option),
            ActionView::SaveConfig,
        ),
        MessageView::FileDialog => (s, ActionView::PickFile),
        MessageView::FilePicked => (
            s.load_started(),
            ActionView::StartLoad(next_token(s.load_token)),
        ),
        MessageView::FileLoaded(token, result) => (
            s.load_ended(token, result),
            if token != s.load_token {
                ActionView::Nothing
            } else {
                match result {
                    Ok(_) => ActionView::SaveConfig,
                    Err(e) => ActionView::ReportFailure(e),
                }
            },
        ),
        MessageView::Tick(now) => (s.tick(now), ActionView::Nothing),
        MessageView::TextAnimation(now) => (
            s.frame(now),
            if s.advances(now) && s.at_last_word() {
                ActionView::SaveConfig
            } else {
                ActionView::Nothing
            },
        ),
        MessageView::ArrowLeftPressed => (
            s.adjusted(SPEED_STEP_MS as int),
            ActionView::SaveConfig,
        ),
        MessageView::ArrowRightPressed => (
            s.adjusted(-(SPEED_STEP_MS as int)),
            ActionView::SaveConfig,
        ),
        MessageView::SpacePressed => (
            s.toggled(),
            if s.words is Some && !s.paused {
                ActionView::SaveConfig
            } else {
                ActionView::Nothing
            },
        ),
        MessageView::ResetIndex => (s.reset(), ActionView::Nothing),
        MessageView::ToggleFullscreen(key) => (
            s.window_toggled(key),
            if s.fullscreen {
                ActionView::SetWindowMode(WindowMode::Windowed)
            } else if key == FullscreenKey::F11 {
                ActionView::SetWindowMode(WindowMode::Fullscreen)
            } else {
                ActionView::Nothing
            },
        ),
        MessageView::FileDialogFont => (s, ActionView::PickFont),
        MessageView::FontPicked(name) => (
            StateView { config: ConfigView { font: name, ..s.config }, ..s },
            ActionView::LoadFont,
        ),
        MessageView::FontChanged => (s, ActionView::ApplyFont),
        MessageView::Warned(w) => (StateView { warning: Some(w), ..s }, ActionView::Nothing),
    }
}

/// Every event leaves the state one that holds a word position exactly
/// when it holds a document, inside the document, at a valid speed.
pub proof fn lemma_step_keeps_inv(s: StateView, m: MessageView)
    requires
        s.inv(),
    ensures
        step(s, m).0.inv(),
{
}

/// Only the end of a load changes the document: every other event leaves
/// the words and the title as they are, and a load that failed or was
/// overtaken does so too.
pub proof fn lemma_document_stays(s: StateView, m: MessageView)
    requires
        !(m matches MessageView::FileLoaded(token, Ok(_)) && token == s.load_token),
    ensures
        step(s, m).0.words == s.words,
        step(s, m).0.title == s.title,
{
}

/// The speed stays a multiple of the step within the limits under the
/// arrow keys, and a key that asks for more than a limit changes nothing.
pub proof fn lemma_speed_stays_valid(s: StateView)
    requires
        s.inv(),
    ensures
        valid_speed(step(s, MessageView::ArrowLeftPressed).0.config.velocity as int),
        valid_speed(step(s, MessageView::ArrowRightPressed).0.config.velocity as int),
        s.config.velocity == MAX_SPEED_MS ==> step(s, MessageView::ArrowLeftPressed).0 == s,
        s.config.velocity == MIN_SPEED_MS ==> step(s, MessageView::ArrowRightPressed).0 == s,
{
}

/// Playback never runs past the document: where the last word has faded
/// out, the frame that would advance pauses instead, on that word, and
/// records it; everywhere else the frame leaves a position that holds a word.
pub proof fn lemma_last_word_pauses(s: StateView, now: u64)
    requires
        s.inv(),
        s.advances(now),
    ensures
        s.frame(now).index->0 < s.words->0.len(),
        s.at_last_word() ==> {
            &&& s.frame(now).playback() == Playback::Paused
            &&& s.frame(now).index == s.index
            &&& s.frame(now).config.text_history == s.config.text_history.insert(
                s.title,
                s.index->0,
            )
        },
        !s.at_last_word() ==> {
            &&& s.frame(now).playback() == Playback::Playing
            &&& s.frame(now).index == Some((s.index->0 + 1) as usize)
        },
{
}

/// One full cycle on a word at rest: the timer fires at `t`, and the first
/// frame after the fade-out has ended moves on to the next word, or pauses
/// on the last.
pub proof fn lemma_cycle(s: StateView, t: u64, later: u64)
    requires
        s.inv(),
        s.playing_word(),
        s.fade.shown,
        !s.fade.animating(t),
        later - t >= FADE_MS,
    ensures
        s.tick(t).advances(later),
        !s.at_last_word() ==> s.tick(t).frame(later).index == Some((s.index->0 + 1) as usize),
        s.at_last_word() ==> s.tick(t).frame(later).paused && s.tick(t).frame(later).index
            == s.index,
        s.tick(t).frame(later).fade.shown,
{
}

/// The reader's state.
pub struct State {
    config: Config,
    pub display: DisplayColor,
    text: Option<Vec<String>>,
    index: Option<usize>,
    pause: bool,
    pub text_animation: Fade,
    pub text_instant: u64,
    pub fullscreen: bool,
    pub text_title: String,
    pub text_loader: bool,
    load_token: u64,
    warning: Option<Warning>,
}

impl View for State {
    type V = StateView;

    closed spec fn view(&self) -> StateView {
        StateView {
            config: self.config@,
            display: self.display,
            words: match self.text {
                Some(words) => Some(text_views(words@)),
                None => None,
            },
            index: self.index,
            paused: self.pause,
            fade: self.text_animation,
            instant: self.text_instant,
            fullscreen: self.fullscreen,
            title: self.text_title@,
            loading: self.text_loader,
            load_token: self.load_token,
            warning: self.warning,
        }
    }
}

impl State {
    /// The state is one that the engine can be in.
    pub closed spec fn wf(&self) -> bool {
        self.config.wf() && self@.inv()
    }

    /// The state at the start of a session with the settings `config`.
    pub fn new(config: Config) -> (r: State)
        requires
            config.wf(),
        ensures
            r.wf(),
            r@ == initial_state(config@),
    {
        let mut config = config;
        config.velocity = normalize_speed(config.velocity);
        State {
            config,
            display: DisplayColor {
                background: false,
                text: false,
                primary: false,
                success: false,
                warning: false,
                danger: false,
            },
            text: None,
            index: None,
            pause: true,
            text_animation: Fade::new(),
            text_instant: 0,
            fullscreen: false,
            text_title: String::new(),
            text_loader: false,
            load_token: 0,
            warning: None,
        }
    }

    /// The colours of the interface.
    pub fn get_state_theme(&self) -> (r: &ColorTheme)
        ensures
            r@ == self@.config.theme,
    {
        &self.config.theme
    }

    /// The settings.
    pub fn get_config(&self) -> (r: &Config)
        ensures
            r@ == self@.config,
            self.wf() ==> r.wf(),
    {
        &self.config
    }

    /// The time per word, in milliseconds.
    pub fn get_velocity(&self) -> (r: u32)
        ensures
            r == self@.config.velocity,
    {
        self.config.velocity
    }

    /// Sets the time per word to the valid speed for `v`.
    pub fn set_velocity(&mut self, v: u32)
        requires
            old(self).wf(),
        ensures
            final(self).wf(),
            final(self)@ == (StateView {
                config: ConfigView {
                    velocity: nearest_speed(v as int) as u32,
                    ..old(self)@.config
                },
                ..old(self)@
            }),
    {
        self.config.velocity = normalize_speed(v);
    }

    /// The title of the loaded document; empty before the first load.
    pub fn get_title(&self) -> (r: &str)
        ensures
            r@ == self@.title,
    {
        self.text_title.as_str()
    }

    /// Whether playback is paused.
    pub fn paused(&self) -> (r: bool)
        ensures
            r == self@.paused,
    {
        self.pause
    }

    /// What the reader is doing.
    pub fn playback(&self) -> (r: Playback)
        ensures
            r == self@.playback(),
    {
        if self.text.is_none() {
            Playback::Idle
        } else if self.pause {
            Playback::Paused
        } else {
            Playback::Playing
        }
    }

    /// The index of the word on show, if a document is loaded.
    pub fn get_index(&self) -> (r: Option<usize>)
        ensures
            r == self@.index,
    {
        self.index
    }

    /// The number of words of the loaded document, if one is loaded.
    pub fn word_count(&self) -> (r: Option<usize>)
        ensures
            match self@.words {
                Some(w) => r == Some(w.len() as usize) && w.len() <= usize::MAX,
                None => r is None,
            },
    {
        match &self.text {
            Some(words) => Some(words.len()),
            None => None,
        }
    }

    /// The last warning, if there was one.
    pub fn last_warning(&self) -> (r: Option<Warning>)
        ensures
            r == self@.warning,
    {
        self.warning
    }

    /// The parts of the word on show around its focus character: before,
    /// focus, after.  Three empty strings if no word is on show.
    pub fn get_word(&self) -> (r: [&str; 3])
        ensures
            (r[0]@, r[1]@, r[2]@) == self@.current_word(),
    {
        proof {
            reveal_strlit("");
        }
        let nothing: [&str; 3] = ["", "", ""];
        match (&self.text, self.index) {
            (Some(words), Some(i)) => {
                if i < words.len() {
                    let word = words[i].as_str();
                    assert(word@ == text_views(words@)[i as int]);
                    let n = word.unicode_len();
                    if n == 0 {
                        nothing
                    } else {
                        let mid = n / 2;
                        [
                            word.substring_char(0, mid),
                            word.substring_char(mid, mid + 1),
                            word.substring_char(mid + 1, n),
                        ]
                    }
                } else {
                    nothing
                }
            },
            _ => nothing,
        }
    }

    /// The word timer fired at `now`.
    pub fn tick(&mut self, now: u64)
        requires
            old(self).wf(),
        ensures
            final(self).wf(),
            final(self)@ == old(self)@.tick(now),
    {
        if self.has_word_playing() && !self.text_animation.is_animating(now) {
            self.text_animation.go(false, now);
            self.text_instant = now;
        }
    }

    /// Whether playback runs and has a word on show.
    pub fn has_word_playing(&self) -> (r: bool)
        ensures
            r == self@.playing_word(),
    {
        match (&self.text, self.index) {
            (Some(words), Some(i)) => !self.pause && i < words.len(),
            _ => false,
        }
    }

    /// Pauses and records the position under the title.
    fn pause_here(&mut self)
        requires
            old(self).wf(),
        ensures
            final(self).wf(),
            final(self)@ == old(self)@.paused_here(),
    {
        self.pause = true;
        if let Some(i) = self.index {
            self.config.text_history.record(self.text_title.as_str(), i);
        }
    }

    /// A frame is drawn at `now`.  Returns whether playback stopped at the
    /// document's end, which records the position.
    pub fn animation_frame(&mut self, now: u64) -> (stopped: bool)
        requires
            old(self).wf(),
        ensures
            final(self).wf(),
            final(self)@ == old(self)@.frame(now),
            stopped == (old(self)@.advances(now) && old(self)@.at_last_word()),
    {
        let advances = self.has_word_playing() && !self.text_animation.is_animating(now)
            && !self.text_animation.shown;
        self.text_instant = now;
        if !advances {
            return false;
        }
        self.text_animation.go(true, now);
        match (&self.text, self.index) {
            (Some(words), Some(i)) => {
                let count = words.len();
                assert(text_views(words@).len() == count);
                if i + 1 < count {
                    self.index = Some(i + 1);
                    false
                } else {
                    self.pause_here();
                    true
                }
            },
            _ => false,
        }
    }

    /// Starts or pauses playback.  Returns whether playback paused, which
    /// records the position.
    pub fn toggle_play(&mut self) -> (recorded: bool)
        requires
            old(self).wf(),
        ensures
            final(self).wf(),
            final(self)@ == old(self)@.toggled(),
            recorded == (old(self)@.words is Some && !old(self)@.paused),
    {
        if self.text.is_none() {
            false
        } else if self.pause {
            self.pause = false;
            false
        } else {
            self.pause_here();
            true
        }
    }

    /// Changes the time per word by `delta` milliseconds, one step up or
    /// down, within the limits.
    pub fn adjust_speed(&mut self, delta: i32)
        requires
            old(self).wf(),
            delta == SPEED_STEP_MS || delta == -(SPEED_STEP_MS as int),
        ensures
            final(self).wf(),
            final(self)@ == old(self)@.adjusted(delta as int),
    {
        let speed = self.config.velocity;
        if delta > 0 {
            if speed >= MAX_SPEED_MS - SPEED_STEP_MS {
                self.config.velocity = MAX_SPEED_MS;
            } else {
                self.config.velocity = speed + SPEED_STEP_MS;
            }
        } else {
            if speed <= MIN_SPEED_MS + SPEED_STEP_MS {
                self.config.velocity = MIN_SPEED_MS;
            } else {
                self.config.velocity = speed - SPEED_STEP_MS;
            }
        }
    }

    /// Goes back to the first word.
    pub fn reset_index(&mut self)
        requires
            old(self).wf(),
        ensures
            final(self).wf(),
            final(self)@ == old(self)@.reset(),
    {
        if self.text.is_some() {
            self.index = Some(0);
        }
    }

    /// Takes up a loaded document.
    pub fn load(&mut self, loaded: Loaded)
        requires
            old(self).wf(),
        ensures
            final(self).wf(),
            final(self)@ == old(self)@.opened(loaded@),
    {
        let words = tokenize(loaded.text.as_str());
        let count = words.len();
        let index = if count == 0 {
            0
        } else if loaded.index < count {
            loaded.index
        } else {
            count - 1
        };
        self.config.text_history.record(loaded.title.as_str(), index);
        self.text = Some(words);
        self.index = Some(index);
        self.pause = true;
        self.text_title = loaded.title;
        self.text_loader = false;
    }

    /// Starts a load and returns its number.
    pub fn begin_load(&mut self) -> (token: u64)
        requires
            old(self).wf(),
        ensures
            final(self).wf(),
            final(self)@ == old(self)@.load_started(),
            token == final(self)@.load_token,
    {
        self.text_loader = true;
        self.load_token = if self.load_token == u64::MAX {
            0
        } else {
            self.load_token + 1
        };
        self.load_token
    }

    /// Ends the load that was started under `token`.  Returns the failure
    /// to report, if the load is the current one and failed.
    pub fn end_load(&mut self, token: u64, result: Result<Loaded, ExtractionError>) -> (r: Option<
        ExtractionError,
    >)
        requires
            old(self).wf(),
        ensures
            final(self).wf(),
            final(self)@ == old(self)@.load_ended(token, load_outcome(result)),
            match r {
                Some(e) => token == old(self)@.load_token && load_outcome(result) == Err::<
                    LoadedView,
                    ExtractionFailure,
                >(e@),
                None => token != old(self)@.load_token || result is Ok,
            },
    {
        if token != self.load_token {
            return None;
        }
        match result {
            Ok(loaded) => {
                self.load(loaded);
                None
            },
            Err(e) => {
                self.text_loader = false;
                Some(e)
            },
        }
    }

    /// Reacts to a key that changes the window mode.  Returns the mode to
    /// put the window in, if it changes.
    pub fn toggle_fullscreen(&mut self, key: FullscreenKey) -> (r: Option<WindowMode>)
        requires
            old(self).wf(),
        ensures
            final(self).wf(),
            final(self)@ == old(self)@.window_toggled(key),
            r == (if old(self)@.fullscreen {
                Some(WindowMode::Windowed)
            } else if key == FullscreenKey::F11 {
                Some(WindowMode::Fullscreen)
            } else {
                None
            }),
    {
        if self.fullscreen {
            self.fullscreen = false;
            Some(WindowMode::Windowed)
        } else {
            match key {
                FullscreenKey::F11 => {
                    self.fullscreen = true;
                    Some(WindowMode::Fullscreen)
                },
                FullscreenKey::Escape => None,
            }
        }
    }

    /// Holds `color` for `option` in the theme and closes the picker.
    pub fn submit_color(&mut self, color: Rgb, option: ColorOption)
        requires
            old(self).wf(),
        ensures
            final(self).wf(),
            final(self)@ == old(self)@.color_set(color, option),
    {
        self.config.theme.set_color(option, rgb_to_hex(color));
        self.display.set(option, false);
    }
}

/// Reacts to an event: changes the state and returns the work to do.
pub fn update(state: &mut State, message: Message) -> (action: Action)
    requires
        old(state).wf(),
    ensures
        final(state).wf(),
        (final(state)@, action@) == step(old(state)@, message@),
{
    match message {
        Message::DisplayColor(option) => {
            state.display.set(option, true);
            Action::Nothing
        },
        Message::UndisplayColor(option) => {
            state.display.set(option, false);
            Action::Nothing
        },
        Message::SubmitColor(color, option) => {
            state.submit_color(color, option);
            Action::SaveConfig
        },
        Message::FileDialog => Action::PickFile,
        Message::FilePicked => Action::StartLoad(state.begin_load()),
        Message::FileLoaded(token, result) => {
            let current = token == state.load_token;
            let loaded = result.is_ok();
            match state.end_load(token, result) {
                Some(e) => Action::ReportFailure(e),
                None => if current && loaded {
                    Action::SaveConfig
                } else {
                    Action::Nothing
                },
            }
        },
        Message::Tick(now) => {
            state.tick(now);
            Action::Nothing
        },
        Message::TextAnimation(now) => {
            if state.animation_frame(now) {
                Action::SaveConfig
            } else {
                Action::Nothing
            }
        },
        Message::ArrowLeftPressed => {
            state.adjust_speed(100);
            Action::SaveConfig
        },
        Message::ArrowRightPressed => {
            state.adjust_speed(-100);
            Action::SaveConfig
        },
        Message::SpacePressed => {
            if state.toggle_play() {
                Action::SaveConfig
            } else {
                Action::Nothing
            }
        },
        Message::ResetIndex => {
            state.reset_index();
            Action::Nothing
        },
        Message::ToggleFullscreen(key) => {
            match state.toggle_fullscreen(key) {
                Some(mode) => Action::SetWindowMode(mode),
                None => Action::Nothing,
            }
        },
        Message::FileDialogFont => Action::PickFont,
        Message::FontPicked(name) => {
            state.config.font = name;
            Action::LoadFont
        },
        Message::FontChanged => Action::ApplyFont,
        Message::Warned(w) => {
            state.warning = Some(w);
            Action::Nothing
        },
    }
}

} // verus!
