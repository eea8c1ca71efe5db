use rsvp::cache::TextCache;
use rsvp::config::Config;
use rsvp::engine::{update, DisplayColor, Playback, State};
use rsvp::extract::ExtractionError;
use rsvp::fade::Fade;
use rsvp::ingest::{load_or_extract, Load, Loaded, Source};
use rsvp::message::{Action, ColorOption, FullscreenKey, Message, Warning, WindowMode};
use rsvp::theme::Rgb;

fn document(text: &str, title: &str, index: usize) -> Loaded {
    Loaded { text: text.to_string(), title: title.to_string(), index, source: Source::Extractor }
}

fn fresh() -> State {
    State::new(Config::initial())
}

fn reading(text: &str) -> State {
    let mut state = fresh();
    state.load(document(text, "story", 0));
    state
}

fn playing(text: &str) -> State {
    let mut state = reading(text);
    assert!(state.toggle_play() == false);
    state
}

fn cycle(state: &mut State, at: u64) {
    assert_eq!(update(state, Message::Tick(at)), Action::Nothing);
    update(state, Message::TextAnimation(at + 150));
}

#[test]
fn a_session_starts_idle_and_paused() {
    let state = fresh();
    assert!(state.paused());
    assert_eq!(state.get_index(), None);
    assert_eq!(state.word_count(), None);
    assert_eq!(state.get_title(), "");
    assert_eq!(state.get_velocity(), 2000);
    assert_eq!(state.get_word(), ["", "", ""]);
    assert_eq!(state.text_animation, Fade { shown: true, since: None });
    assert!(!state.fullscreen);
    assert!(!state.text_loader);
    assert_eq!(state.last_warning(), None);
    assert_eq!(
        state.display,
        DisplayColor {
            background: false,
            text: false,
            primary: false,
            success: false,
            warning: false,
            danger: false
        }
    );
}

#[test]
fn a_session_brings_the_saved_speed_to_a_valid_one() {
    let mut config = Config::initial();
    config.velocity = 1234;
    assert_eq!(State::new(config).get_velocity(), 1200);
    let mut config = Config::initial();
    config.velocity = 5;
    assert_eq!(State::new(config).get_velocity(), 200);
}

#[test]
fn load_enters_the_document_paused() {
    let mut state = fresh();
    state.text_loader = true;
    state.load(document("one two three", "story", 1));
    assert!(state.paused());
    assert_eq!(state.get_index(), Some(1));
    assert_eq!(state.word_count(), Some(3));
    assert_eq!(state.get_title(), "story");
    assert!(!state.text_loader);
    assert_eq!(state.get_config().text_history.get("story"), Some(1));
}

#[test]
fn load_brings_the_index_into_the_document() {
    let mut state = fresh();
    state.load(document("one two three", "story", 3));
    assert_eq!(state.get_index(), Some(2));
    state.load(document("one two three", "story", usize::MAX));
    assert_eq!(state.get_index(), Some(2));
    assert_eq!(state.get_config().text_history.get("story"), Some(2));
}

#[test]
fn load_of_a_text_without_words() {
    let mut state = fresh();
    state.load(document(" \n ", "blank", 4));
    assert_eq!(state.word_count(), Some(0));
    assert_eq!(state.get_index(), Some(0));
    assert_eq!(state.get_word(), ["", "", ""]);
    assert!(!state.toggle_play());
    update(&mut state, Message::Tick(10));
    update(&mut state, Message::TextAnimation(500));
    assert_eq!(state.get_index(), Some(0));
}

#[test]
fn focus_is_the_character_at_half_the_length() {
    let state = reading("caf\u{e9}");
    assert_eq!(state.get_word(), ["ca", "f", "\u{e9}"]);
}

#[test]
fn focus_split_by_word_length() {
    assert_eq!(reading("a").get_word(), ["", "a", ""]);
    assert_eq!(reading("ab").get_word(), ["a", "b", ""]);
    assert_eq!(reading("abc").get_word(), ["a", "b", "c"]);
    assert_eq!(reading("abcd").get_word(), ["ab", "c", "d"]);
    assert_eq!(reading("abcde").get_word(), ["ab", "c", "de"]);
    assert_eq!(reading("reading").get_word(), ["rea", "d", "ing"]);
}

#[test]
fn focus_counts_characters_not_bytes() {
    assert_eq!(reading("\u{e9}\u{e8}\u{ea}").get_word(), ["\u{e9}", "\u{e8}", "\u{ea}"]);
    assert_eq!(reading("\u{4f60}\u{597d}").get_word(), ["\u{4f60}", "\u{597d}", ""]);
    assert_eq!(reading("na\u{ef}ve").get_word(), ["na", "\u{ef}", "ve"]);
}

#[test]
fn the_word_on_show_is_the_one_at_the_index() {
    let mut state = fresh();
    state.load(document("zero one two", "story", 2));
    assert_eq!(state.get_word(), ["t", "w", "o"]);
}

#[test]
fn idle_paused_playing() {
    let mut state = fresh();
    assert_eq!(state.playback(), Playback::Idle);
    state.load(document("one two", "story", 0));
    assert_eq!(state.playback(), Playback::Paused);
    state.toggle_play();
    assert_eq!(state.playback(), Playback::Playing);
    state.toggle_play();
    assert_eq!(state.playback(), Playback::Paused);
}

#[test]
fn a_word_plays_only_while_playback_runs_inside_the_document() {
    let mut state = fresh();
    assert!(!state.has_word_playing());
    state.load(document("one two", "story", 0));
    assert!(!state.has_word_playing());
    state.toggle_play();
    assert!(state.has_word_playing());
    let mut blank = fresh();
    blank.load(document("  ", "blank", 0));
    blank.toggle_play();
    assert!(!blank.has_word_playing());
}

#[test]
fn space_does_nothing_without_a_document() {
    let mut state = fresh();
    assert_eq!(update(&mut state, Message::SpacePressed), Action::Nothing);
    assert!(state.paused());
    assert_eq!(state.get_config().text_history.len(), 0);
}

#[test]
fn space_starts_and_pauses() {
    let mut state = reading("one two three");
    assert_eq!(update(&mut state, Message::SpacePressed), Action::Nothing);
    assert!(!state.paused());
    assert_eq!(update(&mut state, Message::SpacePressed), Action::SaveConfig);
    assert!(state.paused());
}

#[test]
fn pausing_records_the_position() {
    let mut state = playing("one two three");
    cycle(&mut state, 1000);
    assert_eq!(state.get_index(), Some(1));
    assert_eq!(state.get_config().text_history.get("story"), Some(0));
    assert!(state.toggle_play());
    assert_eq!(state.get_config().text_history.get("story"), Some(1));
}

#[test]
fn starting_records_nothing() {
    let mut state = fresh();
    state.load(document("one two three", "story", 2));
    state.reset_index();
    assert!(!state.toggle_play());
    assert_eq!(state.get_config().text_history.get("story"), Some(2));
}

#[test]
fn tick_starts_the_fade_out() {
    let mut state = playing("one two");
    assert_eq!(update(&mut state, Message::Tick(1000)), Action::Nothing);
    assert_eq!(state.text_animation, Fade { shown: false, since: Some(1000) });
    assert_eq!(state.text_instant, 1000);
    assert_eq!(state.get_index(), Some(0));
}

#[test]
fn tick_does_nothing_while_paused() {
    let mut state = reading("one two");
    update(&mut state, Message::Tick(1000));
    assert_eq!(state.text_animation, Fade { shown: true, since: None });
    assert_eq!(state.text_instant, 0);
}

#[test]
fn tick_does_nothing_without_a_document() {
    let mut state = fresh();
    update(&mut state, Message::Tick(1000));
    assert_eq!(state.text_animation, Fade { shown: true, since: None });
}

#[test]
fn tick_does_nothing_while_a_fade_is_under_way() {
    let mut state = playing("one two three");
    update(&mut state, Message::Tick(1000));
    update(&mut state, Message::TextAnimation(1150));
    assert_eq!(state.text_animation, Fade { shown: true, since: Some(1150) });
    update(&mut state, Message::Tick(1200));
    assert_eq!(state.text_animation, Fade { shown: true, since: Some(1150) });
    assert_eq!(state.text_instant, 1150);
    update(&mut state, Message::Tick(1300));
    assert_eq!(state.text_animation, Fade { shown: false, since: Some(1300) });
}

#[test]
fn frame_without_a_tick_only_marks_the_instant() {
    let mut state = playing("one two");
    assert_eq!(update(&mut state, Message::TextAnimation(777)), Action::Nothing);
    assert_eq!(state.get_index(), Some(0));
    assert_eq!(state.text_instant, 777);
    assert_eq!(state.text_animation, Fade { shown: true, since: None });
}

#[test]
fn frame_during_the_fade_out_does_not_advance() {
    let mut state = playing("one two");
    update(&mut state, Message::Tick(1000));
    update(&mut state, Message::TextAnimation(1149));
    assert_eq!(state.get_index(), Some(0));
    assert_eq!(state.text_animation, Fade { shown: false, since: Some(1000) });
}

#[test]
fn frame_after_the_fade_out_advances_and_fades_in() {
    let mut state = playing("one two three");
    update(&mut state, Message::Tick(1000));
    assert_eq!(update(&mut state, Message::TextAnimation(1150)), Action::Nothing);
    assert_eq!(state.get_index(), Some(1));
    assert_eq!(state.text_animation, Fade { shown: true, since: Some(1150) });
    assert!(!state.paused());
}

#[test]
fn frame_while_paused_does_not_advance() {
    let mut state = playing("one two three");
    update(&mut state, Message::Tick(1000));
    update(&mut state, Message::SpacePressed);
    update(&mut state, Message::TextAnimation(2000));
    assert_eq!(state.get_index(), Some(0));
    assert_eq!(state.text_instant, 2000);
}

#[test]
fn playback_stops_on_the_last_word() {
    let mut state = playing("only");
    update(&mut state, Message::Tick(1000));
    assert_eq!(update(&mut state, Message::TextAnimation(1150)), Action::SaveConfig);
    assert!(state.paused());
    assert_eq!(state.playback(), Playback::Paused);
    assert_eq!(state.get_index(), Some(0));
    assert_eq!(state.word_count(), Some(1));
    assert_eq!(state.get_word(), ["on", "l", "y"]);
    assert_eq!(state.text_animation, Fade { shown: true, since: Some(1150) });
    assert_eq!(state.get_config().text_history.get("story"), Some(0));
}

#[test]
fn six_words_six_cycles() {
    let mut cache = TextCache::new();
    let mut state = fresh();
    state.set_velocity(200);
    assert_eq!(state.get_velocity(), 200);
    let loaded = match load_or_extract(
        &mut cache,
        b"one two three four five six",
        "story.txt",
        &state.get_config().text_history,
    ) {
        Load::Done(Ok(loaded)) => loaded,
        other => panic!("{:?}", other),
    };
    state.load(loaded);
    update(&mut state, Message::SpacePressed);
    for k in 0..6u64 {
        assert!(!state.paused());
        assert_eq!(state.get_index(), Some(k as usize));
        cycle(&mut state, 1000 * (k + 1));
    }
    assert_eq!(state.playback(), Playback::Paused);
    assert_eq!(state.get_index(), Some(5));
    assert_eq!(state.get_config().text_history.get("story"), Some(5));

    let mut next = State::new(Config::initial());
    next.set_velocity(200);
    next.load(document("other text", "other", 0));
    let mut history = rsvp::history::HistoryStore::new();
    history.record("story", state.get_config().text_history.get("story").unwrap());
    let again =
        match load_or_extract(&mut cache, b"one two three four five six", "story.txt", &history) {
            Load::Done(Ok(loaded)) => loaded,
            other => panic!("{:?}", other),
        };
    assert_eq!(again.source, Source::Cache);
    assert_eq!(again.index, 5);
    next.load(again);
    assert_eq!(next.get_index(), Some(5));
    assert_eq!(next.get_word(), ["s", "i", "x"]);
}

#[test]
fn speed_changes_by_steps_within_limits() {
    let mut state = fresh();
    state.set_velocity(1000);
    state.adjust_speed(100);
    assert_eq!(state.get_velocity(), 1100);
    state.adjust_speed(-100);
    state.adjust_speed(-100);
    assert_eq!(state.get_velocity(), 900);
}

#[test]
fn speed_stays_at_the_lower_limit() {
    let mut state = fresh();
    state.set_velocity(200);
    for _ in 0..5 {
        assert_eq!(update(&mut state, Message::ArrowRightPressed), Action::SaveConfig);
        assert_eq!(state.get_velocity(), 200);
    }
}

#[test]
fn speed_stays_at_the_upper_limit() {
    let mut state = fresh();
    state.set_velocity(2000);
    for _ in 0..5 {
        assert_eq!(update(&mut state, Message::ArrowLeftPressed), Action::SaveConfig);
        assert_eq!(state.get_velocity(), 2000);
    }
}

#[test]
fn speed_is_always_a_step_within_limits() {
    let mut state = fresh();
    for k in 0..60u32 {
        if k % 7 < 5 {
            update(&mut state, Message::ArrowRightPressed);
        } else {
            update(&mut state, Message::ArrowLeftPressed);
        }
        let v = state.get_velocity();
        assert!(200 <= v && v <= 2000 && v % 100 == 0, "{}", v);
    }
    assert_eq!(state.get_velocity(), 200);
}

#[test]
fn left_arrow_slows_down_right_arrow_speeds_up() {
    let mut state = fresh();
    state.set_velocity(500);
    update(&mut state, Message::ArrowLeftPressed);
    assert_eq!(state.get_velocity(), 600);
    update(&mut state, Message::ArrowRightPressed);
    update(&mut state, Message::ArrowRightPressed);
    assert_eq!(state.get_velocity(), 400);
}

#[test]
fn set_velocity_takes_the_valid_speed() {
    let mut state = fresh();
    state.set_velocity(750);
    assert_eq!(state.get_velocity(), 700);
    state.set_velocity(9999);
    assert_eq!(state.get_velocity(), 2000);
}

#[test]
fn reset_goes_back_to_the_first_word() {
    let mut state = fresh();
    state.load(document("one two three", "story", 2));
    state.set_velocity(700);
    update(&mut state, Message::SpacePressed);
    assert_eq!(update(&mut state, Message::ResetIndex), Action::Nothing);
    assert_eq!(state.get_index(), Some(0));
    assert!(!state.paused());
    assert_eq!(state.get_velocity(), 700);
}

#[test]
fn reset_without_a_document_sets_no_position() {
    let mut state = fresh();
    update(&mut state, Message::ResetIndex);
    assert_eq!(state.get_index(), None);
}

#[test]
fn a_picked_file_starts_a_load() {
    let mut state = fresh();
    assert_eq!(update(&mut state, Message::FileDialog), Action::PickFile);
    assert!(!state.text_loader);
    assert_eq!(update(&mut state, Message::FilePicked), Action::StartLoad(1));
    assert!(state.text_loader);
    assert_eq!(update(&mut state, Message::FilePicked), Action::StartLoad(2));
}

#[test]
fn a_finished_load_is_taken_up() {
    let mut state = fresh();
    let token = state.begin_load();
    let action = update(&mut state, Message::FileLoaded(token, Ok(document("a b", "ab", 1))));
    assert_eq!(action, Action::SaveConfig);
    assert!(!state.text_loader);
    assert_eq!(state.get_title(), "ab");
    assert_eq!(state.get_index(), Some(1));
    assert!(state.paused());
}

#[test]
fn an_overtaken_load_is_dropped() {
    let mut state = fresh();
    let first = state.begin_load();
    let second = state.begin_load();
    assert_ne!(first, second);
    let action = update(&mut state, Message::FileLoaded(first, Ok(document("old", "old", 0))));
    assert_eq!(action, Action::Nothing);
    assert_eq!(state.get_title(), "");
    assert_eq!(state.word_count(), None);
    assert!(state.text_loader);
    let action = update(&mut state, Message::FileLoaded(second, Ok(document("new", "new", 0))));
    assert_eq!(action, Action::SaveConfig);
    assert_eq!(state.get_title(), "new");
}

#[test]
fn a_failed_load_keeps_the_document() {
    let mut state = playing("one two three");
    cycle(&mut state, 1000);
    let token = state.begin_load();
    let action =
        update(&mut state, Message::FileLoaded(token, Err(ExtractionError::UnsupportedFormat)));
    assert_eq!(action, Action::ReportFailure(ExtractionError::UnsupportedFormat));
    assert!(!state.text_loader);
    assert_eq!(state.get_title(), "story");
    assert_eq!(state.get_index(), Some(1));
    assert_eq!(state.word_count(), Some(3));
    assert!(!state.paused());
}

#[test]
fn each_failure_is_reported_as_it_is() {
    for error in [
        ExtractionError::UnsupportedFormat,
        ExtractionError::EmptyDocument,
        ExtractionError::Failed("bad xref".to_string()),
    ] {
        let mut state = fresh();
        let token = state.begin_load();
        assert_eq!(state.end_load(token, Err(error.clone())), Some(error));
    }
}

#[test]
fn the_document_keeps_playing_while_another_loads() {
    let mut state = playing("one two three");
    update(&mut state, Message::FilePicked);
    cycle(&mut state, 1000);
    assert_eq!(state.get_index(), Some(1));
    assert!(state.text_loader);
}

#[test]
fn colour_pickers_open_and_close() {
    let mut state = fresh();
    assert_eq!(update(&mut state, Message::DisplayColor(ColorOption::Text)), Action::Nothing);
    assert!(state.display.text);
    assert!(!state.display.background);
    update(&mut state, Message::DisplayColor(ColorOption::_Danger));
    assert!(state.display.danger);
    assert_eq!(update(&mut state, Message::UndisplayColor(ColorOption::Text)), Action::Nothing);
    assert!(!state.display.text);
    assert!(state.display.danger);
}

#[test]
fn a_picked_colour_goes_into_the_theme() {
    let mut state = fresh();
    update(&mut state, Message::DisplayColor(ColorOption::Primary));
    let action = update(
        &mut state,
        Message::SubmitColor(Rgb { r: 1, g: 0xab, b: 0xff }, ColorOption::Primary),
    );
    assert_eq!(action, Action::SaveConfig);
    assert_eq!(state.get_state_theme().primary, "#01ABFF");
    assert_eq!(state.get_state_theme().text, "#15161B");
    assert!(!state.display.primary);
}

#[test]
fn f11_enters_and_leaves_full_screen() {
    let mut state = fresh();
    assert_eq!(
        update(&mut state, Message::ToggleFullscreen(FullscreenKey::F11)),
        Action::SetWindowMode(WindowMode::Fullscreen)
    );
    assert!(state.fullscreen);
    assert_eq!(
        update(&mut state, Message::ToggleFullscreen(FullscreenKey::F11)),
        Action::SetWindowMode(WindowMode::Windowed)
    );
    assert!(!state.fullscreen);
}

#[test]
fn escape_only_leaves_full_screen() {
    let mut state = fresh();
    assert_eq!(update(&mut state, Message::ToggleFullscreen(FullscreenKey::Escape)), Action::Nothing);
    assert!(!state.fullscreen);
    update(&mut state, Message::ToggleFullscreen(FullscreenKey::F11));
    assert_eq!(
        update(&mut state, Message::ToggleFullscreen(FullscreenKey::Escape)),
        Action::SetWindowMode(WindowMode::Windowed)
    );
    assert!(!state.fullscreen);
}

#[test]
fn a_chosen_font_is_named_in_the_settings() {
    let mut state = fresh();
    assert_eq!(update(&mut state, Message::FileDialogFont), Action::PickFont);
    assert_eq!(
        update(&mut state, Message::FontPicked("Fira Sans".to_string())),
        Action::LoadFont
    );
    assert_eq!(state.get_config().font, "Fira Sans");
    assert_eq!(update(&mut state, Message::FontChanged), Action::ApplyFont);
    assert_eq!(state.get_config().font, "Fira Sans");
}

#[test]
fn warnings_are_kept_for_the_user() {
    let mut state = reading("one two");
    assert_eq!(
        update(&mut state, Message::Warned(Warning::CacheWriteFailure)),
        Action::Nothing
    );
    assert_eq!(state.last_warning(), Some(Warning::CacheWriteFailure));
    update(&mut state, Message::Warned(Warning::HistoryPersistFailure));
    assert_eq!(state.last_warning(), Some(Warning::HistoryPersistFailure));
    assert_eq!(state.get_index(), Some(0));
}

#[test]
fn load_numbers_start_over_after_the_largest() {
    let mut state = fresh();
    assert_eq!(state.begin_load(), 1);
    assert_eq!(state.begin_load(), 2);
}
