//! The interface-side state machines: browser navigation, equalizer
//! panel selections, settings dialogs, metadata helpers.

use audido_core::tui_state::{
    BrowserState, BrowserFileDialog, EqState, EqMode, EqFocus, EqDialogOption,
    EqDialogState, SettingsState, SettingsOption, QueueState,
};
use audido_core::tui_routes::{EqualizerRoute, BandFilterConfig, tab_names};
use audido_core::browser::FileEntry;
use audido_core::metadata::{ChannelLayout, MusicalSongKey, AudioMetadata};
use audido_core::logger::{LogRecord, LogLevel};
use audido_core::{init, init_engine, init_logger};

fn entries() -> Vec<FileEntry> {
    vec![
        FileEntry { name: "..".into(), path: "/".into(), is_dir: true },
        FileEntry { name: "music".into(), path: "/music".into(), is_dir: true },
        FileEntry { name: "a.wav".into(), path: "/a.wav".into(), is_dir: false },
    ]
}

#[test]
fn browser_navigation_wraps() {
    let mut b = BrowserState::new("/".into(), entries());
    assert_eq!(b.selected, Some(0));
    b.next();
    b.next();
    assert_eq!(b.selected, Some(2));
    b.next();
    assert_eq!(b.selected, Some(0));
    b.prev();
    assert_eq!(b.selected, Some(2));
}

#[test]
fn browser_enter_distinguishes_files_and_directories() {
    let mut b = BrowserState::new("/".into(), entries());
    assert!(b.enter().is_none()); // ".." is a directory
    b.next();
    b.next();
    assert_eq!(b.enter(), Some("/a.wav".to_string()));
    b.set_directory("/music".into(), Vec::new());
    assert_eq!(b.selected, None);
    assert_eq!(b.current_dir, "/music");
}

#[test]
fn browser_dialog_opens_toggles_and_closes() {
    let mut b = BrowserState::new("/".into(), entries());
    assert!(!b.is_dialog_open());
    b.open_dialog("/a.wav".into());
    assert!(b.is_dialog_open());
    b.dialog_toggle();
    assert!(matches!(&b.dialog, BrowserFileDialog::Open { selected: 1, .. }));
    b.dialog_toggle();
    assert!(matches!(&b.dialog, BrowserFileDialog::Open { selected: 0, .. }));
    b.close_dialog();
    assert!(!b.is_dialog_open());
}

#[test]
fn eq_panel_state_machine() {
    let mut s = EqState::new();
    assert!(!s.show_eq);
    assert_eq!(s.local_filters.len(), 8);
    s.toggle_enabled();
    assert!(s.eq_enabled);
    s.toggle_mode();
    assert!(matches!(s.eq_mode, EqMode::Advanced));
    s.toggle_focus();
    assert!(matches!(s.eq_focus, EqFocus::BandPanel));
    s.open_panel();
    assert!(s.show_eq);
    s.close_panel();
    assert!(!s.show_eq);

    s.next_band();
    assert_eq!(s.eq_selected_band, 1);
    s.prev_band();
    s.prev_band();
    assert_eq!(s.eq_selected_band, 7);

    s.open_filter_band_dialog();
    assert!(matches!(s.eq_dialog_state,
        EqDialogState::EqBandSelect { selected_band: 7, .. }));
    // with the dialog open, stepping cycles its option, not the band
    s.next();
    assert!(matches!(s.eq_dialog_state,
        EqDialogState::EqBandSelect {
            selected_dialog_option: EqDialogOption::ResetBand, .. }));
    s.prev();
    assert!(matches!(s.eq_dialog_state,
        EqDialogState::EqBandSelect {
            selected_dialog_option: EqDialogOption::EditBand, .. }));
    s.close_filter_band_dialog();
    assert!(matches!(s.eq_dialog_state, EqDialogState::Closed));

    s.open_filter_band_config(3);
    assert_eq!(s.eq_filter_band_config_opened, Some(3));
    s.close_filter_band_config();
    assert_eq!(s.eq_filter_band_config_opened, None);
}

#[test]
fn eq_dialog_option_cycles() {
    assert!(matches!(EqDialogOption::EditBand.next(), EqDialogOption::ResetBand));
    assert!(matches!(EqDialogOption::ResetBand.next(), EqDialogOption::EditBand));
    assert!(matches!(EqDialogOption::EditBand.prev(), EqDialogOption::ResetBand));
    assert_eq!(EqDialogOption::EditBand.index(), 0);
    assert_eq!(EqDialogOption::ResetBand.index(), 1);
}

#[test]
fn equalizer_route_navigation() {
    let mut r = EqualizerRoute::default();
    assert!(!r.has_floating_panel());
    r.toggle_focus();
    assert!(matches!(r.eq_focus, EqFocus::BandPanel));
    r.next_band(4);
    r.next_band(4);
    assert_eq!(r.eq_selected_band, 2);
    r.next(4);
    r.next(4);
    assert_eq!(r.eq_selected_band, 0);
    r.prev(4);
    assert_eq!(r.eq_selected_band, 3);
    r.prev_band(0); // empty band list: selection untouched
    assert_eq!(r.eq_selected_band, 3);

    r.open_filter_band_dialog();
    assert!(r.has_floating_panel());
    r.close_filter_band_dialog();

    r.open_filter_band_config(BandFilterConfig {
        selected_band: 1,
        option: vec!["Type".into(), "Freq".into(), "Gain".into()],
        selected_param: 0,
    });
    assert!(r.has_floating_panel());
    r.next_config_param();
    assert_eq!(r.eq_filter_band_config_opened.as_ref().unwrap().selected_param, 1);
    r.prev_config_param();
    r.prev_config_param();
    assert_eq!(r.eq_filter_band_config_opened.as_ref().unwrap().selected_param, 2);
    r.close_filter_band_config();
    assert!(!r.has_floating_panel());
}

#[test]
fn settings_state_machine() {
    let mut s = SettingsState::new();
    assert_eq!(s.items.len(), 1);
    assert_eq!(s.items[0].label(), "Equalizer");
    assert!(matches!(s.items[0], SettingsOption::Equalizer));
    s.next_item();
    assert_eq!(s.selected_index, 0); // one item: wraps onto itself
    s.prev_item();
    assert_eq!(s.selected_index, 0);
    s.open_dialog();
    assert!(s.is_dialog_open);
    s.next_dialog(2);
    assert_eq!(s.dialog_selection_index, 1);
    s.next_dialog(2);
    assert_eq!(s.dialog_selection_index, 0);
    s.prev_dialog(2);
    assert_eq!(s.dialog_selection_index, 1);
    s.close_dialog();
    assert!(!s.is_dialog_open);
}

#[test]
fn queue_panel_and_tabs() {
    let q = QueueState::new();
    assert!(q.is_empty());
    assert_eq!(tab_names().len(), 5);
}

#[test]
fn metadata_lookups() {
    assert_eq!(ChannelLayout::from_channels(1), ChannelLayout::Mono);
    assert_eq!(ChannelLayout::from_channels(2), ChannelLayout::Stereo);
    assert_eq!(ChannelLayout::from_channels(6), ChannelLayout::Unsupported);
    assert_eq!(ChannelLayout::Mono.label(), "Mono");

    assert_eq!(MusicalSongKey::from_major(0), Some(MusicalSongKey::CMaj));
    assert_eq!(MusicalSongKey::from_major(11), Some(MusicalSongKey::BMaj));
    assert_eq!(MusicalSongKey::from_major(12), None);
    assert_eq!(MusicalSongKey::from_minor(9), Some(MusicalSongKey::AMin));
    assert_eq!(MusicalSongKey::from_minor(12), None);
    assert_eq!(MusicalSongKey::ASharpMin.label(), "A#m");

    let m = AudioMetadata::default();
    assert_eq!(m.sample_rate, 0);
    assert!(m.title.is_none());
    let copy = m.duplicate();
    assert_eq!(copy.sample_rate, m.sample_rate);
}

#[test]
fn log_records_and_init() {
    let rec = LogRecord::new(LogLevel::Info, "ready".into(), "00:00:01".into());
    assert!(matches!(rec.level, LogLevel::Info));
    assert_eq!(rec.message, "ready");
    init_engine();
    init_logger();
    assert!(init().is_ok());
}
