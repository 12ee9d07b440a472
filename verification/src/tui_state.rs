//! Interface-side state machines: list selections, dialogs, and the
//! local equalizer mirror the panels edit before sending commands to the
//! engine. Pure index and flag juggling — no drawing here.

use vstd::prelude::*;
use crate::eq::{EqPreset, FilterNode, preset_filters_spec};
use crate::queue::QueueItem;
use crate::browser::FileEntry;

verus! {

/// The dialog shown when a file is picked in the browser.
#[derive(Debug, Clone)]
pub enum BrowserFileDialog {
    Closed,
    /// Open, with the picked path and the selected option
    /// (0 = play now, 1 = add to queue).
    Open { path: String, selected: usize },
}

/// File-browser state: the listed entries and the selection.
#[derive(Debug, Clone)]
pub struct BrowserState {
    pub current_dir: String,
    pub items: Vec<FileEntry>,
    pub selected: Option<usize>,
    pub dialog: BrowserFileDialog,
}

impl BrowserState {
    /// A browser over a directory listing; selects the first entry when
    /// there is one.
    pub fn new(current_dir: String, items: Vec<FileEntry>) -> (r: BrowserState)
        ensures
            r.current_dir == current_dir,
            r.items == items,
            r.selected == (if items@.len() > 0 { Some(0usize) } else { None::<usize> }),
            r.dialog is Closed,
    {
        let selected = if items.len() > 0 { Some(0) } else { None };
        BrowserState { current_dir, items, selected, dialog: BrowserFileDialog::Closed }
    }

    /// Select the next entry, wrapping at the end.
    pub fn next(&mut self)
        ensures
            final(self).items == old(self).items,
            final(self).dialog == old(self).dialog,
            final(self).current_dir == old(self).current_dir,
            final(self).selected == (match old(self).selected {
                Some(i) => if i + 1 >= old(self).items@.len() { Some(0usize) }
                    else { Some((i + 1) as usize) },
                None => Some(0usize),
            }),
    {
        let i = match self.selected {
            Some(i) => {
                if self.items.len() == 0 || i >= self.items.len() - 1 { 0 } else { i + 1 }
            }
            None => 0,
        };
        self.selected = Some(i);
    }

    /// Select the previous entry, wrapping at the start.
    pub fn prev(&mut self)
        requires old(self).items@.len() > 0,
        ensures
            final(self).items == old(self).items,
            final(self).dialog == old(self).dialog,
            final(self).current_dir == old(self).current_dir,
            final(self).selected == (match old(self).selected {
                Some(i) => if i == 0 { Some((old(self).items@.len() - 1) as usize) }
                    else { Some((i - 1) as usize) },
                None => Some(0usize),
            }),
    {
        let i = match self.selected {
            Some(i) => {
                if i == 0 { self.items.len() - 1 } else { i - 1 }
            }
            None => 0,
        };
        self.selected = Some(i);
    }

    /// The path of the selected entry when it is a file (to hand to the
    /// dialog); `None` when nothing is selected or a directory is (the
    /// shell then lists it and calls `set_directory`).
    pub fn enter(&self) -> (r: Option<String>)
        ensures
            r is Some <==> (self.selected matches Some(i)
                && i < self.items@.len() && !self.items@[i as int].is_dir),
            r matches Some(p) ==> (self.selected matches Some(i)
                && p == self.items@[i as int].path),
    {
        match self.selected {
            Some(i) => {
                if i < self.items.len() {
                    let item = &self.items[i];
                    if item.is_dir {
                        None
                    } else {
                        Some(item.path.clone())
                    }
                } else {
                    None
                }
            }
            None => None,
        }
    }

    /// Install a new directory listing (after the shell listed the
    /// directory the selection entered).
    pub fn set_directory(&mut self, current_dir: String, items: Vec<FileEntry>)
        ensures
            final(self).current_dir == current_dir,
            final(self).items == items,
            final(self).selected == (if items@.len() > 0 { Some(0usize) }
                else { None::<usize> }),
            final(self).dialog == old(self).dialog,
    {
        self.current_dir = current_dir;
        self.selected = if items.len() > 0 { Some(0) } else { None };
        self.items = items;
    }

    /// Open the file dialog for a path.
    pub fn open_dialog(&mut self, path: String)
        ensures
            final(self).dialog == (BrowserFileDialog::Open { path, selected: 0 }),
            final(self).items == old(self).items,
            final(self).selected == old(self).selected,
            final(self).current_dir == old(self).current_dir,
    {
        self.dialog = BrowserFileDialog::Open { path, selected: 0 };
    }

    /// Toggle the dialog option between play-now and add-to-queue.
    pub fn dialog_toggle(&mut self)
        ensures
            final(self).items == old(self).items,
            final(self).selected == old(self).selected,
            final(self).current_dir == old(self).current_dir,
            (old(self).dialog matches BrowserFileDialog::Open { path, selected }
                ==> final(self).dialog == (BrowserFileDialog::Open {
                    path, selected: ((if selected == 0 { 1int } else { 0int }) as usize) })),
            (old(self).dialog is Closed ==> final(self).dialog is Closed),
    {
        let sel = match &self.dialog {
            BrowserFileDialog::Open { selected, .. } => Some(*selected),
            BrowserFileDialog::Closed => None,
        };
        match sel {
            Some(s) => {
                let path = match &self.dialog {
                    BrowserFileDialog::Open { path, .. } => path.clone(),
                    BrowserFileDialog::Closed => String::new(),
                };
                self.dialog = BrowserFileDialog::Open {
                    path,
                    selected: if s == 0 { 1 } else { 0 },
                };
            }
            None => {}
        }
    }

    /// Close the dialog.
    pub fn close_dialog(&mut self)
        ensures
            final(self).dialog is Closed,
            final(self).items == old(self).items,
            final(self).selected == old(self).selected,
            final(self).current_dir == old(self).current_dir,
    {
        self.dialog = BrowserFileDialog::Closed;
    }

    /// Whether the dialog is open.
    pub fn is_dialog_open(&self) -> (r: bool)
        ensures r == !(self.dialog is Closed),
    {
        match &self.dialog {
            BrowserFileDialog::Closed => false,
            BrowserFileDialog::Open { .. } => true,
        }
    }
}

/// Equalizer panel mode.
#[derive(Debug, Clone, Copy, PartialEq, Eq, Structural)]
pub enum EqMode {
    Casual,
    Advanced,
}

/// Which equalizer panel has focus.
#[derive(Debug, Clone, Copy, PartialEq, Eq, Structural)]
pub enum EqFocus {
    /// Curve panel: up and down adjust the master gain.
    CurvePanel,
    /// Band panel: up and down select bands.
    BandPanel,
}

/// Options of the band-select dialog.
#[derive(Debug, Clone, Copy, PartialEq, Eq, Structural)]
pub enum EqDialogOption {
    EditBand,
    ResetBand,
}

impl EqDialogOption {
    /// Cycle to the next option.
    pub fn next(&self) -> (r: EqDialogOption)
        ensures r == (match *self {
            EqDialogOption::EditBand => EqDialogOption::ResetBand,
            EqDialogOption::ResetBand => EqDialogOption::EditBand,
        }),
    {
        match self {
            EqDialogOption::EditBand => EqDialogOption::ResetBand,
            EqDialogOption::ResetBand => EqDialogOption::EditBand,
        }
    }

    /// Cycle to the previous option (with two options, same as next).
    pub fn prev(&self) -> (r: EqDialogOption)
        ensures r == (match *self {
            EqDialogOption::EditBand => EqDialogOption::ResetBand,
            EqDialogOption::ResetBand => EqDialogOption::EditBand,
        }),
    {
        match self {
            EqDialogOption::EditBand => EqDialogOption::ResetBand,
            EqDialogOption::ResetBand => EqDialogOption::EditBand,
        }
    }

    /// The option's position in the dialog list.
    pub fn index(self) -> (r: usize)
        ensures r == (match self {
            EqDialogOption::EditBand => 0int,
            EqDialogOption::ResetBand => 1int,
        }),
    {
        match self {
            EqDialogOption::EditBand => 0,
            EqDialogOption::ResetBand => 1,
        }
    }
}

/// State of the band-select dialog.
#[derive(Debug, Clone, Copy, PartialEq, Eq, Structural)]
pub enum EqDialogState {
    Closed,
    EqBandSelect { selected_band: usize, selected_dialog_option: EqDialogOption },
}

/// The equalizer panel's state: flags, selections, and a local copy of
/// the band list edited before being sent to the engine.
#[derive(Debug, Clone)]
pub struct EqState {
    pub show_eq: bool,
    pub eq_enabled: bool,
    pub eq_mode: EqMode,
    pub eq_focus: EqFocus,
    pub eq_selected_band: usize,
    pub eq_selected_param: usize,
    pub eq_dialog_state: EqDialogState,
    pub eq_filter_band_config_opened: Option<usize>,
    pub local_filters: Vec<FilterNode>,
    pub local_preset: EqPreset,
    /// Local master gain in dB (Q20); zero is unity gain.
    pub local_master_gain: i64,
    pub local_num_channels: u16,
}

impl EqState {
    /// The initial panel state: hidden, bypassed, casual mode, the flat
    /// preset mirrored locally.
    pub fn new() -> (r: EqState)
        ensures
            !r.show_eq,
            !r.eq_enabled,
            r.eq_mode == EqMode::Casual,
            r.eq_focus == EqFocus::CurvePanel,
            r.eq_selected_band == 0,
            r.eq_selected_param == 0,
            r.eq_dialog_state is Closed,
            r.eq_filter_band_config_opened is None,
            r.local_filters@ == preset_filters_spec(EqPreset::Flat),
            r.local_preset == EqPreset::Flat,
            r.local_master_gain == 0,
            r.local_num_channels == 2,
    {
        let preset = EqPreset::Flat;
        EqState {
            show_eq: false,
            eq_enabled: false,
            eq_mode: EqMode::Casual,
            eq_focus: EqFocus::CurvePanel,
            eq_selected_band: 0,
            eq_selected_param: 0,
            eq_dialog_state: EqDialogState::Closed,
            eq_filter_band_config_opened: None,
            local_filters: preset.set_filters(),
            local_preset: preset,
            local_master_gain: 0,
            local_num_channels: 2,
        }
    }

    /// Toggle the enabled flag.
    pub fn toggle_enabled(&mut self)
        ensures *final(self) == (EqState { eq_enabled: !old(self).eq_enabled, ..*old(self) }),
    {
        self.eq_enabled = !self.eq_enabled;
    }

    /// Toggle between casual and advanced mode.
    pub fn toggle_mode(&mut self)
        ensures
            final(self).eq_mode == (match old(self).eq_mode {
                EqMode::Casual => EqMode::Advanced,
                EqMode::Advanced => EqMode::Casual,
            }),
            *final(self) == (EqState { eq_mode: final(self).eq_mode, ..*old(self) }),
    {
        self.eq_mode = match self.eq_mode {
            EqMode::Casual => EqMode::Advanced,
            EqMode::Advanced => EqMode::Casual,
        };
    }

    /// Toggle focus between the curve and band panels.
    pub fn toggle_focus(&mut self)
        ensures
            final(self).eq_focus == (match old(self).eq_focus {
                EqFocus::CurvePanel => EqFocus::BandPanel,
                EqFocus::BandPanel => EqFocus::CurvePanel,
            }),
            *final(self) == (EqState { eq_focus: final(self).eq_focus, ..*old(self) }),
    {
        self.eq_focus = match self.eq_focus {
            EqFocus::CurvePanel => EqFocus::BandPanel,
            EqFocus::BandPanel => EqFocus::CurvePanel,
        };
    }

    /// Select the next band, wrapping.
    pub fn next_band(&mut self)
        ensures
            final(self).eq_selected_band == (if old(self).local_filters@.len() > 0 {
                (if old(self).eq_selected_band + 1 >= old(self).local_filters@.len() { 0int }
                    else { old(self).eq_selected_band + 1 }) as usize
            } else { old(self).eq_selected_band }),
            *final(self) == (EqState {
                eq_selected_band: final(self).eq_selected_band, ..*old(self) }),
    {
        if self.local_filters.len() > 0 {
            self.eq_selected_band = if self.eq_selected_band >= self.local_filters.len() - 1 {
                0
            } else {
                self.eq_selected_band + 1
            };
        }
    }

    /// Select the previous band, wrapping.
    pub fn prev_band(&mut self)
        ensures
            final(self).eq_selected_band == (if old(self).local_filters@.len() > 0 {
                (if old(self).eq_selected_band == 0 {
                    (old(self).local_filters@.len() - 1) as int
                } else { old(self).eq_selected_band - 1 }) as usize
            } else { old(self).eq_selected_band }),
            *final(self) == (EqState {
                eq_selected_band: final(self).eq_selected_band, ..*old(self) }),
    {
        if self.local_filters.len() > 0 {
            self.eq_selected_band = if self.eq_selected_band == 0 {
                self.local_filters.len() - 1
            } else {
                self.eq_selected_band - 1
            };
        }
    }

    /// Step forward: cycles the dialog option when the dialog is open,
    /// otherwise selects the next band.
    pub fn next(&mut self)
        ensures
            old(self).eq_dialog_state is Closed ==> (
                final(self).eq_dialog_state is Closed
                && final(self).local_filters == old(self).local_filters),
            (old(self).eq_dialog_state matches EqDialogState::EqBandSelect {
                selected_band, selected_dialog_option }
                ==> *final(self) == (EqState {
                    eq_dialog_state: EqDialogState::EqBandSelect {
                        selected_band,
                        selected_dialog_option: (match selected_dialog_option {
                            EqDialogOption::EditBand => EqDialogOption::ResetBand,
                            EqDialogOption::ResetBand => EqDialogOption::EditBand,
                        }),
                    },
                    ..*old(self)
                })),
    {
        match self.eq_dialog_state {
            EqDialogState::Closed => {
                self.next_band();
            }
            EqDialogState::EqBandSelect { selected_band, selected_dialog_option } => {
                self.eq_dialog_state = EqDialogState::EqBandSelect {
                    selected_band,
                    selected_dialog_option: selected_dialog_option.next(),
                };
            }
        }
    }

    /// Step backward: cycles the dialog option when the dialog is open,
    /// otherwise selects the previous band.
    pub fn prev(&mut self)
        ensures
            old(self).eq_dialog_state is Closed ==> (
                final(self).eq_dialog_state is Closed
                && final(self).local_filters == old(self).local_filters),
            (old(self).eq_dialog_state matches EqDialogState::EqBandSelect {
                selected_band, selected_dialog_option }
                ==> *final(self) == (EqState {
                    eq_dialog_state: EqDialogState::EqBandSelect {
                        selected_band,
                        selected_dialog_option: (match selected_dialog_option {
                            EqDialogOption::EditBand => EqDialogOption::ResetBand,
                            EqDialogOption::ResetBand => EqDialogOption::EditBand,
                        }),
                    },
                    ..*old(self)
                })),
    {
        match self.eq_dialog_state {
            EqDialogState::Closed => {
                self.prev_band();
            }
            EqDialogState::EqBandSelect { selected_band, selected_dialog_option } => {
                self.eq_dialog_state = EqDialogState::EqBandSelect {
                    selected_band,
                    selected_dialog_option: selected_dialog_option.prev(),
                };
            }
        }
    }

    /// Show the equalizer panel.
    pub fn open_panel(&mut self)
        ensures *final(self) == (EqState { show_eq: true, ..*old(self) }),
    {
        self.show_eq = true;
    }

    /// Hide the equalizer panel.
    pub fn close_panel(&mut self)
        ensures *final(self) == (EqState { show_eq: false, ..*old(self) }),
    {
        self.show_eq = false;
    }

    /// Open the band-select dialog on the selected band.
    pub fn open_filter_band_dialog(&mut self)
        ensures *final(self) == (EqState {
            eq_dialog_state: EqDialogState::EqBandSelect {
                selected_band: old(self).eq_selected_band,
                selected_dialog_option: EqDialogOption::EditBand,
            },
            ..*old(self)
        }),
    {
        self.eq_dialog_state = EqDialogState::EqBandSelect {
            selected_band: self.eq_selected_band,
            selected_dialog_option: EqDialogOption::EditBand,
        };
    }

    /// Close the band-select dialog.
    pub fn close_filter_band_dialog(&mut self)
        ensures *final(self) == (EqState {
            eq_dialog_state: EqDialogState::Closed, ..*old(self) }),
    {
        self.eq_dialog_state = EqDialogState::Closed;
    }

    /// Open the band configuration modal for a band.
    pub fn open_filter_band_config(&mut self, band_index: usize)
        ensures *final(self) == (EqState {
            eq_filter_band_config_opened: Some(band_index), ..*old(self) }),
    {
        self.eq_filter_band_config_opened = Some(band_index);
    }

    /// Close the band configuration modal.
    pub fn close_filter_band_config(&mut self)
        ensures *final(self) == (EqState {
            eq_filter_band_config_opened: None::<usize>, ..*old(self) }),
    {
        self.eq_filter_band_config_opened = None;
    }
}

/// The entries of the settings list.
#[derive(Debug, Clone, Copy, PartialEq, Eq, Structural)]
pub enum SettingsOption {
    Equalizer,
}

impl SettingsOption {
    /// The label shown for this option.
    pub fn label(&self) -> (r: &'static str)
        ensures r@ == "Equalizer"@,
    {
        match self {
            SettingsOption::Equalizer => "Equalizer",
        }
    }
}

/// The settings panel's state.
#[derive(Debug, Clone)]
pub struct SettingsState {
    pub items: Vec<SettingsOption>,
    pub selected_index: usize,
    /// Whether the choice dialog is open.
    pub is_dialog_open: bool,
    /// Selection inside the dialog.
    pub dialog_selection_index: usize,
}

impl SettingsState {
    /// The settings list with its one entry.
    pub fn new() -> (r: SettingsState)
        ensures
            r.items@ == seq![SettingsOption::Equalizer],
            r.selected_index == 0,
            !r.is_dialog_open,
            r.dialog_selection_index == 0,
    {
        let mut items: Vec<SettingsOption> = Vec::new();
        items.push(SettingsOption::Equalizer);
        proof {
            assert(items@ =~= seq![SettingsOption::Equalizer]);
        }
        SettingsState {
            items,
            selected_index: 0,
            is_dialog_open: false,
            dialog_selection_index: 0,
        }
    }

    /// Select the next item, wrapping.
    pub fn next_item(&mut self)
        requires old(self).selected_index < old(self).items@.len()
            || old(self).items@.len() == 0,
        ensures
            final(self).selected_index == (if old(self).items@.len() > 0 {
                ((old(self).selected_index + 1) as int
                    % old(self).items@.len() as int) as usize
            } else { old(self).selected_index }),
            *final(self) == (SettingsState {
                selected_index: final(self).selected_index, ..*old(self) }),
    {
        if self.items.len() > 0 {
            self.selected_index = (self.selected_index + 1) % self.items.len();
        }
    }

    /// Select the previous item, wrapping.
    pub fn prev_item(&mut self)
        requires old(self).selected_index < old(self).items@.len()
            || old(self).items@.len() == 0,
        ensures
            final(self).selected_index as int == (if old(self).items@.len() > 0 {
                if old(self).selected_index == 0 { old(self).items@.len() - 1 }
                    else { old(self).selected_index - 1 }
            } else { old(self).selected_index as int }),
            *final(self) == (SettingsState {
                selected_index: final(self).selected_index, ..*old(self) }),
    {
        if self.items.len() > 0 {
            self.selected_index = if self.selected_index == 0 {
                self.items.len() - 1
            } else {
                self.selected_index - 1
            };
        }
    }

    /// Open the choice dialog, resetting its selection.
    pub fn open_dialog(&mut self)
        ensures *final(self) == (SettingsState {
            is_dialog_open: true, dialog_selection_index: 0, ..*old(self) }),
    {
        self.is_dialog_open = true;
        self.dialog_selection_index = 0;
    }

    /// Close the choice dialog.
    pub fn close_dialog(&mut self)
        ensures *final(self) == (SettingsState { is_dialog_open: false, ..*old(self) }),
    {
        self.is_dialog_open = false;
    }

    /// Step the dialog selection forward through `choice_count` choices.
    pub fn next_dialog(&mut self, choice_count: usize)
        requires old(self).dialog_selection_index < choice_count || choice_count == 0,
        ensures
            final(self).dialog_selection_index == (if choice_count > 0 {
                ((old(self).dialog_selection_index + 1) as int
                    % choice_count as int) as usize
            } else { old(self).dialog_selection_index }),
            *final(self) == (SettingsState {
                dialog_selection_index: final(self).dialog_selection_index,
                ..*old(self) }),
    {
        if choice_count > 0 {
            self.dialog_selection_index = (self.dialog_selection_index + 1) % choice_count;
        }
    }

    /// Step the dialog selection backward through `choice_count` choices.
    pub fn prev_dialog(&mut self, choice_count: usize)
        requires old(self).dialog_selection_index < choice_count || choice_count == 0,
        ensures
            final(self).dialog_selection_index as int == (if choice_count > 0 {
                if old(self).dialog_selection_index == 0 { choice_count - 1 }
                    else { old(self).dialog_selection_index - 1 }
            } else { old(self).dialog_selection_index as int }),
            *final(self) == (SettingsState {
                dialog_selection_index: final(self).dialog_selection_index,
                ..*old(self) }),
    {
        if choice_count > 0 {
            self.dialog_selection_index = if self.dialog_selection_index == 0 {
                choice_count - 1
            } else {
                self.dialog_selection_index - 1
            };
        }
    }
}

/// The queue panel's state: a snapshot of the queue and a selection.
#[derive(Debug, Clone)]
pub struct QueueState {
    pub items: Vec<QueueItem>,
    pub selected: Option<usize>,
}

impl QueueState {
    /// An empty queue panel.
    pub fn new() -> (r: QueueState)
        ensures r.items@.len() == 0, r.selected is None,
    {
        QueueState { items: Vec::new(), selected: None }
    }

    /// Whether the panel shows no items.
    pub fn is_empty(&self) -> (r: bool)
        ensures r == (self.items@.len() == 0),
    {
        self.items.len() == 0
    }
}

} // verus!
