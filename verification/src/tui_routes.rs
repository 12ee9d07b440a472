//! The interface's routes (tabs) and the equalizer route's local state:
//! which panel is focused, which band is selected, and the dialog and
//! modal machinery around band editing.

use vstd::prelude::*;
use crate::tui_state::{EqFocus, EqDialogState, EqDialogOption};

verus! {

/// The playback tab.
#[derive(Debug, Clone, Copy, PartialEq, Eq, Structural)]
pub struct PlaybackRoute;

/// The queue tab.
#[derive(Debug, Clone, Copy, PartialEq, Eq, Structural)]
pub struct QueueRoute;

/// The file-browser tab.
#[derive(Debug, Clone, Copy, PartialEq, Eq, Structural)]
pub struct BrowserRoute;

/// The settings tab.
#[derive(Debug, Clone, Copy, PartialEq, Eq, Structural)]
pub struct SettingsRoute;

/// The main tab names, in order.
pub fn tab_names() -> (r: Vec<&'static str>)
    ensures
        r@.len() == 5,
        r@[0]@ == "Playback"@,
        r@[1]@ == "Queue"@,
        r@[2]@ == "Browser"@,
        r@[3]@ == "Settings"@,
        r@[4]@ == "Log"@,
{
    let mut names: Vec<&'static str> = Vec::new();
    names.push("Playback");
    names.push("Queue");
    names.push("Browser");
    names.push("Settings");
    names.push("Log");
    names
}

/// The band configuration modal: which band, its option labels, and the
/// selected option.
#[derive(Debug, Clone)]
pub struct BandFilterConfig {
    pub selected_band: usize,
    pub option: Vec<String>,
    pub selected_param: usize,
}

/// The equalizer route's local state.
#[derive(Debug, Clone)]
pub struct EqualizerRoute {
    pub eq_focus: EqFocus,
    pub eq_selected_band: usize,
    pub eq_dialog_state: EqDialogState,
    pub eq_filter_band_config_opened: Option<BandFilterConfig>,
    /// Whether a parameter is locked in for editing.
    pub locked_in: bool,
}

impl Default for EqualizerRoute {
    fn default() -> (r: Self)
        ensures
            r.eq_focus == EqFocus::CurvePanel,
            r.eq_selected_band == 0,
            r.eq_dialog_state is Closed,
            r.eq_filter_band_config_opened is None,
            !r.locked_in,
    {
        EqualizerRoute {
            eq_focus: EqFocus::CurvePanel,
            eq_selected_band: 0,
            eq_dialog_state: EqDialogState::Closed,
            eq_filter_band_config_opened: None,
            locked_in: false,
        }
    }
}

impl EqualizerRoute {
    /// Toggle focus between the curve and band panels.
    pub fn toggle_focus(&mut self)
        ensures
            final(self).eq_focus == (match old(self).eq_focus {
                EqFocus::CurvePanel => EqFocus::BandPanel,
                EqFocus::BandPanel => EqFocus::CurvePanel,
            }),
            *final(self) == (EqualizerRoute {
                eq_focus: final(self).eq_focus, ..*old(self) }),
    {
        self.eq_focus = match self.eq_focus {
            EqFocus::CurvePanel => EqFocus::BandPanel,
            EqFocus::BandPanel => EqFocus::CurvePanel,
        };
    }

    /// Select the next band among `num_filters`, wrapping.
    pub fn next_band(&mut self, num_filters: usize)
        ensures
            final(self).eq_selected_band == (if num_filters > 0 {
                (if old(self).eq_selected_band + 1 >= num_filters { 0int }
                    else { old(self).eq_selected_band + 1 }) as usize
            } else { old(self).eq_selected_band }),
            *final(self) == (EqualizerRoute {
                eq_selected_band: final(self).eq_selected_band, ..*old(self) }),
    {
        if num_filters > 0 {
            self.eq_selected_band = if self.eq_selected_band >= num_filters - 1 {
                0
            } else {
                self.eq_selected_band + 1
            };
        }
    }

    /// Select the previous band among `num_filters`, wrapping.
    pub fn prev_band(&mut self, num_filters: usize)
        ensures
            final(self).eq_selected_band == (if num_filters > 0 {
                (if old(self).eq_selected_band == 0 { (num_filters - 1) as int }
                    else { old(self).eq_selected_band - 1 }) as usize
            } else { old(self).eq_selected_band }),
            *final(self) == (EqualizerRoute {
                eq_selected_band: final(self).eq_selected_band, ..*old(self) }),
    {
        if num_filters > 0 {
            self.eq_selected_band = if self.eq_selected_band == 0 {
                num_filters - 1
            } else {
                self.eq_selected_band - 1
            };
        }
    }

    /// Step forward: cycles the dialog option when the dialog is open,
    /// else selects the next band.
    pub fn next(&mut self, num_filters: usize)
        ensures
            old(self).eq_dialog_state is Closed
                ==> final(self).eq_dialog_state is Closed,
            (old(self).eq_dialog_state matches EqDialogState::EqBandSelect {
                selected_band, selected_dialog_option }
                ==> *final(self) == (EqualizerRoute {
                    eq_dialog_state: EqDialogState::EqBandSelect {
                        selected_band,
                        selected_dialog_option: (match selected_dialog_option {
                            EqDialogOption::EditBand => EqDialogOption::ResetBand,
                            EqDialogOption::ResetBand => EqDialogOption::EditBand,
                        }),
                    },
                    ..*old(self)
                })),
    {
        match self.eq_dialog_state {
            EqDialogState::Closed => {
                self.next_band(num_filters);
            }
            EqDialogState::EqBandSelect { selected_band, selected_dialog_option } => {
                self.eq_dialog_state = EqDialogState::EqBandSelect {
                    selected_band,
                    selected_dialog_option: selected_dialog_option.next(),
                };
            }
        }
    }

    /// Step backward: cycles the dialog option when the dialog is open,
    /// else selects the previous band.
    pub fn prev(&mut self, num_filters: usize)
        ensures
            old(self).eq_dialog_state is Closed
                ==> final(self).eq_dialog_state is Closed,
            (old(self).eq_dialog_state matches EqDialogState::EqBandSelect {
                selected_band, selected_dialog_option }
                ==> *final(self) == (EqualizerRoute {
                    eq_dialog_state: EqDialogState::EqBandSelect {
                        selected_band,
                        selected_dialog_option: (match selected_dialog_option {
                            EqDialogOption::EditBand => EqDialogOption::ResetBand,
                            EqDialogOption::ResetBand => EqDialogOption::EditBand,
                        }),
                    },
                    ..*old(self)
                })),
    {
        match self.eq_dialog_state {
            EqDialogState::Closed => {
                self.prev_band(num_filters);
            }
            EqDialogState::EqBandSelect { selected_band, selected_dialog_option } => {
                self.eq_dialog_state = EqDialogState::EqBandSelect {
                    selected_band,
                    selected_dialog_option: selected_dialog_option.prev(),
                };
            }
        }
    }

    /// Open the band-select dialog on the selected band.
    pub fn open_filter_band_dialog(&mut self)
        ensures *final(self) == (EqualizerRoute {
            eq_dialog_state: EqDialogState::EqBandSelect {
                selected_band: old(self).eq_selected_band,
                selected_dialog_option: EqDialogOption::EditBand,
            },
            ..*old(self)
        }),
    {
        self.eq_dialog_state = EqDialogState::EqBandSelect {
            selected_band: self.eq_selected_band,
            selected_dialog_option: EqDialogOption::EditBand,
        };
    }

    /// Close the band-select dialog.
    pub fn close_filter_band_dialog(&mut self)
        ensures *final(self) == (EqualizerRoute {
            eq_dialog_state: EqDialogState::Closed, ..*old(self) }),
    {
        self.eq_dialog_state = EqDialogState::Closed;
    }

    /// Open the band configuration modal.
    pub fn open_filter_band_config(&mut self, config: BandFilterConfig)
        ensures *final(self) == (EqualizerRoute {
            eq_filter_band_config_opened: Some(config), ..*old(self) }),
    {
        self.eq_filter_band_config_opened = Some(config);
    }

    /// Close the band configuration modal.
    pub fn close_filter_band_config(&mut self)
        ensures *final(self) == (EqualizerRoute {
            eq_filter_band_config_opened: None::<BandFilterConfig>, ..*old(self) }),
    {
        self.eq_filter_band_config_opened = None;
    }

    /// Step to the next parameter in the configuration modal.
    pub fn next_config_param(&mut self)
        ensures
            old(self).eq_filter_band_config_opened is None ==> *final(self) == *old(self),
            (old(self).eq_filter_band_config_opened matches Some(c) ==> (
                (c.option@.len() == 0 ==> *final(self) == *old(self))
                && (c.option@.len() > 0 ==> (
                    final(self).eq_filter_band_config_opened matches Some(c2)
                    && c2.selected_band == c.selected_band
                    && c2.option@ == c.option@
                    && c2.selected_param as int
                        == (if c.selected_param + 1 >= c.option@.len() { 0int }
                            else { c.selected_param + 1 }))))),
            final(self).eq_focus == old(self).eq_focus,
            final(self).eq_selected_band == old(self).eq_selected_band,
            final(self).eq_dialog_state == old(self).eq_dialog_state,
            final(self).locked_in == old(self).locked_in,
    {
        let cur = match &self.eq_filter_band_config_opened {
            Some(c) => {
                if c.option.len() > 0 {
                    let p = if c.selected_param >= c.option.len() - 1 { 0 }
                        else { c.selected_param + 1 };
                    Some((c.selected_band, p))
                } else {
                    None
                }
            }
            None => None,
        };
        match cur {
            Some((band, param)) => {
                let opts = match &self.eq_filter_band_config_opened {
                    Some(c) => copy_strings(&c.option),
                    None => Vec::new(),
                };
                self.eq_filter_band_config_opened = Some(BandFilterConfig {
                    selected_band: band,
                    option: opts,
                    selected_param: param,
                });
            }
            None => {}
        }
    }

    /// Step to the previous parameter in the configuration modal.
    pub fn prev_config_param(&mut self)
        ensures
            old(self).eq_filter_band_config_opened is None ==> *final(self) == *old(self),
            (old(self).eq_filter_band_config_opened matches Some(c) ==> (
                (c.option@.len() == 0 ==> *final(self) == *old(self))
                && (c.option@.len() > 0 ==> (
                    final(self).eq_filter_band_config_opened matches Some(c2)
                    && c2.selected_band == c.selected_band
                    && c2.option@ == c.option@
                    && c2.selected_param as int == (if c.selected_param == 0 {
                        c.option@.len() - 1
                    } else { c.selected_param - 1 }))))),
            final(self).eq_focus == old(self).eq_focus,
            final(self).eq_selected_band == old(self).eq_selected_band,
            final(self).eq_dialog_state == old(self).eq_dialog_state,
            final(self).locked_in == old(self).locked_in,
    {
        let cur = match &self.eq_filter_band_config_opened {
            Some(c) => {
                if c.option.len() > 0 {
                    let p = if c.selected_param == 0 {
                        c.option.len() - 1
                    } else {
                        c.selected_param - 1
                    };
                    Some((c.selected_band, p))
                } else {
                    None
                }
            }
            None => None,
        };
        match cur {
            Some((band, param)) => {
                let opts = match &self.eq_filter_band_config_opened {
                    Some(c) => copy_strings(&c.option),
                    None => Vec::new(),
                };
                self.eq_filter_band_config_opened = Some(BandFilterConfig {
                    selected_band: band,
                    option: opts,
                    selected_param: param,
                });
            }
            None => {}
        }
    }

    /// Whether a dialog or modal floats over the route.
    pub fn has_floating_panel(&self) -> (r: bool)
        ensures r == (!(self.eq_dialog_state is Closed)
            || !(self.eq_filter_band_config_opened is None)),
    {
        let dialog_open = match self.eq_dialog_state {
            EqDialogState::Closed => false,
            EqDialogState::EqBandSelect { .. } => true,
        };
        let config_open = match &self.eq_filter_band_config_opened {
            Some(_) => true,
            None => false,
        };
        dialog_open || config_open
    }
}

/// An equal copy of a list of labels.
fn copy_strings(v: &Vec<String>) -> (r: Vec<String>)
    ensures r@ == v@,
{
    let mut out: Vec<String> = Vec::new();
    let n = v.len();
    let mut i: usize = 0;
    while i < n
        invariant
            0 <= i <= n,
            n == v@.len(),
            out@ == v@.subrange(0, i as int),
        decreases n - i,
    {
        out.push(v[i].clone());
        proof {
            assert(out@ =~= v@.subrange(0, i + 1));
        }
        i = i + 1;
    }
    proof {
        assert(out@ =~= v@);
    }
    out
}

} // verus!
