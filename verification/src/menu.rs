//! Menu rows handed to the surrounding interface: the fixed top-level
//! entries, the per-preset editable rows with their display texts, and the
//! helper that drives the preset-creation prompt sequence.

use vstd::prelude::*;
use vstd::string::StringExecFns;
use std::collections::VecDeque;
use crate::config::AppConfig;
use crate::model::{
    lemma_pair_to_flat, lemma_sum_take_step, pane_of, sum_windows, tab_of, Preset, PresetValue,
};
use crate::shell::{shell_name, PresetInfoValue};
use crate::text::{
    all_dec_digits, chars_to_string, dec_seq, dec_val, parse_u8, push_dec, push_str_chars,
    str_to_chars,
};

verus! {

/// The interface states a menu row can lead to.
#[derive(Debug, Copy, Clone, PartialEq, Eq, Structural)]
pub enum State {
    Start,
    Settings,
    ChoosePreset,
    CreatePreset,
    EditPreset,
    ChangeFieldName,
    RunConfig,
}

/// How key presses are currently interpreted by the interface.
#[derive(Debug)]
pub enum InputMode {
    Normal,
    Input,
    Edit,
}

/// Whether a persisted write creates a new preset or rewrites the stored
/// collection as it stands.
pub enum WriteType {
    Create,
    Edit,
}

/// One selectable row: its display text, the state selecting it leads to,
/// and, for editable rows, which preset field it stands for.
#[derive(Debug, Clone, PartialEq)]
pub struct Item {
    pub name: String,
    pub leading_state: State,
    pub preset_value: Option<PresetValue>,
}

impl Item {
    pub fn new(name: String, leading_state: State, preset_value: Option<PresetValue>) -> (r:
        Item)
        ensures
            r.name == name,
            r.leading_state == leading_state,
            r.preset_value == preset_value,
    {
        Item { name, leading_state, preset_value }
    }
}

impl State {
    /// The fixed menu rows shown in this state, where the state has any:
    /// the three top-level entries, or the settings rows (which need the
    /// stored configuration for their current values).
    pub fn create_items(&self, app_config: Option<&AppConfig>) -> (r: Option<Vec<Item>>)
        requires
            *self == State::Settings ==> app_config is Some,
        ensures
            *self == State::Start ==> (r matches Some(v) && {
                &&& v@.len() == 3
                &&& v@[0].name@ == "Choose Preset"@ && v@[0].leading_state
                    == State::ChoosePreset && v@[0].preset_value is None
                &&& v@[1].name@ == "Create Preset"@ && v@[1].leading_state
                    == State::CreatePreset && v@[1].preset_value is None
                &&& v@[2].name@ == "Settings"@ && v@[2].leading_state == State::Settings
                    && v@[2].preset_value is None
            }),
            *self == State::Settings ==> (r matches Some(v) && {
                &&& v@.len() == 1
                &&& v@[0].name@ == "Debug mode: "@ + (if app_config->0.settings.debug_mode {
                    "true"@
                } else {
                    "false"@
                })
                &&& v@[0].leading_state == State::ChangeFieldName
                &&& v@[0].preset_value is None
            }),
            !(*self == State::Start || *self == State::Settings) ==> r is None,
    {
        match self {
            State::Start => {
                let mut v: Vec<Item> = Vec::new();
                v.push(Item::new("Choose Preset".to_owned(), State::ChoosePreset, None));
                v.push(Item::new("Create Preset".to_owned(), State::CreatePreset, None));
                v.push(Item::new("Settings".to_owned(), State::Settings, None));
                Some(v)
            },
            State::Settings => {
                let cfg = match app_config {
                    Some(cfg) => cfg,
                    None => {
                        proof {
                            assert(false);
                        }
                        return None;
                    },
                };
                let mut text = "Debug mode: ".to_owned();
                text.append(if cfg.settings.debug_mode { "true" } else { "false" });
                let mut v: Vec<Item> = Vec::new();
                v.push(Item::new(text, State::ChangeFieldName, None));
                Some(v)
            },
            _ => None,
        }
    }

    /// The opening prompts of the preset-creation wizard, where this state
    /// has any.
    pub fn create_prompts(&self) -> (r: Option<Vec<String>>)
        ensures
            *self == State::CreatePreset ==> (r matches Some(v) && {
                &&& v@.len() == 2
                &&& v@[0]@ == "Enter preset name:"@
                &&& v@[1]@ == "Enter tabs amount (1-10):"@
            }),
            *self != State::CreatePreset ==> r is None,
    {
        match self {
            State::CreatePreset => {
                let mut v: Vec<String> = Vec::new();
                v.push("Enter preset name:".to_owned());
                v.push("Enter tabs amount (1-10):".to_owned());
                Some(v)
            },
            _ => None,
        }
    }
}

/// Display text of the editable row for the preset's name.
pub open spec fn name_item_text(p: Preset) -> Seq<char> {
    "Name: "@ + p.name@
}

/// Display text of the editable row for the tab count.
pub open spec fn tabs_item_text(p: Preset) -> Seq<char> {
    "Tabs: "@ + dec_seq(p.tabs as nat)
}

/// Display text of the editable row for tab `t`'s pane count.
pub open spec fn win_item_text(p: Preset, t: int) -> Seq<char> {
    "Tab (#"@ + dec_seq((t + 1) as nat) + "), windows: "@ + dec_seq(p.windows@[t] as nat)
}

/// Display text of the editable row for the stored command at flat index
/// `i`, attributing it to its tab and pane.
pub open spec fn arg_item_text(p: Preset, i: int) -> Seq<char> {
    "Tab (#"@ + dec_seq((tab_of(p.windows@, i) + 1) as nat) + "), window (#"@ + dec_seq(
        (pane_of(p.windows@, i) + 1) as nat,
    ) + "), Arg: "@ + p.args@[i]@
}

pub open spec fn name_item_ok(it: Item, p: Preset) -> bool {
    &&& it.name@ == name_item_text(p)
    &&& it.leading_state == State::ChangeFieldName
    &&& it.preset_value matches Some(pv) && pv matches PresetValue::Name(s) && s == p.name
}

pub open spec fn tabs_item_ok(it: Item, p: Preset) -> bool {
    &&& it.name@ == tabs_item_text(p)
    &&& it.leading_state == State::ChangeFieldName
    &&& it.preset_value matches Some(pv) && pv matches PresetValue::Tabs(t) && t == p.tabs
}

pub open spec fn win_item_ok(it: Item, p: Preset, t: int) -> bool {
    &&& it.name@ == win_item_text(p, t)
    &&& it.leading_state == State::ChangeFieldName
    &&& it.preset_value matches Some(pv) && pv matches PresetValue::Windows(j, w) && j == t && w
        == p.windows@[t]
}

pub open spec fn arg_item_ok(it: Item, p: Preset, i: int) -> bool {
    &&& it.name@ == arg_item_text(p, i)
    &&& it.leading_state == State::ChangeFieldName
    &&& it.preset_value matches Some(pv) && pv matches PresetValue::Args(j, s) && j == i && s
        == p.args@[i]
}

pub open spec fn profile_item_ok(it: Item, p: Preset) -> bool {
    &&& it.name@ == "Windows terminal profile name: "@ + p.preset_info.wt_profile@
    &&& it.leading_state == State::ChangeFieldName
    &&& it.preset_value matches Some(pv) && pv matches PresetValue::PresetInfo(piv) && piv
        matches PresetInfoValue::WtProfile(s) && s == p.preset_info.wt_profile
}

pub open spec fn init_shell_item_ok(it: Item, p: Preset) -> bool {
    &&& it.name@ == "Init shell (powershell/pwsh/cmd): "@ + shell_name(p.preset_info.init_shell)
    &&& it.leading_state == State::ChangeFieldName
    &&& it.preset_value matches Some(pv) && pv matches PresetValue::PresetInfo(piv) && piv
        matches PresetInfoValue::InitShell(s) && s == p.preset_info.init_shell
}

pub open spec fn target_shell_item_ok(it: Item, p: Preset) -> bool {
    &&& it.name@ == "Target shell (powershell/pwsh/cmd/bash/zsh): "@ + shell_name(
        p.preset_info.target_shell,
    )
    &&& it.leading_state == State::ChangeFieldName
    &&& it.preset_value matches Some(pv) && pv matches PresetValue::PresetInfo(piv) && piv
        matches PresetInfoValue::TargetShell(s) && s == p.preset_info.target_shell
}

/// The full editable-row list for a preset: name, tab count, one row per
/// tab's pane count, one row per stored command, then the three shell
/// configuration rows.
pub open spec fn editable_items_ok(items: Seq<Item>, p: Preset) -> bool {
    let tabs = p.windows@.len() as int;
    let n_args = p.args@.len() as int;
    &&& items.len() == 2 + tabs + n_args + 3
    &&& name_item_ok(items[0], p)
    &&& tabs_item_ok(items[1], p)
    &&& (forall|t: int| 0 <= t < tabs ==> win_item_ok(#[trigger] items[2 + t], p, t))
    &&& (forall|i: int| 0 <= i < n_args ==> arg_item_ok(#[trigger] items[2 + tabs + i], p, i))
    &&& profile_item_ok(items[2 + tabs + n_args], p)
    &&& init_shell_item_ok(items[2 + tabs + n_args + 1], p)
    &&& target_shell_item_ok(items[2 + tabs + n_args + 2], p)
}

impl Preset {
    /// The editable rows for this preset, in display order, each stored
    /// command attributed to its tab and pane by walking the pane counts in
    /// lockstep with the flat command sequence.
    pub fn into_items(&self) -> (r: Vec<Item>)
        requires
            self.consistent(),
        ensures
            editable_items_ok(r@, *self),
    {
        let mut items: Vec<Item> = Vec::new();

        let mut cs = str_to_chars("Name: ");
        push_str_chars(&mut cs, self.name.as_str());
        items.push(
            Item::new(
                chars_to_string(&cs),
                State::ChangeFieldName,
                Some(PresetValue::Name(self.name.clone())),
            ),
        );

        let mut cs = str_to_chars("Tabs: ");
        push_dec(&mut cs, self.tabs as u64);
        items.push(
            Item::new(
                chars_to_string(&cs),
                State::ChangeFieldName,
                Some(PresetValue::Tabs(self.tabs)),
            ),
        );

        let n_tabs = self.windows.len();
        let mut t: usize = 0;
        while t < n_tabs
            invariant
                n_tabs == self.windows@.len(),
                t <= n_tabs,
                items@.len() == 2 + t,
                name_item_ok(items@[0], *self),
                tabs_item_ok(items@[1], *self),
                forall|u: int| 0 <= u < t ==> win_item_ok(#[trigger] items@[2 + u], *self, u),
            decreases n_tabs - t,
        {
            let mut cs = str_to_chars("Tab (#");
            push_dec(&mut cs, (t as u64) + 1);
            push_str_chars(&mut cs, "), windows: ");
            push_dec(&mut cs, self.windows[t] as u64);
            items.push(
                Item::new(
                    chars_to_string(&cs),
                    State::ChangeFieldName,
                    Some(PresetValue::Windows(t, self.windows[t])),
                ),
            );
            t += 1;
        }

        let mut flat: usize = 0;
        let mut t: usize = 0;
        while t < n_tabs
            invariant
                self.consistent(),
                n_tabs == self.windows@.len(),
                t <= n_tabs,
                flat == sum_windows(self.windows@.take(t as int)),
                0 <= flat <= self.args@.len(),
                items@.len() == 2 + n_tabs + flat,
                name_item_ok(items@[0], *self),
                tabs_item_ok(items@[1], *self),
                forall|u: int|
                    0 <= u < n_tabs ==> win_item_ok(#[trigger] items@[2 + u], *self, u),
                forall|i: int|
                    0 <= i < flat ==> arg_item_ok(
                        #[trigger] items@[2 + n_tabs as int + i],
                        *self,
                        i,
                    ),
            decreases n_tabs - t,
        {
            let wt = self.windows[t];
            let mut k: u8 = 0;
            while k < wt
                invariant
                    self.consistent(),
                    n_tabs == self.windows@.len(),
                    t < n_tabs,
                    wt == self.windows@[t as int],
                    k <= wt,
                    flat == sum_windows(self.windows@.take(t as int)) + k,
                    0 <= flat <= self.args@.len(),
                    items@.len() == 2 + n_tabs + flat,
                    name_item_ok(items@[0], *self),
                    tabs_item_ok(items@[1], *self),
                    forall|u: int|
                        0 <= u < n_tabs ==> win_item_ok(#[trigger] items@[2 + u], *self, u),
                    forall|i: int|
                        0 <= i < flat ==> arg_item_ok(
                            #[trigger] items@[2 + n_tabs as int + i],
                            *self,
                            i,
                        ),
                decreases wt - k,
            {
                proof {
                    lemma_pair_to_flat(self.windows@, t as int, k as int);
                    assert(self.args.len() == self.args@.len());
                }
                let mut cs = str_to_chars("Tab (#");
                push_dec(&mut cs, (t as u64) + 1);
                push_str_chars(&mut cs, "), window (#");
                push_dec(&mut cs, (k as u64) + 1);
                push_str_chars(&mut cs, "), Arg: ");
                push_str_chars(&mut cs, self.args[flat].as_str());
                items.push(
                    Item::new(
                        chars_to_string(&cs),
                        State::ChangeFieldName,
                        Some(PresetValue::Args(flat, self.args[flat].clone())),
                    ),
                );
                flat += 1;
                k += 1;
            }
            proof {
                lemma_sum_take_step(self.windows@, t as int);
            }
            t += 1;
        }
        proof {
            assert(self.windows@.take(n_tabs as int) =~= self.windows@);
        }

        let mut cs = str_to_chars("Windows terminal profile name: ");
        push_str_chars(&mut cs, self.preset_info.wt_profile.as_str());
        items.push(
            Item::new(
                chars_to_string(&cs),
                State::ChangeFieldName,
                Some(
                    PresetValue::PresetInfo(
                        PresetInfoValue::WtProfile(self.preset_info.wt_profile.clone()),
                    ),
                ),
            ),
        );

        let mut cs = str_to_chars("Init shell (powershell/pwsh/cmd): ");
        let init_name = self.preset_info.init_shell.as_string();
        push_str_chars(&mut cs, init_name.as_str());
        items.push(
            Item::new(
                chars_to_string(&cs),
                State::ChangeFieldName,
                Some(
                    PresetValue::PresetInfo(
                        PresetInfoValue::InitShell(self.preset_info.init_shell),
                    ),
                ),
            ),
        );

        let mut cs = str_to_chars("Target shell (powershell/pwsh/cmd/bash/zsh): ");
        let target_name = self.preset_info.target_shell.as_string();
        push_str_chars(&mut cs, target_name.as_str());
        items.push(
            Item::new(
                chars_to_string(&cs),
                State::ChangeFieldName,
                Some(
                    PresetValue::PresetInfo(
                        PresetInfoValue::TargetShell(self.preset_info.target_shell),
                    ),
                ),
            ),
        );

        items
    }
}

/// Tracks the creation wizard's progress: the pane counts entered so far
/// and how many tabs the preset being built will hold.
pub struct PresetCreationHelper {
    pub windows: VecDeque<u8>,
    pub max_windows: usize,
}

impl PresetCreationHelper {
    pub fn new() -> (r: PresetCreationHelper)
        ensures
            r.windows@.len() == 0,
            r.max_windows == 0,
    {
        PresetCreationHelper { windows: VecDeque::new(), max_windows: 0 }
    }

    pub fn reset(&mut self)
        ensures
            final(self).windows@.len() == 0,
            final(self).max_windows == 0,
    {
        self.windows.clear();
        self.max_windows = 0;
    }

    /// Digests one committed wizard answer, given how many answers came
    /// before it.  The second answer fixes the tab count (one to ten) and
    /// yields one pane-count prompt per tab; each pane-count answer (one to
    /// four) is recorded and yields one prompt per pane of that tab.  The
    /// returned prompts are to be appended to the prompt list; a rejected
    /// answer changes nothing.
    pub fn create_preset_value(&mut self, msg_length: usize, input: &str) -> (r: Result<
        Vec<String>,
        (),
    >)
        ensures
            msg_length == 1 ==> {
                if input@.len() > 0 && all_dec_digits(input@) && dec_val(input@) <= 255 && 1
                    <= dec_val(input@) <= 10 {
                    &&& r matches Ok(v)
                    &&& v@.len() == dec_val(input@)
                    &&& forall|n: int|
                        0 <= n < v@.len() ==> (#[trigger] v@[n])@
                            == "Enter windows amount (1-4) for tab number "@ + dec_seq(
                            (n + 1) as nat,
                        ) + ": "@
                    &&& final(self).windows == old(self).windows
                    &&& final(self).max_windows == dec_val(input@)
                } else {
                    r is Err && *final(self) == *old(self)
                }
            },
            msg_length > 1 && old(self).windows@.len() < old(self).max_windows ==> {
                if input@.len() > 0 && all_dec_digits(input@) && dec_val(input@) <= 255 && 1
                    <= dec_val(input@) <= 4 {
                    &&& r matches Ok(v)
                    &&& v@.len() == dec_val(input@)
                    &&& forall|n: int|
                        0 <= n < v@.len() ==> (#[trigger] v@[n])@ == "Enter arg "@ + dec_seq(
                            (n + 1) as nat,
                        ) + " for window "@ + dec_seq((old(self).windows@.len() + 1) as nat)
                    &&& final(self).windows@ == old(self).windows@.push(
                        dec_val(input@) as u8,
                    )
                    &&& final(self).max_windows == old(self).max_windows
                } else {
                    r is Err && *final(self) == *old(self)
                }
            },
            !(msg_length == 1 || (msg_length > 1 && old(self).windows@.len() < old(
                self,
            ).max_windows)) ==> (r matches Ok(v) && v@.len() == 0 && *final(self) == *old(
                self,
            )),
    {
        let mut prompts: Vec<String> = Vec::new();
        if msg_length == 1 {
            let tabs_amount = match parse_u8(input) {
                Some(v) => v,
                None => {
                    return Err(());
                },
            };
            if tabs_amount < 1 || tabs_amount > 10 {
                return Err(());
            }
            let mut n: u8 = 0;
            while n < tabs_amount
                invariant
                    n <= tabs_amount,
                    prompts@.len() == n,
                    forall|m: int|
                        0 <= m < n ==> (#[trigger] prompts@[m])@
                            == "Enter windows amount (1-4) for tab number "@ + dec_seq(
                            (m + 1) as nat,
                        ) + ": "@,
                    *self == *old(self),
                decreases tabs_amount - n,
            {
                let mut cs = str_to_chars("Enter windows amount (1-4) for tab number ");
                push_dec(&mut cs, (n as u64) + 1);
                push_str_chars(&mut cs, ": ");
                prompts.push(chars_to_string(&cs));
                n += 1;
            }
            self.max_windows = tabs_amount as usize;
            Ok(prompts)
        } else if msg_length > 1 && self.windows.len() < self.max_windows {
            let input_val = match parse_u8(input) {
                Some(v) => v,
                None => {
                    return Err(());
                },
            };
            if input_val < 1 || input_val > 4 {
                return Err(());
            }
            self.windows.push_back(input_val);
            let window_number = self.windows.len();
            let mut n: u8 = 0;
            while n < input_val
                invariant
                    n <= input_val,
                    window_number == old(self).windows@.len() + 1,
                    prompts@.len() == n,
                    forall|m: int|
                        0 <= m < n ==> (#[trigger] prompts@[m])@ == "Enter arg "@ + dec_seq(
                            (m + 1) as nat,
                        ) + " for window "@ + dec_seq(window_number as nat),
                    final(self).windows@ == old(self).windows@.push(input_val),
                    final(self).max_windows == old(self).max_windows,
                decreases input_val - n,
            {
                let mut cs = str_to_chars("Enter arg ");
                push_dec(&mut cs, (n as u64) + 1);
                push_str_chars(&mut cs, " for window ");
                push_dec(&mut cs, window_number as u64);
                prompts.push(chars_to_string(&cs));
                n += 1;
            }
            Ok(prompts)
        } else {
            Ok(prompts)
        }
    }
}

} // verus!
