//! The preset model: a named workspace of tabs, per-tab pane counts and one
//! command string per pane, with the structural invariants every edit keeps.
//!
//! A preset stores its pane commands flattened in tab order: tab `t` owns the
//! contiguous run of `windows[t]` entries of `args` that starts at
//! `sum(windows[0..t])`.  The field-edit engine below restores that shape in
//! one step after every resize.
//!
//! Mutation goes through `&mut` receivers, so Rust's exclusive borrows
//! enforce the one-mutator-at-a-time discipline the design assumes; nothing
//! here synchronizes across threads.

use vstd::prelude::*;
use crate::shell::{PresetInfo, PresetInfoValue, ShellType};
use crate::text::{all_dec_digits, dec_val, parse_u8, str_eq};

verus! {

/// The total pane count of the tab sequence `w`.
pub open spec fn sum_windows(w: Seq<u8>) -> int
    decreases w.len(),
{
    if w.len() == 0 {
        0
    } else {
        sum_windows(w.drop_last()) + w.last()
    }
}

pub proof fn lemma_sum_take_step(w: Seq<u8>, t: int)
    requires
        0 <= t < w.len(),
    ensures
        sum_windows(w.take(t + 1)) == sum_windows(w.take(t)) + w[t],
{
    assert(w.take(t + 1).drop_last() =~= w.take(t));
}

pub proof fn lemma_sum_nonneg(w: Seq<u8>)
    ensures
        sum_windows(w) >= 0,
    decreases w.len(),
{
    if w.len() > 0 {
        lemma_sum_nonneg(w.drop_last());
    }
}

pub proof fn lemma_sum_take_bound(w: Seq<u8>, t: int)
    requires
        0 <= t <= w.len(),
    ensures
        sum_windows(w.take(t)) <= sum_windows(w),
    decreases w.len() - t,
{
    if t == w.len() {
        assert(w.take(t) =~= w);
    } else {
        lemma_sum_take_step(w, t);
        lemma_sum_take_bound(w, t + 1);
    }
}

/// `news` is `olds` with the block `[at, at + removed)` replaced by `added`
/// fresh empty strings: entries before `at` are kept, entries after the block
/// are shifted, and the inserted entries are empty.
pub open spec fn args_spliced(
    olds: Seq<String>,
    news: Seq<String>,
    at: int,
    removed: int,
    added: int,
) -> bool {
    &&& 0 <= at
    &&& 0 <= removed
    &&& 0 <= added
    &&& at + removed <= olds.len()
    &&& news.len() == olds.len() - removed + added
    &&& (forall|i: int| 0 <= i < at ==> news[i] == olds[i])
    &&& (forall|i: int| 0 <= i < added ==> (#[trigger] news[at + i])@ == Seq::<char>::empty())
    &&& (forall|i: int|
        at + removed <= i < olds.len() ==> news[i - removed + added] == #[trigger] olds[i])
}

/// A named workspace definition.
#[derive(Debug, Clone, PartialEq)]
pub struct Preset {
    pub name: String,
    pub tabs: u8,
    pub windows: Vec<u8>,
    pub args: Vec<String>,
    pub preset_info: PresetInfo,
}

impl Preset {
    /// The structural invariant: one pane count per tab, and exactly one
    /// stored command per pane.
    pub open spec fn consistent(self) -> bool {
        &&& self.windows@.len() == self.tabs as int
        &&& self.args@.len() == sum_windows(self.windows@)
    }

    /// Full well-formedness: structure plus the documented ranges, one to
    /// ten tabs and one to four panes per tab.
    pub open spec fn wf(self) -> bool {
        &&& self.consistent()
        &&& 1 <= self.tabs <= 10
        &&& forall|i: int|
            0 <= i < self.windows@.len() ==> 1 <= #[trigger] self.windows@[i] <= 4
    }

    pub fn new(name: String, tabs: u8, windows: Vec<u8>, args: Vec<String>, preset_info:
        PresetInfo) -> (r: Preset)
        ensures
            r.name == name,
            r.tabs == tabs,
            r.windows == windows,
            r.args == args,
            r.preset_info == preset_info,
    {
        Preset { name, tabs, windows, args, preset_info }
    }

    /// A copy of this preset's shell configuration.
    pub fn get_preset_info(&self) -> (r: PresetInfo)
        ensures
            r == self.preset_info,
    {
        PresetInfo {
            wt_profile: self.preset_info.wt_profile.clone(),
            init_shell: self.preset_info.init_shell,
            target_shell: self.preset_info.target_shell,
        }
    }
}

/// Identifies which scalar of a preset a committed edit targets, carrying
/// the already-typed new value.
#[derive(Debug, Clone, PartialEq)]
pub enum PresetValue {
    Name(String),
    Tabs(u8),
    Windows(usize, u8),
    Args(usize, String),
    PresetInfo(PresetInfoValue),
}

pub proof fn lemma_sum_front(w: Seq<u8>)
    requires
        w.len() > 0,
    ensures
        sum_windows(w) == w[0] + sum_windows(w.skip(1)),
    decreases w.len(),
{
    if w.len() == 1 {
        assert(w.skip(1) =~= Seq::<u8>::empty());
        assert(w.drop_last() =~= Seq::<u8>::empty());
    } else {
        lemma_sum_front(w.drop_last());
        assert(w.drop_last().skip(1) =~= w.skip(1).drop_last());
    }
}

/// The tab that owns flat command index `i`: commands are consumed from the
/// front of `w`, each tab claiming `w[t]` consecutive indices.
pub open spec fn tab_of(w: Seq<u8>, i: int) -> int
    decreases w.len(),
{
    if w.len() == 0 {
        0
    } else if i < w[0] {
        0
    } else {
        1 + tab_of(w.skip(1), i - w[0])
    }
}

/// The pane within its tab that owns flat command index `i`.
pub open spec fn pane_of(w: Seq<u8>, i: int) -> int
    decreases w.len(),
{
    if w.len() == 0 {
        i
    } else if i < w[0] {
        i
    } else {
        pane_of(w.skip(1), i - w[0])
    }
}

/// Every flat command index falls inside exactly the tab and pane that
/// `tab_of` and `pane_of` name: the derived pair is in range and maps back
/// to the same flat index through the prefix sum.
pub proof fn lemma_flat_to_pair(w: Seq<u8>, i: int)
    requires
        0 <= i < sum_windows(w),
    ensures
        0 <= tab_of(w, i) < w.len(),
        0 <= pane_of(w, i) < w[tab_of(w, i)],
        sum_windows(w.take(tab_of(w, i))) + pane_of(w, i) == i,
    decreases w.len(),
{
    lemma_sum_nonneg(w);
    if w.len() == 0 {
    } else if i < w[0] {
        assert(w.take(0) =~= Seq::<u8>::empty());
    } else {
        lemma_sum_front(w);
        lemma_flat_to_pair(w.skip(1), i - w[0]);
        let t = tab_of(w.skip(1), i - w[0]);
        assert(w.take(t + 1).skip(1) =~= w.skip(1).take(t));
        lemma_sum_front(w.take(t + 1));
    }
}

/// The inverse direction: pane `k` of tab `t` stands at flat index
/// `sum(w[0..t]) + k`, and re-deriving the attribution from that flat index
/// returns exactly `(t, k)`.
pub proof fn lemma_pair_to_flat(w: Seq<u8>, t: int, k: int)
    requires
        0 <= t < w.len(),
        0 <= k < w[t],
    ensures
        0 <= sum_windows(w.take(t)) + k < sum_windows(w),
        tab_of(w, sum_windows(w.take(t)) + k) == t,
        pane_of(w, sum_windows(w.take(t)) + k) == k,
    decreases w.len(),
{
    lemma_sum_nonneg(w.take(t));
    if t == 0 {
        assert(w.take(0) =~= Seq::<u8>::empty());
        lemma_sum_front(w);
        lemma_sum_nonneg(w.skip(1));
    } else {
        lemma_pair_to_flat(w.skip(1), t - 1, k);
        assert(w.take(t).skip(1) =~= w.skip(1).take(t - 1));
        lemma_sum_front(w.take(t));
        lemma_sum_front(w);
    }
}

pub proof fn lemma_sum_update(w: Seq<u8>, i: int, v: u8)
    requires
        0 <= i < w.len(),
    ensures
        sum_windows(w.update(i, v)) == sum_windows(w) - w[i] + v,
    decreases w.len(),
{
    if i == w.len() - 1 {
        assert(w.update(i, v).drop_last() =~= w.drop_last());
    } else {
        assert(w.update(i, v).drop_last() =~= w.drop_last().update(i, v));
        lemma_sum_update(w.drop_last(), i, v);
    }
}

impl Preset {
    /// Applies one committed field edit and restores the structural
    /// invariant in the same step.
    ///
    /// A tab count outside one to ten, a pane count outside one to four,
    /// and an out-of-range index are refused and leave the preset
    /// untouched.
    /// Shrinking the tab count drops whole trailing tabs together with their
    /// trailing run of stored commands; growing appends one-pane tabs with
    /// empty commands.  A pane-count edit splices the flat command sequence
    /// at the edited tab's boundary.
    pub fn change_field_value(&mut self, preset_value: PresetValue) -> (r: Result<(), String>)
        requires
            old(self).consistent(),
        ensures
            final(self).consistent(),
            match preset_value {
                PresetValue::Name(n) => {
                    &&& r is Ok
                    &&& final(self).name == n
                    &&& final(self).tabs == old(self).tabs
                    &&& final(self).windows == old(self).windows
                    &&& final(self).args == old(self).args
                    &&& final(self).preset_info == old(self).preset_info
                },
                PresetValue::Tabs(t) => {
                    if t == 0 {
                        &&& r matches Err(m) && m@ == "Tabs cannot have a value of 0."@
                        &&& *final(self) == *old(self)
                    } else if t > 10 {
                        &&& r matches Err(m) && m@ == "Tabs cannot have a value above 10."@
                        &&& *final(self) == *old(self)
                    } else {
                        &&& r is Ok
                        &&& final(self).name == old(self).name
                        &&& final(self).preset_info == old(self).preset_info
                        &&& final(self).tabs == t
                        &&& if t < old(self).tabs {
                            &&& final(self).windows@ == old(self).windows@.take(t as int)
                            &&& args_spliced(
                                old(self).args@,
                                final(self).args@,
                                sum_windows(old(self).windows@.take(t as int)),
                                old(self).args@.len() - sum_windows(
                                    old(self).windows@.take(t as int),
                                ),
                                0,
                            )
                        } else {
                            &&& final(self).windows@ == old(self).windows@ + Seq::new(
                                (t - old(self).tabs) as nat,
                                |i: int| 1u8,
                            )
                            &&& args_spliced(
                                old(self).args@,
                                final(self).args@,
                                old(self).args@.len() as int,
                                0,
                                t - old(self).tabs,
                            )
                        }
                        &&& (old(self).wf() ==> final(self).wf())
                    }
                },
                PresetValue::Windows(idx, wv) => {
                    if wv == 0 {
                        &&& r matches Err(m) && m@ == "Windows cannot have a value of 0."@
                        &&& *final(self) == *old(self)
                    } else if wv > 4 {
                        &&& r matches Err(m) && m@ == "Windows cannot have a value above 4."@
                        &&& *final(self) == *old(self)
                    } else if idx >= old(self).windows@.len() {
                        &&& r matches Err(m) && m@ == "Cannot find windows with current index."@
                        &&& *final(self) == *old(self)
                    } else {
                        let b = sum_windows(old(self).windows@.take(idx as int));
                        let ow = old(self).windows@[idx as int];
                        &&& r is Ok
                        &&& final(self).name == old(self).name
                        &&& final(self).preset_info == old(self).preset_info
                        &&& final(self).tabs == old(self).tabs
                        &&& final(self).windows@ == old(self).windows@.update(idx as int, wv)
                        &&& if wv < ow {
                            args_spliced(old(self).args@, final(self).args@, b + wv, ow - wv, 0)
                        } else {
                            args_spliced(old(self).args@, final(self).args@, b + ow, 0, wv - ow)
                        }
                        &&& (old(self).wf() ==> final(self).wf())
                    }
                },
                PresetValue::Args(idx, v) => {
                    if idx < old(self).args@.len() {
                        &&& r is Ok
                        &&& final(self).args@ == old(self).args@.update(idx as int, v)
                        &&& final(self).name == old(self).name
                        &&& final(self).tabs == old(self).tabs
                        &&& final(self).windows == old(self).windows
                        &&& final(self).preset_info == old(self).preset_info
                    } else {
                        &&& r matches Err(m) && m@ == "Cannot find windows with current index."@
                        &&& *final(self) == *old(self)
                    }
                },
                PresetValue::PresetInfo(piv) => {
                    &&& r is Ok
                    &&& final(self).name == old(self).name
                    &&& final(self).tabs == old(self).tabs
                    &&& final(self).windows == old(self).windows
                    &&& final(self).args == old(self).args
                    &&& match piv {
                        PresetInfoValue::WtProfile(p) => final(self).preset_info == (PresetInfo {
                            wt_profile: p,
                            ..old(self).preset_info
                        }),
                        PresetInfoValue::InitShell(s) => final(self).preset_info == (PresetInfo {
                            init_shell: s,
                            ..old(self).preset_info
                        }),
                        PresetInfoValue::TargetShell(s) => final(self).preset_info == (PresetInfo {
                            target_shell: s,
                            ..old(self).preset_info
                        }),
                    }
                },
            },
    {
        let ghost orig: Preset = *old(self);
        match preset_value {
            PresetValue::Name(name) => {
                self.name = name;
                Ok(())
            },
            PresetValue::Tabs(new_tabs) => {
                if new_tabs == 0 {
                    return Err("Tabs cannot have a value of 0.".to_owned());
                }
                if new_tabs > 10 {
                    return Err("Tabs cannot have a value above 10.".to_owned());
                }
                let old_tabs = self.tabs;
                if new_tabs < old_tabs {
                    proof {
                        lemma_sum_nonneg(orig.windows@);
                        assert(orig.args.len() == orig.args@.len());
                    }
                    let keep = sum_prefix(&self.windows, new_tabs as usize);
                    proof {
                        lemma_sum_take_bound(orig.windows@, new_tabs as int);
                        lemma_sum_nonneg(orig.windows@.take(new_tabs as int));
                    }
                    self.windows.truncate(new_tabs as usize);
                    self.args.truncate(keep);
                    proof {
                        assert(self.windows@ =~= orig.windows@.take(new_tabs as int));
                        assert(self.args@ =~= orig.args@.subrange(0, keep as int));
                        assert(forall|i: int|
                            0 <= i < keep ==> self.args@[i] == orig.args@[i]);
                    }
                } else {
                    let mut n: u8 = old_tabs;
                    while n < new_tabs
                        invariant
                            old_tabs <= n <= new_tabs,
                            self.name == orig.name,
                            self.preset_info == orig.preset_info,
                            self.tabs == orig.tabs,
                            orig.consistent(),
                            self.windows@ == orig.windows@ + Seq::new(
                                (n - old_tabs) as nat,
                                |i: int| 1u8,
                            ),
                            sum_windows(self.windows@) == sum_windows(orig.windows@) + (n
                                - old_tabs),
                            self.args@.len() == orig.args@.len() + (n - old_tabs),
                            forall|i: int|
                                0 <= i < orig.args@.len() ==> self.args@[i] == orig.args@[i],
                            forall|i: int|
                                orig.args@.len() <= i < self.args@.len() ==> (
                                #[trigger] self.args@[i])@ == Seq::<char>::empty(),
                        decreases new_tabs - n,
                    {
                        let ghost before_w = self.windows@;
                        self.windows.push(1);
                        self.args.push(String::new());
                        proof {
                            assert(self.windows@.drop_last() =~= before_w);
                            assert(self.windows@ =~= orig.windows@ + Seq::new(
                                (n + 1 - old_tabs) as nat,
                                |i: int| 1u8,
                            ));
                        }
                        n = n + 1;
                    }
                }
                self.tabs = new_tabs;
                proof {
                    if new_tabs < old_tabs {
                        assert(forall|i: int|
                            0 <= i < self.windows@.len() ==> self.windows@[i]
                                == orig.windows@.take(new_tabs as int)[i]);
                        if orig.wf() && new_tabs <= 10 {
                            assert(forall|i: int|
                                0 <= i < self.windows@.len() ==> 1 <= #[trigger] self.windows@[i]
                                    <= 4) by {
                                assert(forall|i: int|
                                    0 <= i < self.windows@.len() ==> self.windows@[i]
                                        == orig.windows@[i]);
                            }
                        }
                    }
                }
                Ok(())
            },
            PresetValue::Windows(index, new_windows) => {
                if new_windows == 0 {
                    return Err("Windows cannot have a value of 0.".to_owned());
                }
                if new_windows > 4 {
                    return Err("Windows cannot have a value above 4.".to_owned());
                }
                if index >= self.windows.len() {
                    return Err("Cannot find windows with current index.".to_owned());
                }
                proof {
                    lemma_sum_nonneg(orig.windows@);
                    lemma_sum_nonneg(orig.windows@.take(index as int));
                    assert(orig.args.len() == orig.args@.len());
                }
                let args_before = sum_prefix(&self.windows, index);
                let old_windows = self.windows[index];
                proof {
                    lemma_sum_take_step(orig.windows@, index as int);
                    lemma_sum_take_bound(orig.windows@, index + 1);
                    assert(args_before + old_windows <= orig.args@.len());
                }
                let place = args_before + (old_windows as usize);
                if new_windows < old_windows {
                    let count = (old_windows - new_windows) as usize;
                    let mut j: usize = 0;
                    while j < count
                        invariant
                            j <= count,
                            count <= old_windows,
                            place == args_before + old_windows,
                            args_before + old_windows <= orig.args@.len(),
                            self.name == orig.name,
                            self.preset_info == orig.preset_info,
                            self.tabs == orig.tabs,
                            self.windows == orig.windows,
                            self.args@ == orig.args@.take(place - j) + orig.args@.skip(
                                place as int,
                            ),
                        decreases count - j,
                    {
                        let ghost before_a = self.args@;
                        self.args.remove(place - 1 - j);
                        proof {
                            assert(before_a.remove(place - j - 1) =~= orig.args@.take(
                                place - j - 1,
                            ) + orig.args@.skip(place as int));
                        }
                        j = j + 1;
                    }
                } else {
                    let count = (new_windows - old_windows) as usize;
                    let mut j: usize = 0;
                    while j < count
                        invariant
                            j <= count,
                            place == args_before + old_windows,
                            args_before + old_windows <= orig.args@.len(),
                            self.name == orig.name,
                            self.preset_info == orig.preset_info,
                            self.tabs == orig.tabs,
                            self.windows == orig.windows,
                            self.args@.len() == orig.args@.len() + j,
                            forall|i: int| 0 <= i < place ==> self.args@[i] == orig.args@[i],
                            forall|i: int|
                                place <= i < place + j ==> (#[trigger] self.args@[i])@
                                    == Seq::<char>::empty(),
                            forall|i: int|
                                place <= i < orig.args@.len() ==> self.args@[i + j]
                                    == orig.args@[i],
                        decreases count - j,
                    {
                        self.args.insert(place, String::new());
                        j = j + 1;
                    }
                }
                self.windows[index] = new_windows;
                proof {
                    lemma_sum_update(orig.windows@, index as int, new_windows);
                    if orig.wf() && new_windows <= 4 {
                        assert(forall|i: int|
                            0 <= i < self.windows@.len() ==> 1 <= #[trigger] self.windows@[i]
                                <= 4);
                    }
                }
                Ok(())
            },
            PresetValue::Args(index, new_name) => {
                if index >= self.args.len() {
                    return Err("Cannot find windows with current index.".to_owned());
                }
                self.args[index] = new_name;
                Ok(())
            },
            PresetValue::PresetInfo(new_preset_info_value) => {
                match new_preset_info_value {
                    PresetInfoValue::WtProfile(new_wt_profile) => {
                        self.preset_info.wt_profile = new_wt_profile;
                    },
                    PresetInfoValue::InitShell(new_init_shell) => {
                        self.preset_info.init_shell = new_init_shell;
                    },
                    PresetInfoValue::TargetShell(new_target_shell) => {
                        self.preset_info.target_shell = new_target_shell;
                    },
                }
                Ok(())
            },
        }
    }
}

/// Growing the tab count and then shrinking it back to its original value
/// restores the original pane counts and stored commands exactly: the grown
/// preset only appended one-pane tabs with empty commands, and the shrink
/// removes precisely that trailing run.  The hypotheses are the two
/// tab-count edits' contracts: `q` is `p` after an edit to `big`, and `r`
/// is `q` after an edit back to `p.tabs`.
pub proof fn lemma_tabs_grow_shrink(p: Preset, q: Preset, r: Preset, big: u8)
    requires
        p.consistent(),
        p.tabs < big,
        q.tabs == big,
        q.name == p.name,
        q.preset_info == p.preset_info,
        q.windows@ == p.windows@ + Seq::new((big - p.tabs) as nat, |i: int| 1u8),
        args_spliced(p.args@, q.args@, p.args@.len() as int, 0, big - p.tabs),
        r.tabs == p.tabs,
        r.name == q.name,
        r.preset_info == q.preset_info,
        r.windows@ == q.windows@.take(p.tabs as int),
        args_spliced(
            q.args@,
            r.args@,
            sum_windows(q.windows@.take(p.tabs as int)),
            q.args@.len() - sum_windows(q.windows@.take(p.tabs as int)),
            0,
        ),
    ensures
        r.name == p.name,
        r.preset_info == p.preset_info,
        r.tabs == p.tabs,
        r.windows@ == p.windows@,
        r.args@ == p.args@,
{
    assert(q.windows@.take(p.tabs as int) =~= p.windows@);
    assert(r.args@ =~= p.args@);
}

impl PresetValue {
    /// Types a raw committed string into this edit's slot: names and
    /// commands are taken verbatim, counts are parsed and range-checked
    /// (tabs one to ten, panes one to four), and shell names must belong
    /// to the fixed enumeration (the launcher shell only to its Windows
    /// subset).  A refused value leaves the edit untouched.
    pub fn update_value(&mut self, new_val: &str) -> (r: Result<(), String>)
        ensures
            match *old(self) {
                PresetValue::Name(_) => {
                    &&& r is Ok
                    &&& *final(self) matches PresetValue::Name(s) && s@ == new_val@
                },
                PresetValue::Tabs(_) => {
                    if !(new_val@.len() > 0 && all_dec_digits(new_val@) && dec_val(new_val@)
                        <= 255) {
                        &&& r matches Err(m) && m@
                            == "PresetValue, update_value error parsing tabs: CANNOT PARSE GIVEN STRING."@
                        &&& *final(self) == *old(self)
                    } else if dec_val(new_val@) < 1 || dec_val(new_val@) > 10 {
                        &&& r matches Err(m) && m@
                            == "PresetValue, update_value error creating tabs: INVALID AMOUNT OF TABS"@
                        &&& *final(self) == *old(self)
                    } else {
                        &&& r is Ok
                        &&& *final(self) matches PresetValue::Tabs(t) && t == dec_val(new_val@)
                    }
                },
                PresetValue::Windows(idx, _) => {
                    if !(new_val@.len() > 0 && all_dec_digits(new_val@) && dec_val(new_val@)
                        <= 255) {
                        &&& r matches Err(m) && m@
                            == "PresetValue update_value error parsing windows: CANNOT PARSE GIVEN STRING."@
                        &&& *final(self) == *old(self)
                    } else if dec_val(new_val@) < 1 || dec_val(new_val@) > 4 {
                        &&& r matches Err(m) && m@
                            == "PresetValue, update_value error creating windows: INVALID AMOUNT OF WINDOWS"@
                        &&& *final(self) == *old(self)
                    } else {
                        &&& r is Ok
                        &&& *final(self) matches PresetValue::Windows(j, w) && j == idx && w
                            == dec_val(new_val@)
                    }
                },
                PresetValue::Args(idx, _) => {
                    &&& r is Ok
                    &&& *final(self) matches PresetValue::Args(j, s) && j == idx && s@
                        == new_val@
                },
                PresetValue::PresetInfo(piv) => match piv {
                    PresetInfoValue::WtProfile(_) => {
                        &&& r is Ok
                        &&& *final(self) matches PresetValue::PresetInfo(
                            PresetInfoValue::WtProfile(s),
                        ) && s@ == new_val@
                    },
                    PresetInfoValue::InitShell(_) => {
                        if new_val@ == "powershell"@ || new_val@ == "cmd"@ || new_val@
                            == "pwsh"@ {
                            &&& r is Ok
                            &&& *final(self) matches PresetValue::PresetInfo(
                                PresetInfoValue::InitShell(sh),
                            ) && crate::shell::shell_name(sh) == new_val@
                        } else {
                            &&& r matches Err(m) && m@
                                == "PresetValue update_value error parsing PresetInfo: INIT SHELL MUST BE 'powershell' OR 'cmd' OR 'pwsh'."@
                            &&& *final(self) == *old(self)
                        }
                    },
                    PresetInfoValue::TargetShell(_) => {
                        if exists|t: ShellType| new_val@ == crate::shell::shell_name(t) {
                            &&& r is Ok
                            &&& *final(self) matches PresetValue::PresetInfo(
                                PresetInfoValue::TargetShell(sh),
                            ) && crate::shell::shell_name(sh) == new_val@
                        } else {
                            &&& r matches Err(m) && m@ == "Incorrect shell name."@
                            &&& *final(self) == *old(self)
                        }
                    },
                },
            },
    {
        match self {
            PresetValue::Name(name) => {
                *name = new_val.to_owned();
                Ok(())
            },
            PresetValue::Tabs(tabs) => {
                match parse_u8(new_val) {
                    None => Err(
                        "PresetValue, update_value error parsing tabs: CANNOT PARSE GIVEN STRING.".to_owned(),
                    ),
                    Some(new_tabs) => {
                        if new_tabs < 1 || new_tabs > 10 {
                            Err(
                                "PresetValue, update_value error creating tabs: INVALID AMOUNT OF TABS".to_owned(),
                            )
                        } else {
                            *tabs = new_tabs;
                            Ok(())
                        }
                    },
                }
            },
            PresetValue::Windows(_, windows) => {
                match parse_u8(new_val) {
                    None => Err(
                        "PresetValue update_value error parsing windows: CANNOT PARSE GIVEN STRING.".to_owned(),
                    ),
                    Some(new_windows) => {
                        if new_windows < 1 || new_windows > 4 {
                            Err(
                                "PresetValue, update_value error creating windows: INVALID AMOUNT OF WINDOWS".to_owned(),
                            )
                        } else {
                            *windows = new_windows;
                            Ok(())
                        }
                    },
                }
            },
            PresetValue::Args(_, arg) => {
                *arg = new_val.to_owned();
                Ok(())
            },
            PresetValue::PresetInfo(preset_info_value) => {
                match preset_info_value {
                    PresetInfoValue::WtProfile(name) => {
                        *name = new_val.to_owned();
                        Ok(())
                    },
                    PresetInfoValue::InitShell(init_shell) => {
                        if str_eq(new_val, "powershell") || str_eq(new_val, "cmd") || str_eq(
                            new_val,
                            "pwsh",
                        ) {
                            match ShellType::from_str(new_val) {
                                Ok(sh) => {
                                    *init_shell = sh;
                                    Ok(())
                                },
                                Err(e) => {
                                    proof {
                                        assert(false);
                                    }
                                    Err(e)
                                },
                            }
                        } else {
                            Err(
                                "PresetValue update_value error parsing PresetInfo: INIT SHELL MUST BE 'powershell' OR 'cmd' OR 'pwsh'.".to_owned(),
                            )
                        }
                    },
                    PresetInfoValue::TargetShell(target_shell) => {
                        match ShellType::from_str(new_val) {
                            Ok(sh) => {
                                *target_shell = sh;
                                Ok(())
                            },
                            Err(e) => Err(e),
                        }
                    },
                }
            },
        }
    }
}

impl Preset {
    /// Builds a preset from the creation wizard's ordered answers: the
    /// name, then the tab count, then one pane count per tab, then one
    /// command per pane.  The shell configuration starts at its default.
    pub fn from_input(input: &Vec<String>) -> (r: Preset)
        requires
            input@.len() >= 2,
            input@[1]@.len() > 0 && all_dec_digits(input@[1]@) && dec_val(input@[1]@) <= 255,
            forall|i: int|
                2 <= i < input@.len() && i < 2 + dec_val(input@[1]@) ==> {
                    &&& (#[trigger] input@[i])@.len() > 0
                    &&& all_dec_digits(input@[i]@)
                    &&& dec_val(input@[i]@) <= 255
                },
        ensures
            r.name == input@[0],
            r.tabs == dec_val(input@[1]@),
            r.windows@.len() == if 2 + dec_val(input@[1]@) <= input@.len() {
                dec_val(input@[1]@) as int
            } else {
                input@.len() - 2
            },
            forall|j: int|
                0 <= j < r.windows@.len() ==> #[trigger] r.windows@[j] == dec_val(
                    input@[2 + j]@,
                ),
            r.args@.len() == input@.len() - 2 - r.windows@.len(),
            forall|j: int|
                0 <= j < r.args@.len() ==> #[trigger] r.args@[j] == input@[2 + r.windows@.len()
                    + j],
            r.preset_info.wt_profile@ == Seq::<char>::empty(),
            r.preset_info.init_shell == ShellType::WindowsPowershell,
            r.preset_info.target_shell == ShellType::WindowsPowershell,
    {
        let name = input[0].clone();
        let tabs: u8 = match parse_u8(input[1].as_str()) {
            Some(t) => t,
            None => {
                proof {
                    assert(false);
                }
                0
            },
        };
        let take_n: usize = if (tabs as usize) <= input.len() - 2 {
            tabs as usize
        } else {
            input.len() - 2
        };
        let mut windows: Vec<u8> = Vec::new();
        let mut j: usize = 0;
        while j < take_n
            invariant
                j <= take_n,
                take_n <= input@.len() - 2,
                take_n <= tabs,
                tabs == dec_val(input@[1]@),
                forall|i: int|
                    2 <= i < input@.len() && i < 2 + dec_val(input@[1]@) ==> {
                        &&& (#[trigger] input@[i])@.len() > 0
                        &&& all_dec_digits(input@[i]@)
                        &&& dec_val(input@[i]@) <= 255
                    },
                windows@.len() == j,
                forall|k: int|
                    0 <= k < j ==> #[trigger] windows@[k] == dec_val(input@[2 + k]@),
            decreases take_n - j,
        {
            let w: u8 = match parse_u8(input[2 + j].as_str()) {
                Some(w) => w,
                None => {
                    proof {
                        assert(false);
                    }
                    0
                },
            };
            windows.push(w);
            j += 1;
        }
        let mut args: Vec<String> = Vec::new();
        let mut i: usize = 2 + take_n;
        while i < input.len()
            invariant
                2 + take_n <= i <= input@.len(),
                args@.len() == i - 2 - take_n,
                forall|k: int|
                    0 <= k < args@.len() ==> #[trigger] args@[k] == input@[2 + take_n as int
                        + k],
            decreases input@.len() - i,
        {
            args.push(input[i].clone());
            i += 1;
        }
        Preset { name, tabs, windows, args, preset_info: PresetInfo::default() }
    }

    /// A ready-made example preset: three tabs with two, one and one panes.
    pub fn default() -> (r: Preset)
        ensures
            r.name@ == "Test Preset"@,
            r.tabs == 3,
            r.windows@ == seq![2u8, 1u8, 1u8],
            r.args@.len() == 4,
            r.args@[0]@ == "arg w1"@,
            r.args@[1]@ == "arg w1"@,
            r.args@[2]@ == "arg w2"@,
            r.args@[3]@ == "arg w3"@,
            r.preset_info.wt_profile@ == Seq::<char>::empty(),
            r.preset_info.init_shell == ShellType::WindowsPowershell,
            r.preset_info.target_shell == ShellType::WindowsPowershell,
            r.wf(),
    {
        let mut windows: Vec<u8> = Vec::new();
        windows.push(2);
        windows.push(1);
        windows.push(1);
        let mut args: Vec<String> = Vec::new();
        args.push("arg w1".to_owned());
        args.push("arg w1".to_owned());
        args.push("arg w2".to_owned());
        args.push("arg w3".to_owned());
        let r = Preset {
            name: "Test Preset".to_owned(),
            tabs: 3,
            windows,
            args,
            preset_info: PresetInfo::default(),
        };
        proof {
            assert(r.windows@ =~= seq![2u8, 1u8, 1u8]);
            assert(sum_windows(Seq::<u8>::empty()) == 0);
            assert(seq![2u8].drop_last() =~= Seq::<u8>::empty());
            assert(sum_windows(seq![2u8]) == 2);
            assert(seq![2u8, 1u8].drop_last() =~= seq![2u8]);
            assert(sum_windows(seq![2u8, 1u8]) == 3);
            assert(seq![2u8, 1u8, 1u8].drop_last() =~= seq![2u8, 1u8]);
            assert(sum_windows(seq![2u8, 1u8, 1u8]) == 4);
        }
        r
    }
}

/// Computes `sum(windows[0..t])`, the flat index where tab `t`'s stored
/// commands begin.
fn sum_prefix(windows: &Vec<u8>, t: usize) -> (r: usize)
    requires
        t <= windows.len(),
        sum_windows(windows@) <= usize::MAX,
    ensures
        r == sum_windows(windows@.take(t as int)),
{
    let mut acc: usize = 0;
    let mut i: usize = 0;
    while i < t
        invariant
            i <= t <= windows.len(),
            sum_windows(windows@) <= usize::MAX,
            acc == sum_windows(windows@.take(i as int)),
        decreases t - i,
    {
        proof {
            lemma_sum_take_step(windows@, i as int);
            lemma_sum_take_bound(windows@, i + 1);
            lemma_sum_nonneg(windows@.take(i as int));
        }
        acc = acc + (windows[i] as usize);
        i += 1;
    }
    acc
}


} // verus!
