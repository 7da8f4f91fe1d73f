//! The layout compiler: turns a well-formed preset into the exact command
//! line that recreates its tab and pane layout in the Windows Terminal
//! multiplexer (`wt.exe`), together with the launcher executable to run it
//! with.
//!
//! Each stored command is split on commas, every fragment is terminated with
//! an escaped statement separator, POSIX-style target shells get a final
//! `exec` so the pane ends up running the shell itself, and the whole
//! fragment is wrapped in the target shell's command runner.  Pane-split
//! templates are keyed by each tab's pane count; tabs are chained with a
//! `new-tab` separator.  When the launcher shell is Windows PowerShell, a
//! backtick escapes each chained sub-command.

use vstd::prelude::*;
use crate::config::AppConfig;
use crate::model::{
    lemma_sum_nonneg, lemma_sum_take_bound, lemma_sum_take_step, sum_windows, Preset,
};
use crate::shell::{is_posix, shell_name, ShellType};
use crate::text::{chars_to_string, push_str_chars, str_to_chars};

verus! {

/// The escape token inserted between chained sub-commands: a backtick when
/// the launcher shell is Windows PowerShell, nothing otherwise.
pub open spec fn escape_text(init: ShellType) -> Seq<char> {
    if init == ShellType::WindowsPowershell {
        seq!['`']
    } else {
        Seq::<char>::empty()
    }
}

/// The command-runner that wraps each pane's fragment, fixed per target
/// shell.  With `login` set, the WSL bridge starts the POSIX shells as
/// login and interactive shells.
pub open spec fn runner_text(target: ShellType, login: bool) -> Seq<char> {
    match target {
        ShellType::WindowsPowershell => "powershell -NoExit -Command"@,
        ShellType::Powershell => "pwsh -NoExit -Command"@,
        ShellType::Cmd => "cmd /k"@,
        ShellType::Bash => if login {
            "wsl ~ -e bash -l -i -c"@
        } else {
            "wsl ~ -e bash -c"@
        },
        ShellType::Zsh => if login {
            "wsl ~ -e zsh -l -i -c"@
        } else {
            "wsl ~ -e zsh -c"@
        },
        ShellType::Fish => if login {
            "wsl ~ -e fish -l -i -c"@
        } else {
            "wsl ~ -e fish -c"@
        },
    }
}

/// `a` with every comma replaced by an escaped statement separator.
pub open spec fn replaced(a: Seq<char>) -> Seq<char>
    decreases a.len(),
{
    if a.len() == 0 {
        Seq::<char>::empty()
    } else {
        (if a[0] == ',' {
            seq!['\\', ';']
        } else {
            seq![a[0]]
        }) + replaced(a.skip(1))
    }
}

/// A stored command turned into shell fragments: commas become escaped
/// separators and a final escaped separator closes the last fragment.
pub open spec fn terminated(a: Seq<char>) -> Seq<char> {
    replaced(a) + seq!['\\', ';']
}

/// The `exec` fragment appended for POSIX-style target shells, replacing
/// the wrapper process with the shell itself.
pub open spec fn exec_tail(target: ShellType) -> Seq<char> {
    if is_posix(target) {
        "exec "@ + shell_name(target) + seq!['\\', ';']
    } else {
        Seq::<char>::empty()
    }
}

/// One pane's full command: the runner, then the single-quoted terminated
/// fragments with the optional `exec` tail.
#[verifier::opaque]
pub open spec fn wrapped_arg(arg: Seq<char>, target: ShellType, login: bool) -> Seq<char> {
    runner_text(target, login) + " '"@ + terminated(arg) + exec_tail(target) + seq!['\'']
}

/// The profile selector: ` -p "<name>"` when a profile is configured,
/// nothing otherwise.
pub open spec fn profile_text(profile: Seq<char>) -> Seq<char> {
    if profile.len() == 0 {
        Seq::<char>::empty()
    } else {
        " -p \""@ + profile + seq!['"']
    }
}

/// Pane `j` of preset `p` as a wrapped command.
pub open spec fn warg(p: Preset, j: int, login: bool) -> Seq<char> {
    wrapped_arg(p.args@[j]@, p.preset_info.target_shell, login)
}

/// The leading pane of a tab: the profile selector, a space, and the
/// pane's wrapped command.
pub open spec fn lead_pane(p: Preset, j: int, login: bool) -> Seq<char> {
    profile_text(p.preset_info.wt_profile@) + " "@ + warg(p, j, login)
}

/// A further pane chained onto the tab: the escape token, the split-pane
/// command with its options, the profile selector, and the pane's wrapped
/// command.
pub open spec fn next_pane(p: Preset, j: int, sep: Seq<char>, login: bool) -> Seq<char> {
    escape_text(p.preset_info.init_shell) + "; sp"@ + profile_text(p.preset_info.wt_profile@)
        + sep + warg(p, j, login)
}

/// Tab `t`'s compiled segment: the pane-split template for its pane count,
/// consuming that tab's consecutive run of stored commands.
#[verifier::opaque]
pub open spec fn tab_segment(p: Preset, t: int, login: bool) -> Seq<char> {
    let e = escape_text(p.preset_info.init_shell);
    let b = sum_windows(p.windows@.take(t));
    let w = p.windows@[t];
    if w == 1 {
        lead_pane(p, b, login)
    } else if w == 2 {
        lead_pane(p, b, login) + next_pane(p, b + 1, " "@, login)
    } else if w == 3 {
        lead_pane(p, b, login) + next_pane(p, b + 1, " -s .66 "@, login) + next_pane(
            p,
            b + 2,
            " -s .5 "@,
            login,
        )
    } else {
        lead_pane(p, b, login) + next_pane(p, b + 1, " "@, login) + next_pane(
            p,
            b + 2,
            " "@,
            login,
        ) + (e + "; mf left"@) + next_pane(p, b + 3, " "@, login)
    }
}

/// The first `t` tab segments concatenated, every segment but the overall
/// last followed by the new-tab separator.
pub open spec fn joined_upto(p: Preset, login: bool, t: int) -> Seq<char>
    decreases t,
{
    if t <= 0 {
        Seq::<char>::empty()
    } else {
        joined_upto(p, login, t - 1) + tab_segment(p, t - 1, login) + (if t - 1
            < p.windows@.len() - 1 {
            "`; nt"@
        } else {
            Seq::<char>::empty()
        })
    }
}

/// The complete argument string handed to the launcher.
pub open spec fn wt_args_text(p: Preset, login: bool) -> Seq<char> {
    "wt.exe"@ + joined_upto(p, login, p.windows@.len() as int)
}

/// The launcher executable's file name.
pub open spec fn wt_program_text(p: Preset) -> Seq<char> {
    shell_name(p.preset_info.init_shell) + ".exe"@
}

/// Compiling is deterministic: the launcher name and the argument string
/// are functions of the preset and runner style alone, so equal presets
/// always compile to byte-identical output.
pub proof fn lemma_compile_deterministic(p1: Preset, p2: Preset, login: bool)
    requires
        p1 == p2,
    ensures
        wt_program_text(p1) == wt_program_text(p2),
        wt_args_text(p1, login) == wt_args_text(p2, login),
{
}

proof fn lemma_replaced_push(a: Seq<char>, c: char)
    ensures
        replaced(a.push(c)) == replaced(a) + (if c == ',' {
            seq!['\\', ';']
        } else {
            seq![c]
        }),
    decreases a.len(),
{
    if a.len() == 0 {
        assert(replaced(Seq::<char>::empty()) =~= Seq::<char>::empty());
        assert(a.push(c)[0] == c);
        assert(a.push(c).skip(1) =~= Seq::<char>::empty());
        assert(replaced(a.push(c)) =~= replaced(a) + (if c == ',' {
            seq!['\\', ';']
        } else {
            seq![c]
        }));
    } else {
        assert(a.push(c).skip(1) =~= a.skip(1).push(c));
        lemma_replaced_push(a.skip(1), c);
        assert(a.push(c)[0] == a[0]);
        assert(replaced(a.push(c)) =~= replaced(a) + (if c == ',' {
            seq!['\\', ';']
        } else {
            seq![c]
        }));
    }
}

/// Appends one pane's wrapped command to `dst`.
#[verifier::rlimit(50)]
fn push_wrapped_arg(dst: &mut Vec<char>, arg: &String, target: ShellType, login: bool)
    ensures
        final(dst)@ == old(dst)@ + wrapped_arg(arg@, target, login),
{
    proof {
        reveal(wrapped_arg);
    }
    match target {
        ShellType::WindowsPowershell => push_str_chars(dst, "powershell -NoExit -Command"),
        ShellType::Powershell => push_str_chars(dst, "pwsh -NoExit -Command"),
        ShellType::Cmd => push_str_chars(dst, "cmd /k"),
        ShellType::Bash => push_str_chars(dst, if login {
            "wsl ~ -e bash -l -i -c"
        } else {
            "wsl ~ -e bash -c"
        }),
        ShellType::Zsh => push_str_chars(dst, if login {
            "wsl ~ -e zsh -l -i -c"
        } else {
            "wsl ~ -e zsh -c"
        }),
        ShellType::Fish => push_str_chars(dst, if login {
            "wsl ~ -e fish -l -i -c"
        } else {
            "wsl ~ -e fish -c"
        }),
    }
    push_str_chars(dst, " '");
    let ghost mid = dst@;
    let a = str_to_chars(arg.as_str());
    let mut i: usize = 0;
    while i < a.len()
        invariant
            i <= a.len(),
            a@ == arg@,
            dst@ == mid + replaced(a@.take(i as int)),
        decreases a.len() - i,
    {
        let c = a[i];
        proof {
            lemma_replaced_push(a@.take(i as int), a@[i as int]);
            assert(a@.take(i as int).push(a@[i as int]) =~= a@.take(i + 1));
        }
        if c == ',' {
            dst.push('\\');
            dst.push(';');
        } else {
            dst.push(c);
        }
        proof {
            assert(dst@ =~= mid + replaced(a@.take(i + 1)));
        }
        i += 1;
    }
    proof {
        assert(a@.take(a@.len() as int) =~= a@);
    }
    dst.push('\\');
    dst.push(';');
    proof {
        assert(dst@ =~= mid + terminated(arg@));
    }
    match target {
        ShellType::Bash | ShellType::Zsh | ShellType::Fish => {
            push_str_chars(dst, "exec ");
            match target {
                ShellType::Bash => push_str_chars(dst, "bash"),
                ShellType::Zsh => push_str_chars(dst, "zsh"),
                _ => push_str_chars(dst, "fish"),
            }
            dst.push('\\');
            dst.push(';');
        },
        _ => {},
    }
    proof {
        assert(dst@ =~= mid + terminated(arg@) + exec_tail(target));
    }
    dst.push('\'');
    proof {
        assert(dst@ =~= old(dst)@ + wrapped_arg(arg@, target, login));
    }
}

/// Appends the profile selector to `dst`.
fn push_profile(dst: &mut Vec<char>, profile: &String)
    ensures
        final(dst)@ == old(dst)@ + profile_text(profile@),
{
    if profile.as_str().unicode_len() == 0 {
    } else {
        push_str_chars(dst, " -p \"");
        push_str_chars(dst, profile.as_str());
        dst.push('"');
        proof {
            assert(dst@ =~= old(dst)@ + profile_text(profile@));
        }
    }
}

/// Appends the escape token to `dst`.
fn push_escape(dst: &mut Vec<char>, init: ShellType)
    ensures
        final(dst)@ == old(dst)@ + escape_text(init),
{
    match init {
        ShellType::WindowsPowershell => {
            dst.push('`');
            proof {
                assert(dst@ =~= old(dst)@ + escape_text(init));
            }
        },
        _ => {
            proof {
                assert(dst@ =~= old(dst)@ + escape_text(init));
            }
        },
    }
}

/// Appends one leading pane to `out`.
fn push_lead_pane(out: &mut Vec<char>, p: &Preset, j: usize, login: bool)
    requires
        j < p.args@.len(),
    ensures
        final(out)@ == old(out)@ + lead_pane(*p, j as int, login),
{
    proof {
        assert(p.args.len() == p.args@.len());
    }
    push_profile(out, &p.preset_info.wt_profile);
    push_str_chars(out, " ");
    push_wrapped_arg(out, &p.args[j], p.preset_info.target_shell, login);
    proof {
        assert(out@ =~= old(out)@ + lead_pane(*p, j as int, login));
    }
}

/// Appends one chained pane to `out`, `sep` being the split-pane options
/// (at least the separating space).
fn push_next_pane(out: &mut Vec<char>, p: &Preset, j: usize, sep: &str, login: bool)
    requires
        j < p.args@.len(),
    ensures
        final(out)@ == old(out)@ + next_pane(*p, j as int, sep@, login),
{
    proof {
        assert(p.args.len() == p.args@.len());
    }
    push_escape(out, p.preset_info.init_shell);
    push_str_chars(out, "; sp");
    push_profile(out, &p.preset_info.wt_profile);
    push_str_chars(out, sep);
    push_wrapped_arg(out, &p.args[j], p.preset_info.target_shell, login);
    proof {
        assert(out@ =~= old(out)@ + next_pane(*p, j as int, sep@, login));
    }
}

/// Appends tab `t`'s compiled segment to `out`, consuming the tab's run of
/// stored commands starting at flat index `base`.
#[verifier::rlimit(100)]
fn push_tab_segment(out: &mut Vec<char>, p: &Preset, t: usize, base: usize, login: bool)
    requires
        p.wf(),
        t < p.windows@.len(),
        base == sum_windows(p.windows@.take(t as int)),
        base + p.windows@[t as int] <= p.args@.len(),
    ensures
        final(out)@ == old(out)@ + tab_segment(*p, t as int, login),
{
    proof {
        reveal(tab_segment);
        assert(p.args.len() == p.args@.len());
    }
    let w = p.windows[t];
    push_lead_pane(out, p, base, login);
    if w == 1 {
        proof {
            assert(out@ =~= old(out)@ + tab_segment(*p, t as int, login));
        }
    } else if w == 2 {
        push_next_pane(out, p, base + 1, " ", login);
        proof {
            assert(out@ =~= old(out)@ + tab_segment(*p, t as int, login));
        }
    } else if w == 3 {
        push_next_pane(out, p, base + 1, " -s .66 ", login);
        push_next_pane(out, p, base + 2, " -s .5 ", login);
        proof {
            assert(out@ =~= old(out)@ + tab_segment(*p, t as int, login));
        }
    } else {
        push_next_pane(out, p, base + 1, " ", login);
        push_next_pane(out, p, base + 2, " ", login);
        push_escape(out, p.preset_info.init_shell);
        push_str_chars(out, "; mf left");
        push_next_pane(out, p, base + 3, " ", login);
        proof {
            assert(out@ =~= old(out)@ + tab_segment(*p, t as int, login));
        }
    }
}

/// Compiles a well-formed preset into the launcher executable's name and
/// the full argument string.
fn compile_preset(p: &Preset, login: bool) -> (r: (String, String))
    requires
        p.wf(),
    ensures
        r.0@ == wt_program_text(*p),
        r.1@ == wt_args_text(*p, login),
{
    let n = p.windows.len();
    let mut out = str_to_chars("wt.exe");
    let mut base: usize = 0;
    let mut t: usize = 0;
    while t < n
        invariant
            p.wf(),
            n == p.windows@.len(),
            t <= n,
            base == sum_windows(p.windows@.take(t as int)),
            0 <= base <= p.args@.len(),
            out@ == "wt.exe"@ + joined_upto(*p, login, t as int),
        decreases n - t,
    {
        proof {
            lemma_sum_take_step(p.windows@, t as int);
            lemma_sum_take_bound(p.windows@, t + 1);
            lemma_sum_nonneg(p.windows@.take(t as int));
            assert(p.args.len() == p.args@.len());
        }
        let w = p.windows[t];
        push_tab_segment(&mut out, p, t, base, login);
        if t < n - 1 {
            push_str_chars(&mut out, "`; nt");
        }
        proof {
            assert(out@ =~= "wt.exe"@ + joined_upto(*p, login, t + 1));
        }
        base = base + (w as usize);
        t += 1;
    }
    let shell = p.preset_info.init_shell.as_string();
    let mut prog = str_to_chars(shell.as_str());
    push_str_chars(&mut prog, ".exe");
    (chars_to_string(&prog), chars_to_string(&out))
}

/// Runtime check of full well-formedness.
impl Preset {
    pub fn is_wf(&self) -> (r: bool)
        ensures
            r == self.wf(),
    {
        if self.tabs < 1 || self.tabs > 10 {
            return false;
        }
        if self.windows.len() != self.tabs as usize {
            return false;
        }
        let mut i: usize = 0;
        let mut total: usize = 0;
        while i < self.windows.len()
            invariant
                i <= self.windows@.len(),
                self.windows@.len() <= 10,
                total == sum_windows(self.windows@.take(i as int)),
                total <= 4 * i,
                forall|j: int| 0 <= j < i ==> 1 <= #[trigger] self.windows@[j] <= 4,
            decreases self.windows@.len() - i,
        {
            let w = self.windows[i];
            if w < 1 || w > 4 {
                return false;
            }
            proof {
                lemma_sum_take_step(self.windows@, i as int);
            }
            total = total + (w as usize);
            i += 1;
        }
        proof {
            assert(self.windows@.take(self.windows@.len() as int) =~= self.windows@);
        }
        self.args.len() == total
    }
}

impl AppConfig {
    /// Compiles the named preset into `(launcher_executable, argument
    /// string)`, with the POSIX shells bridged as login, interactive
    /// shells.  Fails when no stored preset carries the name, or when the
    /// named preset's layout is malformed, in which case nothing is
    /// guessed.
    pub fn create_wt_command(&self, selected_name: &str) -> (r: Result<(String, String), String>)
        ensures
            create_wt_command_ensures(self, selected_name@, r, true),
    {
        create_wt_command_with(self, selected_name, true)
    }
}

/// What both compilation entry points promise: an error naming the failure
/// when the preset is missing or malformed, else exactly the compiled pair
/// for the first stored preset carrying the name.
pub open spec fn create_wt_command_ensures(
    cfg: &AppConfig,
    name: Seq<char>,
    r: Result<(String, String), String>,
    login: bool,
) -> bool {
    &&& (forall|i: int|
        0 <= i < cfg.presets@.len() ==> (#[trigger] cfg.presets@[i]).name@ != name) ==> (r
        matches Err(m) && m@
        == "Cannot find the matching preset name while trying to run the config."@)
    &&& forall|i: int|
        {
            &&& 0 <= i < cfg.presets@.len()
            &&& (#[trigger] cfg.presets@[i]).name@ == name
            &&& (forall|j: int| 0 <= j < i ==> (#[trigger] cfg.presets@[j]).name@ != name)
        } ==> {
            let p = cfg.presets@[i];
            if p.wf() {
                r matches Ok(pair) && pair.0@ == wt_program_text(p) && pair.1@ == wt_args_text(
                    p,
                    login,
                )
            } else {
                r matches Err(m) && m@
                    == "The preset's window layout is malformed; refusing to build the command."@
            }
        }
}

fn create_wt_command_with(app_config: &AppConfig, selected_name: &str, login: bool) -> (r:
    Result<(String, String), String>)
    ensures
        create_wt_command_ensures(app_config, selected_name@, r, login),
{
    let found = app_config.get_preset_by_name(selected_name);
    match found {
        None => Err(
            "Cannot find the matching preset name while trying to run the config.".to_owned(),
        ),
        Some(preset) => {
            if preset.is_wf() {
                Ok(compile_preset(preset, login))
            } else {
                Err(
                    "The preset's window layout is malformed; refusing to build the command.".to_owned(),
                )
            }
        },
    }
}

/// Compiles the named preset into `(launcher_executable, argument string)`,
/// with the POSIX shells bridged plainly (no login or interactive flags).
pub fn create_wt_command(selected_name: &str, app_config: &AppConfig) -> (r: Result<
    (String, String),
    String,
>)
    ensures
        create_wt_command_ensures(app_config, selected_name@, r, false),
{
    create_wt_command_with(app_config, selected_name, false)
}

} // verus!
