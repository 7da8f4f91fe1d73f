//! The fixed shell enumeration and the per-preset shell configuration.

use vstd::prelude::*;
use crate::text::str_eq;

verus! {

/// The shells a preset can name, either as the launcher that invokes the
/// terminal multiplexer or as the shell each pane's command runs inside.
#[derive(Debug, Clone, Copy, PartialEq, Eq, Structural)]
pub enum ShellType {
    WindowsPowershell,
    Powershell,
    Cmd,
    Bash,
    Zsh,
    Fish,
}

/// The canonical name of each shell, as written in stored configs.
pub open spec fn shell_name(t: ShellType) -> Seq<char> {
    match t {
        ShellType::WindowsPowershell => "powershell"@,
        ShellType::Powershell => "pwsh"@,
        ShellType::Cmd => "cmd"@,
        ShellType::Bash => "bash"@,
        ShellType::Zsh => "zsh"@,
        ShellType::Fish => "fish"@,
    }
}

/// The shells reached through the WSL bridge, whose pane commands end by
/// replacing the wrapper process with the shell itself.
pub open spec fn is_posix(t: ShellType) -> bool {
    match t {
        ShellType::Bash | ShellType::Zsh | ShellType::Fish => true,
        _ => false,
    }
}

impl ShellType {
    /// The canonical name of this shell.
    pub fn as_string(&self) -> (r: String)
        ensures
            r@ == shell_name(*self),
    {
        match self {
            ShellType::WindowsPowershell => "powershell".to_owned(),
            ShellType::Powershell => "pwsh".to_owned(),
            ShellType::Cmd => "cmd".to_owned(),
            ShellType::Bash => "bash".to_owned(),
            ShellType::Zsh => "zsh".to_owned(),
            ShellType::Fish => "fish".to_owned(),
        }
    }

    /// Reads a shell from its canonical name; any other string is refused.
    pub fn from_str(name: &str) -> (r: Result<ShellType, String>)
        ensures
            r matches Ok(t) ==> name@ == shell_name(t),
            name@ == "powershell"@ ==> r == Ok::<ShellType, String>(ShellType::WindowsPowershell),
            name@ == "pwsh"@ ==> r == Ok::<ShellType, String>(ShellType::Powershell),
            name@ == "cmd"@ ==> r == Ok::<ShellType, String>(ShellType::Cmd),
            name@ == "bash"@ ==> r == Ok::<ShellType, String>(ShellType::Bash),
            name@ == "zsh"@ ==> r == Ok::<ShellType, String>(ShellType::Zsh),
            name@ == "fish"@ ==> r == Ok::<ShellType, String>(ShellType::Fish),
            r matches Err(m) ==> m@ == "Incorrect shell name."@
                && (forall|t: ShellType| name@ != shell_name(t)),
    {
        proof {
            reveal_strlit("powershell");
            reveal_strlit("pwsh");
            reveal_strlit("cmd");
            reveal_strlit("bash");
            reveal_strlit("zsh");
            reveal_strlit("fish");
            assert("powershell"@.len() == 10);
            assert("pwsh"@.len() == 4);
            assert("cmd"@.len() == 3);
            assert("bash"@.len() == 4);
            assert("zsh"@.len() == 3);
            assert("fish"@.len() == 4);
            assert("pwsh"@[0] == 'p' && "bash"@[0] == 'b' && "fish"@[0] == 'f');
            assert("cmd"@[0] == 'c' && "zsh"@[0] == 'z');
        }
        if str_eq(name, "powershell") {
            Ok(ShellType::WindowsPowershell)
        } else if str_eq(name, "pwsh") {
            Ok(ShellType::Powershell)
        } else if str_eq(name, "cmd") {
            Ok(ShellType::Cmd)
        } else if str_eq(name, "bash") {
            Ok(ShellType::Bash)
        } else if str_eq(name, "zsh") {
            Ok(ShellType::Zsh)
        } else if str_eq(name, "fish") {
            Ok(ShellType::Fish)
        } else {
            proof {
                assert forall|t: ShellType| name@ != shell_name(t) by {
                    match t {
                        ShellType::WindowsPowershell => assert(name@ != "powershell"@),
                        ShellType::Powershell => assert(name@ != "pwsh"@),
                        ShellType::Cmd => assert(name@ != "cmd"@),
                        ShellType::Bash => assert(name@ != "bash"@),
                        ShellType::Zsh => assert(name@ != "zsh"@),
                        ShellType::Fish => assert(name@ != "fish"@),
                    }
                }
            }
            Err("Incorrect shell name.".to_owned())
        }
    }
}

/// The shell configuration a preset carries: an optional terminal profile
/// name, the launcher shell, and the shell each pane's command runs inside.
#[derive(Debug, Clone, PartialEq)]
pub struct PresetInfo {
    pub wt_profile: String,
    pub init_shell: ShellType,
    pub target_shell: ShellType,
}

impl PresetInfo {
    /// The default configuration: no profile, Windows PowerShell throughout.
    pub fn default() -> (r: PresetInfo)
        ensures
            r.wt_profile@ == Seq::<char>::empty(),
            r.init_shell == ShellType::WindowsPowershell,
            r.target_shell == ShellType::WindowsPowershell,
    {
        PresetInfo {
            wt_profile: String::new(),
            init_shell: ShellType::WindowsPowershell,
            target_shell: ShellType::WindowsPowershell,
        }
    }

    pub fn new(wt_profile: String, init_shell: ShellType, target_shell: ShellType) -> (r:
        PresetInfo)
        ensures
            r.wt_profile == wt_profile,
            r.init_shell == init_shell,
            r.target_shell == target_shell,
    {
        PresetInfo { wt_profile, init_shell, target_shell }
    }
}

/// Identifies which field of a `PresetInfo` an edit targets, carrying the
/// new value.
#[derive(Debug, Clone, PartialEq)]
pub enum PresetInfoValue {
    WtProfile(String),
    InitShell(ShellType),
    TargetShell(ShellType),
}

} // verus!
