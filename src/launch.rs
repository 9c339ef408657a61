use vstd::prelude::*;
use vstd::string::StringExecFns;

verus! {

/// The program that opens an interactive terminal.
#[derive(Clone, Copy, Debug, PartialEq, Eq, Structural)]
pub enum Launcher {
    WindowsConsole,
    Xterm,
    GnomeTerminal,
    DefaultTerminal,
}

/// The launcher for this platform: the Windows console on Windows; elsewhere
/// xterm when installed, else GNOME Terminal when installed, else the system's
/// default terminal emulator.
pub fn pick_launcher(windows: bool, has_xterm: bool, has_gnome_terminal: bool) -> (r: Launcher)
    ensures
        r == (if windows {
            Launcher::WindowsConsole
        } else if has_xterm {
            Launcher::Xterm
        } else if has_gnome_terminal {
            Launcher::GnomeTerminal
        } else {
            Launcher::DefaultTerminal
        }),
{
    if windows {
        Launcher::WindowsConsole
    } else if has_xterm {
        Launcher::Xterm
    } else if has_gnome_terminal {
        Launcher::GnomeTerminal
    } else {
        Launcher::DefaultTerminal
    }
}

/// A shell line that runs `command`, then leaves an interactive shell open.
pub open spec fn keep_open_text(command: Seq<char>) -> Seq<char> {
    "bash -c '"@ + command + " && bash'"@
}

/// The program and arguments that run `command` in a new terminal window.
pub open spec fn terminal_argv(launcher: Launcher, command: Seq<char>) -> Seq<Seq<char>> {
    match launcher {
        Launcher::WindowsConsole => seq!["cmd"@, "/c"@, "start"@, "cmd"@, "/k"@, command],
        Launcher::Xterm => seq!["xterm"@, "-e"@, keep_open_text(command)],
        Launcher::GnomeTerminal => seq!["gnome-terminal"@, "-e"@, keep_open_text(command)],
        Launcher::DefaultTerminal => seq!["x-terminal-emulator"@, "-e"@, keep_open_text(command)],
    }
}

/// The program and arguments that run `command` through the platform's shell.
pub open spec fn shell_argv(windows: bool, command: Seq<char>) -> Seq<Seq<char>> {
    if windows {
        seq!["cmd"@, "/c"@, command]
    } else {
        seq!["sh"@, "-c"@, command]
    }
}

/// The program and arguments that run `command` in a new terminal window.
pub fn terminal_invocation(launcher: Launcher, command: &str) -> (r: Vec<String>)
    ensures
        r.deep_view() == terminal_argv(launcher, command@),
{
    let mut r: Vec<String> = Vec::new();
    match launcher {
        Launcher::WindowsConsole => {
            r.push(String::from_str("cmd"));
            r.push(String::from_str("/c"));
            r.push(String::from_str("start"));
            r.push(String::from_str("cmd"));
            r.push(String::from_str("/k"));
            r.push(String::from_str(command));
        },
        _ => {
            let program = match launcher {
                Launcher::Xterm => String::from_str("xterm"),
                Launcher::GnomeTerminal => String::from_str("gnome-terminal"),
                _ => String::from_str("x-terminal-emulator"),
            };
            let mut line = String::from_str("bash -c '");
            line.append(command);
            line.append(" && bash'");
            r.push(program);
            r.push(String::from_str("-e"));
            r.push(line);
        },
    }
    assert(r.deep_view() =~= terminal_argv(launcher, command@));
    r
}

/// The program and arguments that run `command` through the platform's shell.
pub fn shell_invocation(windows: bool, command: &str) -> (r: Vec<String>)
    ensures
        r.deep_view() == shell_argv(windows, command@),
{
    let mut r: Vec<String> = Vec::new();
    if windows {
        r.push(String::from_str("cmd"));
        r.push(String::from_str("/c"));
    } else {
        r.push(String::from_str("sh"));
        r.push(String::from_str("-c"));
    }
    r.push(String::from_str(command));
    assert(r.deep_view() =~= shell_argv(windows, command@));
    r
}

} // verus!
