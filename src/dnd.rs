//! The Do-Not-Disturb status bridge.
//!
//! Each platform keeps the DND state in a different place (a preference
//! key, a registry value, a session-bus presence code). The bridge says which
//! tool invocation reads or writes it, and reads the tool's loosely structured
//! output back into one boolean. Running the tool is left to the caller, who
//! hands back what it printed, or `None` where it could not be run.
use vstd::prelude::*;

use crate::text::{all_blank, is_blank_char, occurs_at, chars_of, contains_chars, contains_pattern, trimmed_is_char, trims_to_char};

verus! {

/// The platform whose DND backend is used.
#[derive(Clone, Copy, Debug, PartialEq, Eq, Structural)]
pub enum Platform {
    MacOs,
    Windows,
    Linux,
    Unsupported,
}

/// A program and its arguments, to be run as one external process.
#[derive(Debug)]
pub struct ShellCommand {
    pub program: &'static str,
    pub args: Vec<&'static str>,
}

impl View for ShellCommand {
    type V = (Seq<char>, Seq<Seq<char>>);

    open spec fn view(&self) -> (Seq<char>, Seq<Seq<char>>) {
        (self.program@, self.args@.map_values(|a: &'static str| a@))
    }
}

/// The arguments of a command, or none where there is no command.
pub open spec fn command_args(c: Option<(Seq<char>, Seq<Seq<char>>)>) -> Seq<Seq<char>> {
    match c {
        Some(c) => c.1,
        None => Seq::empty(),
    }
}

/// The value written to the platform's store to turn DND on or off.
pub open spec fn set_token(p: Platform, enabled: bool) -> Seq<char> {
    match p {
        Platform::MacOs => if enabled { seq!['1'] } else { seq!['0'] },
        Platform::Windows => if enabled { seq!['0'] } else { seq!['1'] },
        Platform::Linux => if enabled { seq!['2'] } else { seq!['0'] },
        Platform::Unsupported => Seq::empty(),
    }
}

/// The invocation that reads the DND indicator; none on an unsupported platform.
pub open spec fn query_command(p: Platform) -> Option<(Seq<char>, Seq<Seq<char>>)> {
    match p {
        Platform::MacOs => Some(
            (
                "defaults"@,
                seq![
                    "-currentHost"@,
                    "read"@,
                    "com.apple.notificationcenterui"@,
                    "doNotDisturb"@,
                ],
            ),
        ),
        Platform::Windows => Some(
            (
                "reg"@,
                seq![
                    "query"@,
                    "HKCU\\SOFTWARE\\Microsoft\\Windows\\CurrentVersion\\Notifications\\Settings"@,
                    "/v"@,
                    "NOC_GLOBAL_SETTING_TOASTS_ENABLED"@,
                ],
            ),
        ),
        Platform::Linux => Some(
            (
                "gdbus"@,
                seq![
                    "call"@,
                    "--session"@,
                    "--dest"@,
                    "org.gnome.SessionManager"@,
                    "--object-path"@,
                    "/org/gnome/SessionManager/Presence"@,
                    "--method"@,
                    "org.gnome.SessionManager.Presence.GetStatus"@,
                ],
            ),
        ),
        Platform::Unsupported => None,
    }
}

/// The invocation that writes `set_token(p, enabled)` to the platform's store;
/// none on an unsupported platform.
pub open spec fn set_command(p: Platform, enabled: bool) -> Option<(Seq<char>, Seq<Seq<char>>)> {
    match p {
        Platform::MacOs => Some(
            (
                "defaults"@,
                seq![
                    "-currentHost"@,
                    "write"@,
                    "com.apple.notificationcenterui"@,
                    "doNotDisturb"@,
                    set_token(p, enabled),
                ],
            ),
        ),
        Platform::Windows => Some(
            (
                "reg"@,
                seq![
                    "add"@,
                    "HKCU\\SOFTWARE\\Microsoft\\Windows\\CurrentVersion\\Notifications\\Settings"@,
                    "/v"@,
                    "NOC_GLOBAL_SETTING_TOASTS_ENABLED"@,
                    "/t"@,
                    "REG_DWORD"@,
                    "/d"@,
                    set_token(p, enabled),
                    "/f"@,
                ],
            ),
        ),
        Platform::Linux => Some(
            (
                "gdbus"@,
                seq![
                    "call"@,
                    "--session"@,
                    "--dest"@,
                    "org.gnome.SessionManager"@,
                    "--object-path"@,
                    "/org/gnome/SessionManager/Presence"@,
                    "--method"@,
                    "org.gnome.SessionManager.Presence.SetStatus"@,
                    set_token(p, enabled),
                ],
            ),
        ),
        Platform::Unsupported => None,
    }
}

/// What the query tool's output must show for DND to count as active: on
/// macOS the trimmed output is `1`; on Windows it holds `0x0` anywhere (toasts
/// disabled); on Linux it holds the digit `2` anywhere (presence "busy").
pub open spec fn reports_active(p: Platform, out: Seq<char>) -> bool {
    match p {
        Platform::MacOs => trims_to_char(out, '1'),
        Platform::Windows => contains_chars(out, seq!['0', 'x', '0']),
        Platform::Linux => contains_chars(out, seq!['2']),
        Platform::Unsupported => false,
    }
}

/// The command that reads the DND indicator on `p`, or `None` where `p` has no
/// backend.
pub fn dnd_query_command(p: Platform) -> (r: Option<ShellCommand>)
    ensures
        match r {
            Some(c) => query_command(p) == Some(c@),
            None => query_command(p) is None,
        },
{
    match p {
        Platform::MacOs => {
            let c = ShellCommand {
                program: "defaults",
                args: vec!["-currentHost", "read", "com.apple.notificationcenterui", "doNotDisturb"],
            };
            assert(c@.1 =~= command_args(query_command(p)));
            Some(c)
        },
        Platform::Windows => {
            let c = ShellCommand {
                program: "reg",
                args: vec![
                    "query",
                    "HKCU\\SOFTWARE\\Microsoft\\Windows\\CurrentVersion\\Notifications\\Settings",
                    "/v",
                    "NOC_GLOBAL_SETTING_TOASTS_ENABLED",
                ],
            };
            assert(c@.1 =~= command_args(query_command(p)));
            Some(c)
        },
        Platform::Linux => {
            let c = ShellCommand {
                program: "gdbus",
                args: vec![
                    "call",
                    "--session",
                    "--dest",
                    "org.gnome.SessionManager",
                    "--object-path",
                    "/org/gnome/SessionManager/Presence",
                    "--method",
                    "org.gnome.SessionManager.Presence.GetStatus",
                ],
            };
            assert(c@.1 =~= command_args(query_command(p)));
            Some(c)
        },
        Platform::Unsupported => None,
    }
}

/// The command that writes the DND state `enabled` on `p`, or `None` where `p`
/// has no backend.
pub fn dnd_set_command(p: Platform, enabled: bool) -> (r: Option<ShellCommand>)
    ensures
        match r {
            Some(c) => set_command(p, enabled) == Some(c@),
            None => set_command(p, enabled) is None,
        },
{
    proof {
        reveal_strlit("0");
        reveal_strlit("1");
        reveal_strlit("2");
    }
    match p {
        Platform::MacOs => {
            let value = if enabled { "1" } else { "0" };
            assert(value@ =~= set_token(p, enabled));
            let c = ShellCommand {
                program: "defaults",
                args: vec!["-currentHost", "write", "com.apple.notificationcenterui", "doNotDisturb", value],
            };
            assert(c@.1 =~= command_args(set_command(p, enabled)));
            Some(c)
        },
        Platform::Windows => {
            let value = if enabled { "0" } else { "1" };
            assert(value@ =~= set_token(p, enabled));
            let c = ShellCommand {
                program: "reg",
                args: vec![
                    "add",
                    "HKCU\\SOFTWARE\\Microsoft\\Windows\\CurrentVersion\\Notifications\\Settings",
                    "/v",
                    "NOC_GLOBAL_SETTING_TOASTS_ENABLED",
                    "/t",
                    "REG_DWORD",
                    "/d",
                    value,
                    "/f",
                ],
            };
            assert(c@.1 =~= command_args(set_command(p, enabled)));
            Some(c)
        },
        Platform::Linux => {
            let value = if enabled { "2" } else { "0" };
            assert(value@ =~= set_token(p, enabled));
            let c = ShellCommand {
                program: "gdbus",
                args: vec![
                    "call",
                    "--session",
                    "--dest",
                    "org.gnome.SessionManager",
                    "--object-path",
                    "/org/gnome/SessionManager/Presence",
                    "--method",
                    "org.gnome.SessionManager.Presence.SetStatus",
                    value,
                ],
            };
            assert(c@.1 =~= command_args(set_command(p, enabled)));
            Some(c)
        },
        Platform::Unsupported => None,
    }
}

/// Whether the query tool's output `out` shows DND as active on `p`.
pub fn output_reports_active(p: Platform, out: &str) -> (r: bool)
    ensures
        r == reports_active(p, out@),
{
    match p {
        Platform::MacOs => {
            let chars = chars_of(out);
            trimmed_is_char(&chars, '1')
        },
        Platform::Windows => {
            let chars = chars_of(out);
            let marker = vec!['0', 'x', '0'];
            assert(marker@ =~= seq!['0', 'x', '0']);
            contains_pattern(&chars, &marker)
        },
        Platform::Linux => {
            let chars = chars_of(out);
            let marker = vec!['2'];
            assert(marker@ =~= seq!['2']);
            contains_pattern(&chars, &marker)
        },
        Platform::Unsupported => false,
    }
}

/// The DND status on `p`, from what the query tool printed (`None` where it
/// could not be run). A failed run and an unsupported platform read as "not
/// active"; no error is ever surfaced.
pub fn dnd_status_from_output(p: Platform, output: Option<&str>) -> (r: bool)
    ensures
        r == match output {
            Some(out) => reports_active(p, out@),
            None => false,
        },
        p == Platform::Unsupported ==> !r,
{
    match output {
        Some(out) => output_reports_active(p, out),
        None => false,
    }
}

/// Whether setting DND on `p` succeeded, from the set tool's exit status
/// (`Some(true)` for a successful exit, `None` where it could not be run).
/// An unsupported platform never succeeds.
pub fn dnd_set_outcome(p: Platform, exit_success: Option<bool>) -> (r: bool)
    ensures
        r == (p != Platform::Unsupported && exit_success == Some(true)),
{
    match p {
        Platform::Unsupported => false,
        _ => match exit_success {
            Some(ok) => ok,
            None => false,
        },
    }
}

/// `c` occurs nowhere in `s`.
pub open spec fn lacks_char(s: Seq<char>, c: char) -> bool {
    forall|i: int| 0 <= i < s.len() ==> #[trigger] s[i] != c
}

/// How the query tool shows a stored value `v`: macOS and Linux print it as
/// it is, Windows prints a `REG_DWORD` in hex (`0x` followed by the digits).
pub open spec fn shown_value(p: Platform, v: Seq<char>) -> Seq<char> {
    match p {
        Platform::Windows => seq!['0', 'x'] + v,
        _ => v,
    }
}

/// Text printed around the value that the loose reading of `p` cannot take
/// for a DND signal: whitespace on macOS, text without a `0` on Windows,
/// text without a `2` on Linux.
pub open spec fn neutral_noise(p: Platform, s: Seq<char>) -> bool {
    match p {
        Platform::MacOs => all_blank(s),
        Platform::Windows => lacks_char(s, '0'),
        Platform::Linux => lacks_char(s, '2'),
        Platform::Unsupported => true,
    }
}

/// Setting then querying agrees: on a supported platform, once the set
/// command has stored its value, a query whose output shows that value with
/// neutral text around it reads back exactly the state that was set.
pub proof fn set_then_query_reads_back(p: Platform, enabled: bool, pre: Seq<char>, post: Seq<char>)
    requires
        p != Platform::Unsupported,
        neutral_noise(p, pre),
        neutral_noise(p, post),
    ensures
        reports_active(p, pre + shown_value(p, set_token(p, enabled)) + post) == enabled,
{
    let mid = shown_value(p, set_token(p, enabled));
    let s = pre + mid + post;
    let a = pre.len() as int;
    let b = a + mid.len();
    assert forall|i: int| 0 <= i < s.len() && !(a <= i < b) implies (s[i] == pre[i] || s[i] == post[i - b]) && neutral_at(p, s[i]) by {
        if i < a {
            assert(s[i] == pre[i]);
        } else {
            assert(s[i] == post[i - b]);
        }
    }
    match p {
        Platform::MacOs => {
            if enabled {
                assert(s[a] == '1');
                assert(forall|j: int| 0 <= j < s.len() && j != a ==> is_blank_char(#[trigger] s[j]));
            } else {
                assert(s[a] == '0');
                assert forall|k: int| 0 <= k < s.len() implies #[trigger] s[k] != '1' by {}
            }
        },
        Platform::Windows => {
            if enabled {
                assert(s.subrange(a, a + 3) =~= seq!['0', 'x', '0']);
                assert(occurs_at(s, seq!['0', 'x', '0'], a));
            } else {
                assert forall|k: int| !occurs_at(s, seq!['0', 'x', '0'], k) by {
                    if occurs_at(s, seq!['0', 'x', '0'], k) {
                        assert(s.subrange(k, k + 3)[0] == '0');
                        assert(s.subrange(k, k + 3)[2] == '0');
                        assert(s[k] == '0');
                        assert(s[k + 2] == '0');
                        assert(s[a + 2] == '1');
                    }
                }
            }
        },
        Platform::Linux => {
            if enabled {
                assert(s.subrange(a, a + 1) =~= seq!['2']);
                assert(occurs_at(s, seq!['2'], a));
            } else {
                assert forall|k: int| !occurs_at(s, seq!['2'], k) by {
                    if occurs_at(s, seq!['2'], k) {
                        assert(s.subrange(k, k + 1)[0] == '2');
                        assert(s[k] == '2');
                        assert(s[a] == '0');
                    }
                }
            }
        },
        Platform::Unsupported => {},
    }
}

/// A character of neutral text on `p`.
spec fn neutral_at(p: Platform, c: char) -> bool {
    match p {
        Platform::MacOs => is_blank_char(c),
        Platform::Windows => c != '0',
        Platform::Linux => c != '2',
        Platform::Unsupported => true,
    }
}

} // verus!
