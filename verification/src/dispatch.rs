//! The interactive command dispatcher: classifying each operator line,
//! building the external viewer and remote-desktop invocations, and
//! formatting the control-plane responses.  Reading lines and spawning the
//! external clients happen outside the library.

use vstd::prelude::*;

use crate::config::VMBlock;
use crate::strings::extend_clone;
use crate::strings::push_lit;
use crate::strings::push_tok;
use crate::strings::spec_split;
use crate::strings::spec_starts_with;
use crate::strings::spec_trim;
use crate::strings::split_char;
use crate::strings::starts_with_str;
use crate::strings::str_eq;
use crate::strings::trim_str;
use crate::strings::views_of;

verus! {

/// What one operator line asks for, in recognition order: the display
/// viewer, the remote-desktop client, host shell passthrough, help, quit,
/// or a verbatim forward to the guest agent.
pub enum Command {
    Empty,
    Gui,
    Rdp { line: String },
    HostCmd { cmd: String },
    Help,
    Quit,
    Forward { line: String },
}

/// Classify one operator line.  The line is trimmed first; the shell
/// passthrough keyword drops its first four characters (the keyword and the
/// separator) to leave the host command.
pub fn parse_command(raw: &str) -> (c: Command)
    ensures
        ({
            let t = spec_trim(raw@);
            if t.len() == 0 {
                c is Empty
            } else if t == "gui"@ {
                c is Gui
            } else if spec_starts_with(t, "rdp"@) {
                c matches Command::Rdp { line } && line@ == t
            } else if spec_starts_with(t, "cmd"@) {
                c matches Command::HostCmd { cmd } && cmd@ == (if t.len() >= 4 {
                    t.skip(4)
                } else {
                    Seq::<char>::empty()
                })
            } else if t == "help"@ || t == "h"@ {
                c is Help
            } else if t == "quit"@ || t == "exit"@ {
                c is Quit
            } else {
                c matches Command::Forward { line } && line@ == t
            }
        }),
{
    let t = trim_str(raw);
    let n = t.as_str().unicode_len();
    if n == 0 {
        Command::Empty
    } else if str_eq(t.as_str(), "gui") {
        Command::Gui
    } else if starts_with_str(t.as_str(), "rdp") {
        Command::Rdp { line: t }
    } else if starts_with_str(t.as_str(), "cmd") {
        let cmd = if n >= 4 {
            let rest = String::from_str(t.as_str().substring_char(4, n));
            proof {
                assert(t@.subrange(4, t@.len() as int) =~= t@.skip(4));
            }
            rest
        } else {
            String::new()
        };
        Command::HostCmd { cmd }
    } else if str_eq(t.as_str(), "help") || str_eq(t.as_str(), "h") {
        Command::Help
    } else if str_eq(t.as_str(), "quit") || str_eq(t.as_str(), "exit") {
        Command::Quit
    } else {
        Command::Forward { line: t }
    }
}

/// The display viewer's argument list for the local display socket.
pub fn spice_viewer_args(spice_socket: &str) -> (r: Vec<String>)
    ensures
        views_of(r@) == seq!["--uri=spice+unix://"@ + spice_socket@],
{
    let mut arg = String::from_str("--uri=spice+unix://");
    arg.append(spice_socket);
    let mut r: Vec<String> = Vec::new();
    push_tok(&mut r, arg);
    proof {
        assert(views_of(r@) =~~= seq!["--uri=spice+unix://"@ + spice_socket@]);
    }
    r
}

/// The remote-desktop credential actually sent: the environment-sourced
/// value when one was found, the configured one otherwise.
pub open spec fn spec_env_or_config_pass(vm: VMBlock, env_pass: Option<String>) -> Seq<char> {
    match env_pass {
        Some(v) => v@,
        None => vm.rdp_pass@,
    }
}

/// The credential tokens: a password is sent when either the configured
/// password or its environment indirection is set, preferring the
/// environment value whenever an indirection is configured.
pub open spec fn spec_rdp_pass_tokens(vm: VMBlock, env_pass: Option<String>) -> Seq<Seq<char>> {
    if vm.rdp_pass@.len() > 0 {
        if vm.rdp_pass_env@.len() > 0 {
            seq!["/p:"@ + spec_env_or_config_pass(vm, env_pass)]
        } else {
            seq!["/p:"@ + vm.rdp_pass@]
        }
    } else if vm.rdp_pass_env@.len() > 0 {
        seq!["/p:"@ + spec_env_or_config_pass(vm, env_pass)]
    } else {
        Seq::<Seq<char>>::empty()
    }
}

/// The space-joined tokens `lo` (inclusive) to `hi` (exclusive), each
/// preceded by one space; indices past the end contribute nothing.
pub open spec fn spec_join_upto(toks: Seq<Seq<char>>, lo: int, hi: int) -> Seq<char>
    decreases hi - lo,
{
    if hi <= lo {
        Seq::<char>::empty()
    } else {
        spec_join_upto(toks, lo, hi - 1) + (if hi - 1 < toks.len() {
            " "@ + toks[hi - 1]
        } else {
            Seq::<char>::empty()
        })
    }
}

/// The in-guest program tokens: when the line has a second word, it becomes
/// the program, and the program word together with up to ten following words
/// becomes the command line.
pub open spec fn spec_rdp_app_tokens(line: Seq<char>) -> Seq<Seq<char>> {
    let toks = spec_split(line, ' ');
    if toks.len() >= 2 {
        let ca = toks[1] + spec_join_upto(toks, 2, 12);
        seq!["/app:"@ + toks[1]] + (if ca.len() > 0 {
            seq!["/app-cmd:"@ + ca]
        } else {
            Seq::<Seq<char>>::empty()
        })
    } else {
        Seq::<Seq<char>>::empty()
    }
}

/// The remote-desktop client's full argument list: certificate and geometry
/// defaults, the shared drive, the credentials, the loopback target, audio
/// over the connection, reconnection, the optional in-guest program, and
/// the caller's extra arguments last.
pub open spec fn spec_rdp_args(
    vm: VMBlock,
    line: Seq<char>,
    env_pass: Option<String>,
) -> Seq<Seq<char>> {
    seq![
        "/cert:ignore"@,
        "/w:1920"@,
        "/h:1080"@,
        "/drive:DOWNLOADS,/j/downloads"@,
        "/dynamic-resolution"@,
    ] + (if vm.rdp_uname@.len() > 0 {
        seq!["/u:"@ + vm.rdp_uname@]
    } else {
        Seq::<Seq<char>>::empty()
    }) + spec_rdp_pass_tokens(vm, env_pass) + seq![
        "/v:127.0.0.1"@,
        "/audio-mode:0"@,
        "/microphone:sys:alsa"@,
        "/auto-reconnect-max-retries:64"@,
    ] + spec_rdp_app_tokens(line) + views_of(vm.addtl_rdp_args@)
}

/// Build the remote-desktop client's argument list for one `rdp` command
/// line.  `env_pass` is the credential read from the configured environment
/// variable, when that lookup succeeded.
pub fn build_rdp_args(vm: &VMBlock, line: &str, env_pass: &Option<String>) -> (r: Vec<String>)
    ensures
        views_of(r@) == spec_rdp_args(*vm, line@, *env_pass),
{
    let mut r: Vec<String> = Vec::new();
    push_lit(&mut r, "/cert:ignore");
    push_lit(&mut r, "/w:1920");
    push_lit(&mut r, "/h:1080");
    push_lit(&mut r, "/drive:DOWNLOADS,/j/downloads");
    push_lit(&mut r, "/dynamic-resolution");
    let ghost seg1 = seq![
        "/cert:ignore"@,
        "/w:1920"@,
        "/h:1080"@,
        "/drive:DOWNLOADS,/j/downloads"@,
        "/dynamic-resolution"@,
    ];
    proof {
        assert(views_of(r@) =~~= seg1);
    }
    if vm.rdp_uname.as_str().unicode_len() > 0 {
        let mut u = String::from_str("/u:");
        u.append(vm.rdp_uname.as_str());
        push_tok(&mut r, u);
    }
    let ghost seg2 = seg1 + (if vm.rdp_uname@.len() > 0 {
        seq!["/u:"@ + vm.rdp_uname@]
    } else {
        Seq::<Seq<char>>::empty()
    });
    proof {
        assert(views_of(r@) =~~= seg2);
    }
    let has_pass = vm.rdp_pass.as_str().unicode_len() > 0;
    let has_pass_env = vm.rdp_pass_env.as_str().unicode_len() > 0;
    if has_pass || has_pass_env {
        if has_pass && !has_pass_env {
            let mut p = String::from_str("/p:");
            p.append(vm.rdp_pass.as_str());
            push_tok(&mut r, p);
        } else {
            let mut p = String::from_str("/p:");
            match env_pass {
                Some(v) => p.append(v.as_str()),
                None => p.append(vm.rdp_pass.as_str()),
            }
            push_tok(&mut r, p);
        }
    }
    let ghost seg3 = seg2 + spec_rdp_pass_tokens(*vm, *env_pass);
    proof {
        assert(views_of(r@) =~~= seg3);
    }
    push_lit(&mut r, "/v:127.0.0.1");
    push_lit(&mut r, "/audio-mode:0");
    push_lit(&mut r, "/microphone:sys:alsa");
    push_lit(&mut r, "/auto-reconnect-max-retries:64");
    let ghost seg4 = seg3 + seq![
        "/v:127.0.0.1"@,
        "/audio-mode:0"@,
        "/microphone:sys:alsa"@,
        "/auto-reconnect-max-retries:64"@,
    ];
    proof {
        assert(views_of(r@) =~~= seg4);
    }
    let toks = split_char(line, ' ');
    if toks.len() >= 2 {
        let mut app = String::from_str("/app:");
        app.append(toks[1].as_str());
        push_tok(&mut r, app);
        let mut ca = toks[1].clone();
        let mut i: usize = 2;
        while i < 12
            invariant
                2 <= i <= 12,
                views_of(toks@) == spec_split(line@, ' '),
                toks@.len() >= 2,
                ca@ == views_of(toks@)[1] + spec_join_upto(views_of(toks@), 2, i as int),
            decreases 12 - i,
        {
            if i < toks.len() {
                ca.append(" ");
                ca.append(toks[i].as_str());
                proof {
                    assert(ca@ =~= views_of(toks@)[1] + spec_join_upto(
                        views_of(toks@),
                        2,
                        i + 1,
                    ));
                }
            } else {
                proof {
                    assert(ca@ =~= views_of(toks@)[1] + spec_join_upto(
                        views_of(toks@),
                        2,
                        i + 1,
                    ));
                }
            }
            i += 1;
        }
        if ca.as_str().unicode_len() > 0 {
            let mut cat = String::from_str("/app-cmd:");
            cat.append(ca.as_str());
            push_tok(&mut r, cat);
        }
    }
    let ghost seg5 = seg4 + spec_rdp_app_tokens(line@);
    proof {
        assert(views_of(r@) =~~= seg5);
    }
    extend_clone(&mut r, &vm.addtl_rdp_args);
    proof {
        assert(views_of(r@) =~~= spec_rdp_args(*vm, line@, *env_pass));
    }
    r
}

/// The remote-desktop client binary: the native one for the display server
/// the environment reports.
pub fn freerdp_binary(wayland_display: &Option<String>) -> (r: &'static str)
    ensures
        (wayland_display is Some && wayland_display->0@.len() > 0) ==> r@ == "wlfreerdp"@,
        !(wayland_display is Some && wayland_display->0@.len() > 0) ==> r@ == "xfreerdp"@,
{
    match wayland_display {
        Some(v) => {
            if v.as_str().unicode_len() > 0 {
                "wlfreerdp"
            } else {
                "xfreerdp"
            }
        },
        None => "xfreerdp",
    }
}

/// The line printed for a successful guest-agent information query.
pub fn guest_info_response_line(version: &str) -> (r: String)
    ensures
        r@ == "Guest Agent version: "@ + version@,
{
    let mut r = String::from_str("Guest Agent version: ");
    r.append(version);
    r
}

/// The dispatcher's help text.
pub fn help_text() -> (r: &'static str)
    ensures
        r@
            == "Commands:\n- gui\n    Opens SPICE client\n- rdp\n    Opens RDP client to 127.0.0.1:3389\n- cmd COMMAND\n    runs given shell command (eg toggle-aoc or similar) on the Host\n- help\n    Show this help\n- exit / quit\n    Kill VM and exit\n- *\n    Run as command in VM, returning output.\n"@,
{
    "Commands:\n- gui\n    Opens SPICE client\n- rdp\n    Opens RDP client to 127.0.0.1:3389\n- cmd COMMAND\n    runs given shell command (eg toggle-aoc or similar) on the Host\n- help\n    Show this help\n- exit / quit\n    Kill VM and exit\n- *\n    Run as command in VM, returning output.\n"
}

} // verus!
