//! How the sidecar is invoked: directly with its arguments, or through the
//! user's login shell with one command string.
use vstd::prelude::*;
use vstd::string::StrSliceExecFns;
use vstd::string::StringExecFns;

verus! {

/// The character of the decimal digit `d`.
pub open spec fn digit_char(d: nat) -> char {
    if d == 0 { '0' }
    else if d == 1 { '1' }
    else if d == 2 { '2' }
    else if d == 3 { '3' }
    else if d == 4 { '4' }
    else if d == 5 { '5' }
    else if d == 6 { '6' }
    else if d == 7 { '7' }
    else if d == 8 { '8' }
    else { '9' }
}

/// `n` written in decimal, without leading zeros.
pub open spec fn decimal_of(n: nat) -> Seq<char>
    decreases n,
{
    if n < 10 {
        seq![digit_char(n)]
    } else {
        decimal_of(n / 10) + seq![digit_char(n % 10)]
    }
}

pub open spec fn fish_suffix() -> Seq<char> {
    seq!['/', 'f', 'i', 's', 'h']
}

/// A shell of the fish family: named `fish`, or a path whose last part is `fish`.
pub open spec fn is_fish(shell: Seq<char>) -> bool {
    shell == seq!['f', 'i', 's', 'h'] || (shell.len() >= 5 && shell.subrange(
        shell.len() - 5,
        shell.len() as int,
    ) == fish_suffix())
}

/// The flags that put a shell of the given family in login mode before `-c`:
/// fish takes `-l -c`, every other shell `-il -c`.
pub open spec fn shell_flags(fish: bool) -> Seq<Seq<char>> {
    if fish {
        seq![seq!['-', 'l'], seq!['-', 'c']]
    } else {
        seq![seq!['-', 'i', 'l'], seq!['-', 'c']]
    }
}

pub open spec fn default_shell() -> Seq<char> {
    seq!['/', 'b', 'i', 'n', '/', 's', 'h']
}

/// The shell configured in the environment, or the POSIX shell.
pub open spec fn user_shell(env_value: Option<Seq<char>>) -> Seq<char> {
    match env_value {
        Some(v) => v,
        None => default_shell(),
    }
}

/// The single command string handed to the shell:
/// `<exe> --port <port> --repo "<repo>"`.
pub open spec fn command_line(exe: Seq<char>, port: u32, repo: Seq<char>) -> Seq<char> {
    exe + " --port "@ + decimal_of(port as nat) + " --repo \""@ + repo + "\""@
}

/// The arguments of a direct invocation: `--port <port> --repo <repo>`.
pub open spec fn direct_args(port: u32, repo: Seq<char>) -> Seq<Seq<char>> {
    seq!["--port"@, decimal_of(port as nat), "--repo"@, repo]
}

/// The arguments of a shell invocation: the login flags, then the command.
pub open spec fn shell_args(shell: Seq<char>, exe: Seq<char>, port: u32, repo: Seq<char>) -> Seq<
    Seq<char>,
> {
    shell_flags(is_fish(shell)).push(command_line(exe, port, repo))
}

fn digit_str(d: u32) -> (r: &'static str)
    requires
        d < 10,
    ensures
        r@ == seq![digit_char(d as nat)],
{
    proof {
        reveal_strlit("0");
        reveal_strlit("1");
        reveal_strlit("2");
        reveal_strlit("3");
        reveal_strlit("4");
        reveal_strlit("5");
        reveal_strlit("6");
        reveal_strlit("7");
        reveal_strlit("8");
        reveal_strlit("9");
    }
    let r = match d {
        0 => "0",
        1 => "1",
        2 => "2",
        3 => "3",
        4 => "4",
        5 => "5",
        6 => "6",
        7 => "7",
        8 => "8",
        _ => "9",
    };
    assert(r@ =~= seq![digit_char(d as nat)]);
    r
}

/// Appends `n` in decimal to `out`.
pub fn push_decimal(out: &mut String, n: u32)
    ensures
        final(out)@ == old(out)@ + decimal_of(n as nat),
    decreases n,
{
    if n >= 10 {
        push_decimal(out, n / 10);
    }
    out.append(digit_str(n % 10));
    assert(final(out)@ =~= old(out)@ + decimal_of(n as nat));
}

/// `n` in decimal.
pub fn decimal_string(n: u32) -> (r: String)
    ensures
        r@ == decimal_of(n as nat),
{
    let mut out = String::new();
    push_decimal(&mut out, n);
    assert(out@ =~= decimal_of(n as nat));
    out
}

/// The shell named by the environment's shell setting, or `/bin/sh` when it is unset.
pub fn get_user_shell(env_value: Option<String>) -> (r: String)
    ensures
        r@ == user_shell(
            match env_value {
                Some(v) => Some(v@),
                None => None,
            },
        ),
{
    match env_value {
        Some(v) => v,
        None => {
            proof {
                reveal_strlit("/bin/sh");
            }
            let r = String::from_str("/bin/sh");
            assert(r@ =~= default_shell());
            r
        },
    }
}

/// Whether `shell` is fish, which takes other mode flags than POSIX shells.
pub fn is_fish_shell(shell: &str) -> (r: bool)
    ensures
        r == is_fish(shell@),
{
    let n = shell.unicode_len();
    if n == 4 && shell.get_char(0) == 'f' && shell.get_char(1) == 'i' && shell.get_char(2) == 's'
        && shell.get_char(3) == 'h' {
        assert(shell@ =~= seq!['f', 'i', 's', 'h']);
        return true;
    }
    if n >= 5 && shell.get_char(n - 5) == '/' && shell.get_char(n - 4) == 'f' && shell.get_char(
        n - 3,
    ) == 'i' && shell.get_char(n - 2) == 's' && shell.get_char(n - 1) == 'h' {
        assert(shell@.subrange(n - 5, n as int) =~= fish_suffix());
        return true;
    }
    proof {
        if shell@ == seq!['f', 'i', 's', 'h'] {
            assert(shell@[0] == 'f' && shell@[1] == 'i' && shell@[2] == 's' && shell@[3] == 'h');
        }
        if shell@.len() >= 5 && shell@.subrange(n - 5, n as int) == fish_suffix() {
            assert(shell@.subrange(n - 5, n as int)[0] == '/');
            assert(shell@.subrange(n - 5, n as int)[1] == 'f');
            assert(shell@.subrange(n - 5, n as int)[2] == 'i');
            assert(shell@.subrange(n - 5, n as int)[3] == 's');
            assert(shell@.subrange(n - 5, n as int)[4] == 'h');
        }
    }
    false
}

/// The flags that start `shell` as a login shell, ending with the flag that
/// takes a command string.
pub fn get_shell_flags(shell: &str) -> (r: Vec<&'static str>)
    ensures
        r@.len() == 2,
        forall|i: int| 0 <= i < 2 ==> #[trigger] r@[i]@ == shell_flags(is_fish(shell@))[i],
{
    proof {
        reveal_strlit("-l");
        reveal_strlit("-il");
        reveal_strlit("-c");
    }
    let r = if is_fish_shell(shell) {
        vec!["-l", "-c"]
    } else {
        vec!["-il", "-c"]
    };
    assert(r@[0]@ =~= shell_flags(is_fish(shell@))[0]);
    assert(r@[1]@ =~= shell_flags(is_fish(shell@))[1]);
    r
}

/// The command string that a shell runs to start the sidecar at `exe`,
/// with the repository path in double quotes.
pub fn build_command_line(exe: &str, port: u32, repo: &str) -> (r: String)
    ensures
        r@ == command_line(exe@, port, repo@),
{
    let mut out = String::from_str(exe);
    out.append(" --port ");
    push_decimal(&mut out, port);
    out.append(" --repo \"");
    out.append(repo);
    out.append("\"");
    out
}

/// The arguments for starting the sidecar directly.
pub fn build_direct_args(port: u32, repo: &str) -> (r: Vec<String>)
    ensures
        r@.len() == 4,
        forall|i: int| 0 <= i < 4 ==> #[trigger] r@[i]@ == direct_args(port, repo@)[i],
{
    let mut r: Vec<String> = Vec::new();
    r.push(String::from_str("--port"));
    r.push(decimal_string(port));
    r.push(String::from_str("--repo"));
    r.push(String::from_str(repo));
    r
}

/// The arguments for `shell`: its login flags, then the command string
/// that starts the sidecar at `exe`.
pub fn build_shell_args(shell: &str, exe: &str, port: u32, repo: &str) -> (r: Vec<String>)
    ensures
        r@.len() == 3,
        forall|i: int| 0 <= i < 3 ==> #[trigger] r@[i]@ == shell_args(shell@, exe@, port, repo@)[i],
{
    let flags = get_shell_flags(shell);
    let mut r: Vec<String> = Vec::new();
    r.push(String::from_str(flags[0]));
    r.push(String::from_str(flags[1]));
    r.push(build_command_line(exe, port, repo));
    r
}

/// How the sidecar is started on this host, chosen once at startup.
pub enum LaunchStrategy {
    /// The sidecar executable is started with its own arguments.
    Direct,
    /// The sidecar is started by the user's login shell, so that the
    /// user's environment and search path apply.
    ViaShell,
}

/// A program and the arguments to start it with.
pub struct LaunchPlan {
    pub program: String,
    pub args: Vec<String>,
}

/// Plans the start of the sidecar `exe` for `port` and `repo`: directly,
/// or through `shell`.
pub fn plan_launch(strategy: LaunchStrategy, shell: &str, exe: &str, port: u32, repo: &str) -> (r:
    LaunchPlan)
    ensures
        ({
            let expected = match strategy {
                LaunchStrategy::Direct => direct_args(port, repo@),
                LaunchStrategy::ViaShell => shell_args(shell@, exe@, port, repo@),
            };
            &&& r.program@ == match strategy {
                LaunchStrategy::Direct => exe@,
                LaunchStrategy::ViaShell => shell@,
            }
            &&& r.args@.len() == expected.len()
            &&& forall|i: int| 0 <= i < expected.len() ==> #[trigger] r.args@[i]@ == expected[i]
        }),
{
    match strategy {
        LaunchStrategy::Direct => LaunchPlan {
            program: String::from_str(exe),
            args: build_direct_args(port, repo),
        },
        LaunchStrategy::ViaShell => LaunchPlan {
            program: String::from_str(shell),
            args: build_shell_args(shell, exe, port, repo),
        },
    }
}

} // verus!
