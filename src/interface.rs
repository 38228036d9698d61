//! The startup script that hands the resolved endpoint and repository path
//! to the application's interface.
use vstd::prelude::*;
use vstd::string::StringExecFns;
use crate::shell::{decimal_of, digit_char, push_decimal};

verus! {

/// The lowercase hexadecimal digit for `n`, below 16.
pub open spec fn hex_digit(n: nat) -> char {
    if n < 10 {
        digit_char(n)
    } else if n == 10 {
        'a'
    } else if n == 11 {
        'b'
    } else if n == 12 {
        'c'
    } else if n == 13 {
        'd'
    } else if n == 14 {
        'e'
    } else {
        'f'
    }
}

/// How a JSON string literal writes `c`: quote and backslash escaped with a
/// backslash, backspace, tab, line feed, form feed and carriage return by
/// their short escapes, the other characters below 0x20 as `\u00xx`, and
/// every other character as itself.
pub open spec fn json_escape(c: char) -> Seq<char> {
    if c == '"' {
        seq!['\\', '"']
    } else if c == '\\' {
        seq!['\\', '\\']
    } else if c as u32 == 0x08 {
        seq!['\\', 'b']
    } else if c as u32 == 0x09 {
        seq!['\\', 't']
    } else if c as u32 == 0x0a {
        seq!['\\', 'n']
    } else if c as u32 == 0x0c {
        seq!['\\', 'f']
    } else if c as u32 == 0x0d {
        seq!['\\', 'r']
    } else if (c as u32) < 0x20 {
        seq!['\\', 'u', '0', '0', hex_digit((c as u32 / 16) as nat), hex_digit((c as u32 % 16) as nat)]
    } else {
        seq![c]
    }
}

/// Each character of `s` as a JSON string literal writes it.
pub open spec fn json_escaped(s: Seq<char>) -> Seq<char>
    decreases s.len(),
{
    if s.len() == 0 {
        Seq::empty()
    } else {
        json_escaped(s.drop_last()) + json_escape(s.last())
    }
}

/// The JSON string literal for `s`: its escaped characters in double quotes.
pub open spec fn json_text(s: Seq<char>) -> Seq<char> {
    seq!['"'] + json_escaped(s) + seq!['"']
}

/// Relies on `serde_json::to_string` on a string: it writes the string as a
/// JSON literal through its escape table into a byte vector, which cannot fail.
#[verifier::external_body]
fn encode_json_string(s: &str) -> (r: String)
    ensures
        r@ == json_text(s@),
{
    serde_json::to_string(s).unwrap_or_default()
}

/// The script that sets the interface's port and repository path, given the
/// path already written as a JavaScript literal.
pub open spec fn init_script(port: u32, path_literal: Seq<char>) -> Seq<char> {
    "window.__OPENTUI__ = window.__OPENTUI__ || {};\nwindow.__OPENTUI__.port = "@ + decimal_of(
        port as nat,
    ) + ";\nwindow.__OPENTUI__.repoPath = "@ + path_literal + ";\n"@
}

/// Builds the startup script from the port and the repository path written
/// as a literal.
pub fn build_init_script(port: u32, path_literal: &str) -> (r: String)
    ensures
        r@ == init_script(port, path_literal@),
{
    let mut out = String::from_str(
        "window.__OPENTUI__ = window.__OPENTUI__ || {};\nwindow.__OPENTUI__.port = ",
    );
    push_decimal(&mut out, port);
    out.append(";\nwindow.__OPENTUI__.repoPath = ");
    out.append(path_literal);
    out.append(";\n");
    out
}

/// The startup script for `port` and `repo`, the path encoded as a JSON
/// string literal.
pub fn startup_script(port: u32, repo: &str) -> (r: String)
    ensures
        r@ == init_script(port, json_text(repo@)),
{
    let literal = encode_json_string(repo);
    build_init_script(port, literal.as_str())
}

} // verus!
