//! The scripts that drive the decoration runtime inside the webview.
//!
//! Every script names its target installation by the decimal window
//! generation and document token, each as a JSON string, so a runtime that
//! belongs to another window or document ignores it.

use crate::lifecycle::FrontendTarget;
use crate::tokens::{decimal, decimal_string, digit_char};
use vstd::prelude::*;

verus! {

/// The serialization error of `serde_json`.
#[verifier::external_type_specification]
#[verifier::external_body]
pub struct ExJsonError(serde_json::Error);

/// The platform adapter a decoration runtime installs.
#[derive(Clone, Copy, Debug, Eq, PartialEq, Structural)]
pub enum Platform {
    Macos,
    Windows,
    Linux,
}

pub open spec fn platform_name(platform: Platform) -> Seq<char> {
    match platform {
        Platform::Macos => "macos"@,
        Platform::Windows => "windows"@,
        Platform::Linux => "linux"@,
    }
}

impl Platform {
    /// The lowercase name the frontend knows the platform by.
    pub fn name(self) -> (r: &'static str)
        ensures
            r@ == platform_name(self),
    {
        match self {
            Platform::Macos => "macos",
            Platform::Windows => "windows",
            Platform::Linux => "linux",
        }
    }
}

/// Why a script could not be built.
#[derive(Debug)]
pub enum ScriptError {
    /// A value could not be written as JSON.
    Json(serde_json::Error),
}

/// The lowercase hexadecimal digit of `d < 16`.
pub open spec fn hex_digit(d: nat) -> char {
    if d < 10 {
        digit_char(d)
    } else {
        ((d - 10 + 'a' as nat) as u32) as char
    }
}

/// How a JSON string literal spells the character `c`: quotes, backslashes
/// and control characters are escaped, everything else stands for itself.
pub open spec fn json_escape_char(c: char) -> Seq<char> {
    let v = c as u32;
    if c == '"' {
        seq!['\\', '"']
    } else if c == '\\' {
        seq!['\\', '\\']
    } else if v == 0x08 {
        seq!['\\', 'b']
    } else if v == 0x09 {
        seq!['\\', 't']
    } else if v == 0x0A {
        seq!['\\', 'n']
    } else if v == 0x0C {
        seq!['\\', 'f']
    } else if v == 0x0D {
        seq!['\\', 'r']
    } else if v < 0x20 {
        seq!['\\', 'u', '0', '0', hex_digit((v / 16) as nat), hex_digit((v % 16) as nat)]
    } else {
        seq![c]
    }
}

/// The escaped body of a JSON string literal holding `s`.
pub open spec fn json_escape(s: Seq<char>) -> Seq<char>
    decreases s.len(),
{
    if s.len() == 0 {
        Seq::empty()
    } else {
        json_escape(s.drop_last()) + json_escape_char(s.last())
    }
}

/// The JSON string literal holding `s`.
pub open spec fn json_quoted(s: Seq<char>) -> Seq<char> {
    seq!['"'] + json_escape(s) + seq!['"']
}

/// Writes `value` as a JSON string literal with `serde_json::to_string`.
///
/// Trusted: `serde_json` writes a `str` through `format_escaped_str`, which
/// wraps it in double quotes and escapes exactly the bytes its `ESCAPE`
/// table marks (`"`, `\` and the control characters below 0x20, the common
/// ones as two-character escapes, the others as `\u00xx` in lowercase hex).
/// The call succeeds: `to_string` writes into a `Vec<u8>`, and a `str` fails
/// to serialize only when the writer reports an I/O error, which appending
/// to a `Vec<u8>` never does.
#[verifier::external_body]
fn json_string(value: &str) -> (r: Result<String, serde_json::Error>)
    ensures
        r is Ok,
        r matches Ok(s) ==> s@ == json_quoted(value@),
{
    serde_json::to_string(value)
}

proof fn lemma_digits_need_no_escape(n: nat)
    ensures
        json_escape(decimal(n)) == decimal(n),
        json_quoted(decimal(n)) == seq!['"'] + decimal(n) + seq!['"'],
    decreases n,
{
    let c = digit_char(n % 10);
    assert(c as u32 == n % 10 + 0x30);
    assert(c != '"' && c != '\\');
    assert(json_escape_char(c) == seq![c]);
    assert(json_escape(Seq::<char>::empty()) == Seq::<char>::empty());
    if n < 10 {
        assert(decimal(n).drop_last() =~= Seq::<char>::empty());
        assert(decimal(n).last() == c);
        assert(json_escape(decimal(n)) =~= decimal(n));
    } else {
        lemma_digits_need_no_escape(n / 10);
        assert(decimal(n).drop_last() =~= decimal(n / 10));
        assert(json_escape(decimal(n)) =~= decimal(n));
    }
}

/// The JSON string literal holding the decimal spelling of `n`.
pub open spec fn quoted_decimal(n: u64) -> Seq<char> {
    seq!['"'] + decimal(n as nat) + seq!['"']
}

/// The call that makes the runtime of exactly `target` cancel itself.
pub open spec fn cancel_text(window_json: Seq<char>, document_json: Seq<char>) -> Seq<char> {
    "void window.__TAURI_PLUGIN_DECORATION__?.cancel("@ + window_json + ","@ + document_json
        + ");"@
}

/// The call that hands the runtime of exactly `target` a native event.
pub open spec fn dispatch_text(
    window_json: Seq<char>,
    document_json: Seq<char>,
    event_json: Seq<char>,
    payload_json: Seq<char>,
) -> Seq<char> {
    "void window.__TAURI_PLUGIN_DECORATION__?.dispatch("@ + window_json + ","@ + document_json
        + ","@ + event_json + ","@ + payload_json + ");"@
}

/// The runtime installer: the core runtime, the platform adapter, and the
/// call that installs the runtime with its JSON configuration.
pub open spec fn prepare_text(core: Seq<char>, adapter: Seq<char>, config_json: Seq<char>) -> Seq<
    char,
> {
    core + "\n"@ + adapter + "\nvoid window.__TAURI_PLUGIN_DECORATION__.install("@ + config_json
        + ");"@
}

/// Frames a cancellation call from the JSON spellings of the window
/// generation and document token.
pub fn frame_cancel_script(window_json: &str, document_json: &str) -> (r: String)
    ensures
        r@ == cancel_text(window_json@, document_json@),
{
    let mut script = String::from_str("void window.__TAURI_PLUGIN_DECORATION__?.cancel(");
    script.append(window_json);
    script.append(",");
    script.append(document_json);
    script.append(");");
    script
}

/// Frames a native-event dispatch from the JSON spellings of its parts.
pub fn frame_dispatch_script(
    window_json: &str,
    document_json: &str,
    event_json: &str,
    payload_json: &str,
) -> (r: String)
    ensures
        r@ == dispatch_text(window_json@, document_json@, event_json@, payload_json@),
{
    let mut script = String::from_str("void window.__TAURI_PLUGIN_DECORATION__?.dispatch(");
    script.append(window_json);
    script.append(",");
    script.append(document_json);
    script.append(",");
    script.append(event_json);
    script.append(",");
    script.append(payload_json);
    script.append(");");
    script
}

/// The full-width decimal spellings of the window generation and document
/// token of `target`, as the runtime's configuration and every script carry
/// them.
pub fn target_tokens(target: FrontendTarget) -> (r: (String, String))
    ensures
        r.0@ == decimal(target.window.0 as nat),
        r.1@ == decimal(target.document.0 as nat),
{
    (decimal_string(target.window.get()), decimal_string(target.document.get()))
}

/// The JSON string literals of the decimal window generation and document
/// token of `target`.
fn target_json(target: FrontendTarget) -> (r: Result<(String, String), ScriptError>)
    ensures
        r is Ok,
        r matches Ok((w, d)) ==> w@ == quoted_decimal(target.window.0) && d@ == quoted_decimal(
            target.document.0,
        ),
{
    let (window, document) = target_tokens(target);
    let window_json = match json_string(window.as_str()) {
        Ok(json) => json,
        Err(error) => {
            return Err(ScriptError::Json(error));
        },
    };
    let document_json = match json_string(document.as_str()) {
        Ok(json) => json,
        Err(error) => {
            return Err(ScriptError::Json(error));
        },
    };
    proof {
        lemma_digits_need_no_escape(target.window.0 as nat);
        lemma_digits_need_no_escape(target.document.0 as nat);
    }
    Ok((window_json, document_json))
}

/// The script that makes the runtime of exactly `target` cancel itself.
pub fn cancel_script(target: FrontendTarget) -> (r: Result<String, ScriptError>)
    ensures
        r is Ok,
        r matches Ok(s) ==> s@ == cancel_text(
            quoted_decimal(target.window.0),
            quoted_decimal(target.document.0),
        ),
{
    let (window_json, document_json) = match target_json(target) {
        Ok(parts) => parts,
        Err(error) => {
            return Err(error);
        },
    };
    Ok(frame_cancel_script(window_json.as_str(), document_json.as_str()))
}

/// The script that hands the native event `event`, with the JSON payload
/// `payload_json`, to the runtime of exactly `target`.
pub fn dispatch_script(target: FrontendTarget, event: &str, payload_json: &str) -> (r: Result<
    String,
    ScriptError,
>)
    ensures
        r is Ok,
        r matches Ok(s) ==> s@ == dispatch_text(
            quoted_decimal(target.window.0),
            quoted_decimal(target.document.0),
            json_quoted(event@),
            payload_json@,
        ),
{
    let (window_json, document_json) = match target_json(target) {
        Ok(parts) => parts,
        Err(error) => {
            return Err(error);
        },
    };
    let event_json = match json_string(event) {
        Ok(json) => json,
        Err(error) => {
            return Err(ScriptError::Json(error));
        },
    };
    Ok(
        frame_dispatch_script(
            window_json.as_str(),
            document_json.as_str(),
            event_json.as_str(),
            payload_json,
        ),
    )
}

/// The script that installs the decoration runtime: the core runtime, the
/// platform adapter, and the install call with the JSON configuration.
pub fn prepare_script(core: &str, adapter: &str, config_json: &str) -> (r: String)
    ensures
        r@ == prepare_text(core@, adapter@, config_json@),
{
    let mut script = String::from_str(core);
    script.append("\n");
    script.append(adapter);
    script.append("\nvoid window.__TAURI_PLUGIN_DECORATION__.install(");
    script.append(config_json);
    script.append(");");
    script
}

} // verus!
