//! Builders of common protocol commands, each a (method, parameters) pair
//! whose parameters are the text of one JSON object.

use vstd::prelude::*;
use vstd::string::*;

use crate::codec::{json_quote, json_string_of};
use crate::text::{append_decimal, decimal, str_eq};

verus! {

/// The method that dispatches key events.
pub open spec fn key_event_method() -> Seq<char> {
    "Input.dispatchKeyEvent"@
}

/// The parameters of a navigation.
pub open spec fn navigate_params(url: Seq<char>) -> Seq<char> {
    "{\"url\":"@ + json_string_of(url) + "}"@
}

/// The parameters of a screenshot.
pub open spec fn screenshot_params(quality: Option<u8>, format: Seq<char>) -> Seq<char> {
    match quality {
        Some(q) => "{\"format\":"@ + json_string_of(format) + ",\"quality\":"@ + decimal(q as nat)
            + "}"@,
        None => "{\"format\":"@ + json_string_of(format) + "}"@,
    }
}

/// The parameters of a script evaluation.
pub open spec fn evaluate_params(expression: Seq<char>) -> Seq<char> {
    "{\"expression\":"@ + json_string_of(expression) + ",\"returnByValue\":true,\"awaitPromise\":true}"@
}

/// The parameters of one key event carrying text.
pub open spec fn key_event_params(event_type: Seq<char>, text: Seq<char>) -> Seq<char> {
    "{\"type\":"@ + json_string_of(event_type) + ",\"text\":"@ + json_string_of(text) + "}"@
}

/// The native key code, the `code` name and the Windows virtual key code of a
/// named key; an unknown key is its own code name, with both codes 0.
pub open spec fn key_codes(key: Seq<char>) -> (nat, Seq<char>, nat) {
    if key == "Enter"@ {
        (13, key, 13)
    } else if key == "Tab"@ {
        (9, key, 9)
    } else if key == "Escape"@ {
        (27, key, 27)
    } else if key == "Backspace"@ {
        (8, key, 8)
    } else if key == "Delete"@ {
        (46, key, 46)
    } else if key == "ArrowUp"@ {
        (38, key, 38)
    } else if key == "ArrowDown"@ {
        (40, key, 40)
    } else if key == "ArrowLeft"@ {
        (37, key, 37)
    } else if key == "ArrowRight"@ {
        (39, key, 39)
    } else if key == "Home"@ {
        (36, key, 36)
    } else if key == "End"@ {
        (35, key, 35)
    } else if key == "PageUp"@ {
        (33, key, 33)
    } else if key == "PageDown"@ {
        (34, key, 34)
    } else if key == "Space"@ {
        (32, key, 32)
    } else {
        (0, key, 0)
    }
}

/// The parameters of one phase (`keyDown` or `keyUp`) of a named key press.
pub open spec fn press_key_params(phase: Seq<char>, key: Seq<char>) -> Seq<char> {
    "{\"type\":"@ + json_string_of(phase) + ",\"key\":"@ + json_string_of(key) + ",\"code\":"@
        + json_string_of(key_codes(key).1) + ",\"windowsVirtualKeyCode\":"@ + decimal(
        key_codes(key).2,
    ) + ",\"nativeVirtualKeyCode\":"@ + decimal(key_codes(key).0) + "}"@
}

/// The view of a list of commands.
pub open spec fn commands_view(cs: Seq<(String, String)>) -> Seq<(Seq<char>, Seq<char>)> {
    cs.map_values(|c: (String, String)| (c.0@, c.1@))
}

/// Navigate to a URL.
pub fn navigate(url: &str) -> (r: (String, String))
    ensures
        r.0@ == "Page.navigate"@,
        r.1@ == navigate_params(url@),
{
    let mut p = String::from_str("{\"url\":");
    let q = json_quote(url);
    p.append(q.as_str());
    p.append("}");
    (String::from_str("Page.navigate"), p)
}

/// Capture a screenshot in `format`, with an optional quality.
pub fn screenshot(quality: Option<u8>, format: &str) -> (r: (String, String))
    ensures
        r.0@ == "Page.captureScreenshot"@,
        r.1@ == screenshot_params(quality, format@),
{
    let mut p = String::from_str("{\"format\":");
    let q = json_quote(format);
    p.append(q.as_str());
    match quality {
        Some(n) => {
            p.append(",\"quality\":");
            append_decimal(&mut p, n as u64);
        },
        None => {},
    }
    p.append("}");
    (String::from_str("Page.captureScreenshot"), p)
}

/// Evaluate a script expression, awaiting a promise and returning by value.
pub fn evaluate(expression: &str) -> (r: (String, String))
    ensures
        r.0@ == "Runtime.evaluate"@,
        r.1@ == evaluate_params(expression@),
{
    let mut p = String::from_str("{\"expression\":");
    let q = json_quote(expression);
    p.append(q.as_str());
    p.append(",\"returnByValue\":true,\"awaitPromise\":true}");
    (String::from_str("Runtime.evaluate"), p)
}

/// Dispatch one key event.
pub fn key_event(event_type: &str, text: &str) -> (r: (String, String))
    ensures
        r.0@ == key_event_method(),
        r.1@ == key_event_params(event_type@, text@),
{
    let mut p = String::from_str("{\"type\":");
    let t = json_quote(event_type);
    p.append(t.as_str());
    p.append(",\"text\":");
    let q = json_quote(text);
    p.append(q.as_str());
    p.append("}");
    (String::from_str("Input.dispatchKeyEvent"), p)
}

fn key_codes_of(key: &str) -> (r: (u64, u64))
    ensures
        r.0 as nat == key_codes(key@).0,
        r.1 as nat == key_codes(key@).2,
{
    if str_eq(key, "Enter") {
        (13, 13)
    } else if str_eq(key, "Tab") {
        (9, 9)
    } else if str_eq(key, "Escape") {
        (27, 27)
    } else if str_eq(key, "Backspace") {
        (8, 8)
    } else if str_eq(key, "Delete") {
        (46, 46)
    } else if str_eq(key, "ArrowUp") {
        (38, 38)
    } else if str_eq(key, "ArrowDown") {
        (40, 40)
    } else if str_eq(key, "ArrowLeft") {
        (37, 37)
    } else if str_eq(key, "ArrowRight") {
        (39, 39)
    } else if str_eq(key, "Home") {
        (36, 36)
    } else if str_eq(key, "End") {
        (35, 35)
    } else if str_eq(key, "PageUp") {
        (33, 33)
    } else if str_eq(key, "PageDown") {
        (34, 34)
    } else if str_eq(key, "Space") {
        (32, 32)
    } else {
        (0, 0)
    }
}

fn press_key_event(phase: &str, key: &str) -> (r: (String, String))
    ensures
        r.0@ == key_event_method(),
        r.1@ == press_key_params(phase@, key@),
{
    let (native, windows) = key_codes_of(key);
    let mut p = String::from_str("{\"type\":");
    let t = json_quote(phase);
    p.append(t.as_str());
    p.append(",\"key\":");
    let k = json_quote(key);
    p.append(k.as_str());
    p.append(",\"code\":");
    p.append(k.as_str());
    p.append(",\"windowsVirtualKeyCode\":");
    append_decimal(&mut p, windows);
    p.append(",\"nativeVirtualKeyCode\":");
    append_decimal(&mut p, native);
    p.append("}");
    (String::from_str("Input.dispatchKeyEvent"), p)
}

/// Press a named key (Enter, Tab, Escape, arrows, ...): a key-down event then a
/// key-up event.
pub fn press_key(key: &str) -> (r: Vec<(String, String)>)
    ensures
        commands_view(r@) == seq![
            (key_event_method(), press_key_params("keyDown"@, key@)),
            (key_event_method(), press_key_params("keyUp"@, key@)),
        ],
{
    let mut r: Vec<(String, String)> = Vec::new();
    r.push(press_key_event("keyDown", key));
    r.push(press_key_event("keyUp", key));
    assert(commands_view(r@) =~= seq![
        (key_event_method(), press_key_params("keyDown"@, key@)),
        (key_event_method(), press_key_params("keyUp"@, key@)),
    ]);
    r
}

/// Type a text: one `char` key event per character, in order.
pub fn type_text(text: &str) -> (r: Vec<(String, String)>)
    ensures
        r@.len() == text@.len(),
        forall|i: int|
            0 <= i < r@.len() ==> (#[trigger] r@[i]).0@ == key_event_method() && r@[i].1@
                == key_event_params("char"@, seq![text@[i]]),
{
    let n = text.unicode_len();
    let mut r: Vec<(String, String)> = Vec::new();
    let mut i: usize = 0;
    while i < n
        invariant
            n == text@.len(),
            i <= n,
            r@.len() == i,
            forall|j: int|
                0 <= j < i ==> (#[trigger] r@[j]).0@ == key_event_method() && r@[j].1@
                    == key_event_params("char"@, seq![text@[j]]),
        decreases n - i,
    {
        let c = text.substring_char(i, i + 1);
        assert(c@ =~= seq![text@[i as int]]);
        r.push(key_event("char", c));
        i = i + 1;
    }
    r
}

/// Go back in the page's history.
pub fn go_back() -> (r: (String, String))
    ensures
        r.0@ == "Runtime.evaluate"@,
        r.1@ == evaluate_params("window.history.back()"@),
{
    evaluate("window.history.back()")
}

/// Go forward in the page's history.
pub fn go_forward() -> (r: (String, String))
    ensures
        r.0@ == "Runtime.evaluate"@,
        r.1@ == evaluate_params("window.history.forward()"@),
{
    evaluate("window.history.forward()")
}

/// Enable the page domain.
pub fn enable_page() -> (r: (String, String))
    ensures
        r.0@ == "Page.enable"@,
        r.1@ == "{}"@,
{
    (String::from_str("Page.enable"), String::from_str("{}"))
}

/// Enable the DOM domain.
pub fn enable_dom() -> (r: (String, String))
    ensures
        r.0@ == "DOM.enable"@,
        r.1@ == "{}"@,
{
    (String::from_str("DOM.enable"), String::from_str("{}"))
}

/// Enable the runtime domain.
pub fn enable_runtime() -> (r: (String, String))
    ensures
        r.0@ == "Runtime.enable"@,
        r.1@ == "{}"@,
{
    (String::from_str("Runtime.enable"), String::from_str("{}"))
}

} // verus!
