//! Locating the browser: the debugging targets it lists, the arguments it is
//! launched with, and the name of its executable.

use vstd::prelude::*;
use vstd::string::*;

use crate::codec::{
    array_items_of, find_member, json_text_of, lookup_from, members_view, object_members_of,
    parse_array, parse_object, parse_string,
};
use crate::config::BrowserConfig;
use crate::error::BrowserError;
use crate::text::{append_decimal, decimal, str_eq};

verus! {

/// One debugging target as the browser lists it; a field that is missing or
/// not a string is `None`.
pub struct TargetInfo {
    pub kind: Option<String>,
    pub id: Option<String>,
    pub title: Option<String>,
    pub url: Option<String>,
    pub ws_url: Option<String>,
}

/// A listed target, as character sequences.
pub struct TargetView {
    pub kind: Option<Seq<char>>,
    pub id: Option<Seq<char>>,
    pub title: Option<Seq<char>>,
    pub url: Option<Seq<char>>,
    pub ws_url: Option<Seq<char>>,
}

/// The view of an optional string.
pub open spec fn opt_str(o: Option<String>) -> Option<Seq<char>> {
    match o {
        Some(s) => Some(s@),
        None => None,
    }
}

impl View for TargetInfo {
    type V = TargetView;

    open spec fn view(&self) -> TargetView {
        TargetView {
            kind: opt_str(self.kind),
            id: opt_str(self.id),
            title: opt_str(self.title),
            url: opt_str(self.url),
            ws_url: opt_str(self.ws_url),
        }
    }
}

/// The view of a list of targets.
pub open spec fn targets_view(ts: Seq<TargetInfo>) -> Seq<TargetView> {
    ts.map_values(|t: TargetInfo| t@)
}

/// A string member of an object's members.
pub open spec fn string_member(ms: Seq<(Seq<char>, Seq<char>)>, key: Seq<char>) -> Option<Seq<char>> {
    match lookup_from(ms, key, 0) {
        Some(v) => json_text_of(v),
        None => None,
    }
}

/// The target that the JSON text of one listed item describes; an item that
/// is no object has no fields.
pub open spec fn target_of(item: Seq<char>) -> TargetView {
    match object_members_of(item) {
        Some(ms) => TargetView {
            kind: string_member(ms, "type"@),
            id: string_member(ms, "id"@),
            title: string_member(ms, "title"@),
            url: string_member(ms, "url"@),
            ws_url: string_member(ms, "webSocketDebuggerUrl"@),
        },
        None => TargetView { kind: None, id: None, title: None, url: None, ws_url: None },
    }
}

/// Whether a target is a page that can be attached to, and is the one wanted.
pub open spec fn target_matches(t: TargetView, wanted: Option<Seq<char>>) -> bool {
    &&& t.kind == Some("page"@)
    &&& match wanted {
        Some(w) => match t.id {
            Some(id) => id == w,
            None => w == Seq::<char>::empty(),
        },
        None => true,
    }
    &&& t.ws_url is Some
}

/// The debugger URL of the first matching target from index `i` on.
pub open spec fn select_from(ts: Seq<TargetView>, wanted: Option<Seq<char>>, i: int) -> Option<
    Seq<char>,
>
    decreases ts.len() - i,
{
    if i < 0 || i >= ts.len() {
        None
    } else if target_matches(ts[i], wanted) {
        ts[i].ws_url
    } else {
        select_from(ts, wanted, i + 1)
    }
}

fn string_field(ms: &Vec<(String, String)>, key: &str) -> (r: Option<String>)
    ensures
        opt_str(r) == string_member(members_view(ms@), key@),
{
    match find_member(ms, key) {
        Some(v) => parse_string(v.as_str()),
        None => None,
    }
}

/// Reads one listed item.
fn read_target(item: &str) -> (r: TargetInfo)
    ensures
        r@ == target_of(item@),
{
    match parse_object(item) {
        Some(ms) => TargetInfo {
            kind: string_field(&ms, "type"),
            id: string_field(&ms, "id"),
            title: string_field(&ms, "title"),
            url: string_field(&ms, "url"),
            ws_url: string_field(&ms, "webSocketDebuggerUrl"),
        },
        None => TargetInfo { kind: None, id: None, title: None, url: None, ws_url: None },
    }
}

/// Reads the target list that the browser's `/json` endpoint answers with;
/// `None` when the text is no JSON array.
pub fn parse_targets(text: &str) -> (r: Option<Vec<TargetInfo>>)
    ensures
        match r {
            Some(ts) => array_items_of(text@) matches Some(items) && targets_view(ts@)
                == items.map_values(|t: Seq<char>| target_of(t)),
            None => array_items_of(text@) is None,
        },
{
    let items = match parse_array(text) {
        Some(items) => items,
        None => return None,
    };
    let ghost iv = items@.map_values(|s: String| s@);
    let mut out: Vec<TargetInfo> = Vec::new();
    let mut i: usize = 0;
    while i < items.len()
        invariant
            i <= items@.len(),
            iv == items@.map_values(|s: String| s@),
            targets_view(out@) == iv.take(i as int).map_values(|t: Seq<char>| target_of(t)),
        decreases items@.len() - i,
    {
        let ghost before = out@;
        let t = read_target(items[i].as_str());
        out.push(t);
        assert(iv[i as int] == items@[i as int]@);
        assert(iv.take(i + 1) =~= iv.take(i as int).push(iv[i as int]));
        assert(targets_view(out@) =~= targets_view(before).push(t@));
        assert(targets_view(out@) =~= iv.take(i + 1).map_values(|t: Seq<char>| target_of(t)));
        i = i + 1;
    }
    assert(iv.take(i as int) =~= iv);
    Some(out)
}

fn matches_wanted(t: &TargetInfo, wanted: Option<&str>) -> (r: bool)
    ensures
        r == target_matches(t@, match wanted {
            Some(w) => Some(w@),
            None => None,
        }),
{
    proof {
        reveal_strlit("");
    }
    let is_page = match &t.kind {
        Some(k) => str_eq(k.as_str(), "page"),
        None => false,
    };
    if !is_page || t.ws_url.is_none() {
        return false;
    }
    match wanted {
        Some(w) => match &t.id {
            Some(id) => str_eq(id.as_str(), w),
            None => {
                let e = str_eq("", w);
                assert(""@ =~= Seq::<char>::empty());
                e
            },
        },
        None => true,
    }
}

/// The debugger URL of the first page target that has one and, when `wanted`
/// is given, whose id is `wanted`.
pub fn select_target(targets: &Vec<TargetInfo>, wanted: Option<&str>) -> (r: Option<String>)
    ensures
        opt_str(r) == select_from(
            targets_view(targets@),
            match wanted {
                Some(w) => Some(w@),
                None => None,
            },
            0,
        ),
{
    let ghost tv = targets_view(targets@);
    let ghost wv = match wanted {
        Some(w) => Some(w@),
        None => None,
    };
    let mut i: usize = 0;
    while i < targets.len()
        invariant
            i <= targets@.len(),
            tv == targets_view(targets@),
            wv == (match wanted {
                Some(w) => Some(w@),
                None => None::<Seq<char>>,
            }),
            select_from(tv, wv, 0) == select_from(tv, wv, i as int),
        decreases targets@.len() - i,
    {
        if matches_wanted(&targets[i], wanted) {
            return targets[i].ws_url.clone();
        }
        i = i + 1;
    }
    None
}

/// Picks the debugger URL out of the text of the browser's target list; no
/// readable list, or no matching target, is a `Timeout`.
pub fn find_target_in(text: &str, wanted: Option<&str>) -> (r: Result<String, BrowserError>)
    ensures
        match array_items_of(text@) {
            None => r == Err::<String, BrowserError>(BrowserError::Timeout),
            Some(items) => match select_from(
                items.map_values(|t: Seq<char>| target_of(t)),
                match wanted {
                    Some(w) => Some(w@),
                    None => None,
                },
                0,
            ) {
                Some(url) => r matches Ok(u) && u@ == url,
                None => r == Err::<String, BrowserError>(BrowserError::Timeout),
            },
        },
{
    let targets = match parse_targets(text) {
        Some(ts) => ts,
        None => return Err(BrowserError::Timeout),
    };
    match select_target(&targets, wanted) {
        Some(url) => Ok(url),
        None => Err(BrowserError::Timeout),
    }
}

/// Relies on std::path::Path::file_name: the last normal component of the
/// path, if there is one. Which characters separate components depends on
/// the platform, so all that is stated is what holds on every platform: a
/// component is never empty and never holds a `/`.
#[verifier::external_body]
fn path_file_name(path: &str) -> (r: Option<String>)
    ensures
        r matches Some(n) ==> n@.len() > 0 && !n@.contains('/'),
{
    std::path::Path::new(path).file_name().and_then(|n| n.to_str()).map(|n| n.to_owned())
}

/// The executable name to look for when no file name can be had.
pub open spec fn default_exe_name() -> Seq<char> {
    "brave.exe"@
}

/// The executable name, given the file name of its path if it has one.
pub fn exe_name_or_default(file_name: Option<String>) -> (r: String)
    ensures
        file_name matches Some(n) ==> r@ == n@,
        file_name is None ==> r@ == default_exe_name(),
{
    match file_name {
        Some(n) => n,
        None => String::from_str("brave.exe"),
    }
}

/// The file name of the executable at `executable` (for instance `brave.exe`
/// from its full path), or `brave.exe` when the path has none.
pub fn extract_exe_name(executable: &str) -> (r: String)
    ensures
        r@ == default_exe_name() || (r@.len() > 0 && !r@.contains('/')),
{
    exe_name_or_default(path_file_name(executable))
}

/// Whether `needle` occurs in `hay` as a run of consecutive characters.
pub open spec fn occurs_in(hay: Seq<char>, needle: Seq<char>) -> bool {
    exists|i: int| 0 <= i && i + needle.len() <= hay.len() && #[trigger] hay.subrange(i, i + needle.len()) == needle
}

/// Whether the process listing `listing` names the executable `exe_name`.
pub fn listing_names_process(listing: &str, exe_name: &str) -> (r: bool)
    ensures
        r == occurs_in(listing@, exe_name@),
{
    let h = listing.unicode_len();
    let n = exe_name.unicode_len();
    if n > h {
        assert(!occurs_in(listing@, exe_name@));
        return false;
    }
    let last = h - n;
    let mut i: usize = 0;
    loop
        invariant
            h == listing@.len(),
            n == exe_name@.len(),
            last == h - n,
            i <= last,
            forall|j: int| 0 <= j < i ==> #[trigger] listing@.subrange(j, j + n) != exe_name@,
        ensures
            forall|j: int| 0 <= j <= last ==> #[trigger] listing@.subrange(j, j + n) != exe_name@,
        decreases last - i,
    {
        let part = listing.substring_char(i, i + n);
        if str_eq(part, exe_name) {
            return true;
        }
        if i == last {
            break;
        }
        i = i + 1;
    }
    assert(!occurs_in(listing@, exe_name@));
    false
}

/// The extension directories joined with commas.
pub open spec fn comma_join(parts: Seq<Seq<char>>) -> Seq<char>
    decreases parts.len(),
{
    if parts.len() == 0 {
        Seq::empty()
    } else if parts.len() == 1 {
        parts[0]
    } else {
        comma_join(parts.drop_last()) + ","@ + parts.last()
    }
}

/// The command-line arguments of a browser launched for remote debugging,
/// where `profile_dir` is the bridge's own profile directory.
pub open spec fn launch_args_of(
    port: u16,
    dedicated_profile: bool,
    restore_session: bool,
    extensions: Seq<Seq<char>>,
    profile_dir: Seq<char>,
) -> Seq<Seq<char>> {
    let base = seq![
        "--remote-debugging-port="@ + decimal(port as nat),
        "--no-first-run"@,
        "--no-default-browser-check"@,
    ];
    let with_profile = if dedicated_profile {
        base.push("--user-data-dir="@ + profile_dir)
    } else {
        base
    };
    let with_restore = if restore_session {
        with_profile.push("--restore-last-session"@)
    } else {
        with_profile
    };
    if extensions.len() > 0 {
        with_restore.push("--load-extension="@ + comma_join(extensions))
    } else {
        with_restore
    }
}

fn append_comma_joined(out: &mut String, parts: &Vec<String>)
    ensures
        final(out)@ == old(out)@ + comma_join(parts@.map_values(|s: String| s@)),
{
    let ghost pv = parts@.map_values(|s: String| s@);
    let mut i: usize = 0;
    while i < parts.len()
        invariant
            i <= parts@.len(),
            pv == parts@.map_values(|s: String| s@),
            out@ == old(out)@ + comma_join(pv.take(i as int)),
        decreases parts@.len() - i,
    {
        if i > 0 {
            out.append(",");
        }
        out.append(parts[i].as_str());
        proof {
            let t = pv.take(i + 1);
            assert(t.drop_last() =~= pv.take(i as int));
            assert(t.last() == parts@[i as int]@);
            if i == 0 {
                assert(comma_join(pv.take(0)) =~= Seq::<char>::empty());
            }
        }
        assert(out@ =~= old(out)@ + comma_join(pv.take(i + 1)));
        i = i + 1;
    }
    assert(pv.take(i as int) =~= pv);
}

/// The arguments to launch the browser with.
pub fn launch_args(config: &BrowserConfig, profile_dir: &str) -> (r: Vec<String>)
    ensures
        r@.map_values(|s: String| s@) == launch_args_of(
            config.port,
            config.dedicated_profile,
            config.restore_session,
            config.extensions@.map_values(|s: String| s@),
            profile_dir@,
        ),
{
    let mut args: Vec<String> = Vec::new();
    let mut port = String::from_str("--remote-debugging-port=");
    append_decimal(&mut port, config.port as u64);
    args.push(port);
    args.push(String::from_str("--no-first-run"));
    args.push(String::from_str("--no-default-browser-check"));
    if config.dedicated_profile {
        let mut p = String::from_str("--user-data-dir=");
        p.append(profile_dir);
        args.push(p);
    }
    if config.restore_session {
        args.push(String::from_str("--restore-last-session"));
    }
    if config.extensions.len() > 0 {
        let mut e = String::from_str("--load-extension=");
        append_comma_joined(&mut e, &config.extensions);
        args.push(e);
    }
    assert(args@.map_values(|s: String| s@) =~= launch_args_of(
        config.port,
        config.dedicated_profile,
        config.restore_session,
        config.extensions@.map_values(|s: String| s@),
        profile_dir@,
    ));
    args
}

/// The text of an optional field, or `d` when it is missing.
pub open spec fn or_default(o: Option<Seq<char>>, d: Seq<char>) -> Seq<char> {
    match o {
        Some(s) => s,
        None => d,
    }
}

/// The listing lines of one tab: `[id] title`, then the URL, indented.
pub open spec fn tab_entry(t: TargetView) -> Seq<char> {
    "["@ + or_default(t.id, "?"@) + "] "@ + or_default(t.title, "(untitled)"@) + "\n  "@
        + or_default(t.url, "?"@) + "\n\n"@
}

/// The entries of the page targets among the first `n` targets.
pub open spec fn tab_entries(ts: Seq<TargetView>, n: int) -> Seq<char>
    decreases n,
{
    if n <= 0 || n > ts.len() {
        Seq::empty()
    } else if ts[n - 1].kind == Some("page"@) {
        tab_entries(ts, n - 1) + tab_entry(ts[n - 1])
    } else {
        tab_entries(ts, n - 1)
    }
}

/// The listing of the open tabs among `ts`.
pub open spec fn tab_listing(ts: Seq<TargetView>) -> Seq<char> {
    if tab_entries(ts, ts.len() as int).len() == 0 {
        "No open tabs found"@
    } else {
        tab_entries(ts, ts.len() as int)
    }
}

fn append_or(out: &mut String, o: &Option<String>, d: &str)
    ensures
        final(out)@ == old(out)@ + or_default(opt_str(*o), d@),
{
    match o {
        Some(s) => out.append(s.as_str()),
        None => out.append(d),
    }
}

/// Lists the page targets: id, title and URL of each.
pub fn format_tab_list(targets: &Vec<TargetInfo>) -> (r: String)
    ensures
        r@ == tab_listing(targets_view(targets@)),
{
    let ghost tv = targets_view(targets@);
    let mut out = String::new();
    let mut i: usize = 0;
    while i < targets.len()
        invariant
            i <= targets@.len(),
            tv == targets_view(targets@),
            out@ == tab_entries(tv, i as int),
        decreases targets@.len() - i,
    {
        let t = &targets[i];
        let is_page = match &t.kind {
            Some(k) => str_eq(k.as_str(), "page"),
            None => false,
        };
        if is_page {
            out.append("[");
            append_or(&mut out, &t.id, "?");
            out.append("] ");
            append_or(&mut out, &t.title, "(untitled)");
            out.append("\n  ");
            append_or(&mut out, &t.url, "?");
            out.append("\n\n");
        }
        assert(tv[i as int] == t@);
        assert(out@ =~= tab_entries(tv, i + 1));
        i = i + 1;
    }
    if out.unicode_len() == 0 {
        return String::from_str("No open tabs found");
    }
    out
}

} // verus!
