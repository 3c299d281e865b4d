//! Desktop rules of the Windows worker: its autostart script, the text that Win32
//! calls take, and the calls that have nothing to do there.

use vstd::prelude::*;
use crate::text::{chars_of, push_char};
use crate::worker::webview::parsed_url;
use crate::text::views;

verus! {

broadcast use vstd::string::group_string_axioms;

/// `base` joined with `part` as `Path::join` does on Windows: with a `\` between them
/// unless `base` is empty or already ends with a separator.
pub open spec fn windows_joined(base: Seq<char>, part: Seq<char>) -> Seq<char> {
    if base.len() == 0 {
        part
    } else if base.last() == '/' || base.last() == '\\' {
        base + part
    } else {
        base + seq!['\\'] + part
    }
}

fn windows_join_path(base: &str, part: &str) -> (r: String)
    ensures
        r@ == windows_joined(base@, part@),
{
    let chars = chars_of(base);
    let mut s = String::from_str(base);
    if chars.len() > 0 && chars[chars.len() - 1] != '/' && chars[chars.len() - 1] != '\\' {
        push_char(&mut s, '\\');
    }
    s.append(part);
    s
}

/// Where the Windows worker's autostart script lives under the roaming application
/// data folder: its Startup folder, `DevTools Worker.cmd`.
pub fn autostart_path(config_root: &str) -> (r: String)
    ensures
        r@ == windows_joined(
            windows_joined(config_root@, "Microsoft/Windows/Start Menu/Programs/Startup"@),
            "DevTools Worker.cmd"@,
        ),
{
    let dir = windows_join_path(config_root, "Microsoft/Windows/Start Menu/Programs/Startup");
    windows_join_path(dir.as_str(), "DevTools Worker.cmd")
}

/// `s` with each `%` doubled, as a `cmd` script needs it.
pub open spec fn percent_doubled(s: Seq<char>) -> Seq<char>
    decreases s.len(),
{
    if s.len() == 0 {
        seq![]
    } else if s.last() == '%' {
        percent_doubled(s.drop_last()) + seq!['%', '%']
    } else {
        percent_doubled(s.drop_last()).push(s.last())
    }
}

/// The Windows autostart script: `@start "" "<executable>"` and a CRLF, with each `%`
/// of the path doubled.
pub fn autostart_entry(executable: &str) -> (r: String)
    ensures
        r@ == "@start \"\" \""@ + percent_doubled(executable@) + "\"\r\n"@,
{
    let chars = chars_of(executable);
    let mut s = String::from_str("@start \"\" \"");
    let ghost head = s@;
    let mut i: usize = 0;
    while i < chars.len()
        invariant
            i <= chars.len(),
            chars@ == executable@,
            s@ == head + percent_doubled(chars@.take(i as int)),
        decreases chars.len() - i,
    {
        assert(chars@.take(i + 1).drop_last() =~= chars@.take(i as int));
        if chars[i] == '%' {
            push_char(&mut s, '%');
            push_char(&mut s, '%');
        } else {
            push_char(&mut s, chars[i]);
        }
        assert(s@ =~= head + percent_doubled(chars@.take(i + 1)));
        i = i + 1;
    }
    assert(chars@.take(chars.len() as int) =~= chars@);
    s.append("\"\r\n");
    s
}

/// The UTF-16 code units of a character.
pub open spec fn utf16_units(c: char) -> Seq<u16> {
    let u = c as u32;
    if u < 0x10000 {
        seq![u as u16]
    } else {
        let v = (u - 0x10000) as u32;
        seq![(0xD800 + v / 0x400) as u16, (0xDC00 + v % 0x400) as u16]
    }
}

/// The UTF-16 encoding of `s`.
pub open spec fn utf16(s: Seq<char>) -> Seq<u16>
    decreases s.len(),
{
    if s.len() == 0 {
        seq![]
    } else {
        utf16(s.drop_last()) + utf16_units(s.last())
    }
}

/// `value` in UTF-16 with a terminating zero, as Win32 calls take text.
pub fn wide(value: &str) -> (r: Vec<u16>)
    ensures
        r@ == utf16(value@).push(0u16),
{
    let chars = chars_of(value);
    let mut out: Vec<u16> = Vec::new();
    let mut i: usize = 0;
    while i < chars.len()
        invariant
            i <= chars.len(),
            chars@ == value@,
            out@ == utf16(chars@.take(i as int)),
        decreases chars.len() - i,
    {
        let u = chars[i] as u32;
        assert(chars@.take(i + 1).drop_last() =~= chars@.take(i as int));
        if u < 0x10000 {
            out.push(u as u16);
        } else {
            let v = u - 0x10000;
            out.push((0xD800 + v / 0x400) as u16);
            out.push((0xDC00 + v % 0x400) as u16);
        }
        assert(out@ =~= utf16(chars@.take(i + 1)));
        i = i + 1;
    }
    assert(chars@.take(chars.len() as int) =~= chars@);
    out.push(0);
    out
}

/// On Windows a display is always there.
pub fn ensure_display_available() -> (r: Result<(), &'static str>)
    ensures
        r is Ok,
{
    Ok(())
}

/// On Windows no running worker is asked: the request is never taken.
pub fn request_existing_worker(method: &str) -> (r: bool)
    ensures
        !r,
{
    false
}

/// Checks a link from the web view before Explorer gets it: it must be a URL with the
/// scheme `http` or `https`; else `invalid url: ` and the `url` crate's message, or
/// `refused to open non-http url: ` and the link.
pub fn check_external_url(url: &str) -> (r: Result<(), String>)
    ensures
        match parsed_url(url@) {
            None => r matches Err(e) && "invalid url: "@.is_prefix_of(e@),
            Some(u) => if u.scheme == "http"@ || u.scheme == "https"@ {
                r is Ok
            } else {
                r matches Err(e) && e@ == "refused to open non-http url: "@ + url@
            },
        },
{
    let schemes: [&str; 2] = ["http", "https"];
    let r = crate::worker::webview::check_external_url(url, &schemes, "refused to open non-http url: ");
    assert(views(schemes@) =~= seq!["http"@, "https"@]);
    r
}

} // verus!
