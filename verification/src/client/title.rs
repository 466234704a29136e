//! Window-title text: capitalizing a status word and bounding a title's
//! length.

use vstd::prelude::*;

use crate::text::{append_chars_to_string, str_chars, string_from_chars};

verus! {

/// The uppercase mapping of `c`, one or more characters, as
/// `char::to_uppercase` yields it (Unicode's full case mapping).
pub uninterp spec fn char_uppercase(c: char) -> Seq<char>;

/// The uppercase mapping of an ASCII character: `a`..`z` become
/// `A`..`Z`, every other ASCII character stays as it is.
pub open spec fn ascii_uppercase(c: char) -> Seq<char> {
    if 'a' <= c && c <= 'z' {
        seq![((c as u32) - 32) as char]
    } else {
        seq![c]
    }
}

/// Collects `char::to_uppercase(c)`. Claimed: the characters returned are
/// the uppercase mapping of `c` and depend on `c` alone; for an ASCII
/// character it is the ASCII one. The mapping of other characters is not
/// stated.
#[verifier::external_body]
fn to_uppercase_chars(c: char) -> (r: Vec<char>)
    ensures
        r@ == char_uppercase(c),
        c <= '\u{7f}' ==> r@ == ascii_uppercase(c),
{
    c.to_uppercase().collect()
}

/// `s` with its first character replaced by `upper_first` (the empty string
/// stays empty).
pub fn replace_first_char(upper_first: &Vec<char>, s: &str) -> (r: String)
    ensures
        s@.len() == 0 ==> r@ == Seq::<char>::empty(),
        s@.len() > 0 ==> r@ == upper_first@ + s@.drop_first(),
{
    let chars = str_chars(s);
    if chars.len() == 0 {
        return String::new();
    }
    let mut out = string_from_chars(upper_first);
    let mut rest: Vec<char> = Vec::new();
    for i in 1..chars.len()
        invariant
            chars@ == s@,
            1 <= chars@.len(),
            rest@ == chars@.subrange(1, i as int),
    {
        rest.push(chars[i]);
        assert(chars@.subrange(1, i + 1) =~= chars@.subrange(1, i as int).push(chars@[i as int]));
    }
    assert(rest@ =~= s@.drop_first());
    append_chars_to_string(&mut out, &rest);
    out
}

/// `s` with its first character in uppercase; the rest is unchanged.
pub fn capitalize_first(s: &str) -> (r: String)
    ensures
        s@.len() == 0 ==> r@ == Seq::<char>::empty(),
        s@.len() > 0 ==> r@ == char_uppercase(s@[0]) + s@.drop_first(),
        s@.len() > 0 && s@[0] <= '\u{7f}' ==> r@ == ascii_uppercase(s@[0]) + s@.drop_first(),
{
    if s.unicode_len() == 0 {
        return String::new();
    }
    let upper = to_uppercase_chars(s.get_char(0));
    replace_first_char(&upper, s)
}

/// The horizontal ellipsis, U+2026.
pub const ELLIPSIS: char = '\u{2026}';

/// `s` cut to at most `max_chars` characters; a cut string ends with an
/// ellipsis.
pub open spec fn truncated_title(s: Seq<char>, max_chars: nat) -> Seq<char> {
    if s.len() > max_chars {
        s.take(max_chars as int).push('\u{2026}')
    } else {
        s
    }
}

/// Truncates `s` to at most `max_chars` characters, on a character
/// boundary, appending an ellipsis when something was cut.
pub fn truncate_for_title(s: &str, max_chars: usize) -> (r: String)
    ensures
        r@ == truncated_title(s@, max_chars as nat),
{
    let chars = str_chars(s);
    let mut kept: Vec<char> = Vec::new();
    let mut i: usize = 0;
    while i < chars.len() && i < max_chars
        invariant
            chars@ == s@,
            i <= chars@.len(),
            i <= max_chars,
            kept@ == chars@.take(i as int),
        decreases chars@.len() - i,
    {
        kept.push(chars[i]);
        assert(chars@.take(i + 1) =~= chars@.take(i as int).push(chars@[i as int]));
        i = i + 1;
    }
    if i < chars.len() {
        kept.push(ELLIPSIS);
    } else {
        assert(chars@.take(i as int) =~= chars@);
    }
    string_from_chars(&kept)
}

/// The window title while connecting: `IronRDP — Connecting to <server>...`.
pub fn connecting_title(server: &str) -> (r: String)
    ensures
        r@ == "IronRDP \u{2014} Connecting to "@ + server@ + "..."@,
{
    let mut t = String::from_str("IronRDP \u{2014} Connecting to ");
    t.append(server);
    t.append("...");
    t
}

/// The window title once the first frame is shown: `IronRDP — <server>`.
pub fn connected_title(server: &str) -> (r: String)
    ensures
        r@ == "IronRDP \u{2014} "@ + server@,
{
    let mut t = String::from_str("IronRDP \u{2014} ");
    t.append(server);
    t
}

/// The window title after a failed connection, the message cut to 100
/// characters.
pub fn connection_failed_title(message: &str) -> (r: String)
    ensures
        r@ == "IronRDP \u{2014} Connection failed: "@ + truncated_title(message@, 100),
{
    let mut t = String::from_str("IronRDP \u{2014} Connection failed: ");
    let cut = truncate_for_title(message, 100);
    t.append(cut.as_str());
    t
}

/// The window title after a session error, the message cut to 100
/// characters.
pub fn session_error_title(message: &str) -> (r: String)
    ensures
        r@ == "IronRDP \u{2014} Session error: "@ + truncated_title(message@, 100),
{
    let mut t = String::from_str("IronRDP \u{2014} Session error: ");
    let cut = truncate_for_title(message, 100);
    t.append(cut.as_str());
    t
}

/// The message of a graceful end: `Terminated gracefully: <reason>`.
pub fn terminated_message(reason: &str) -> (r: String)
    ensures
        r@ == "Terminated gracefully: "@ + reason@,
{
    let mut m = String::from_str("terminated gracefully: ");
    m.append(reason);
    proof {
        reveal_strlit("terminated gracefully: ");
        reveal_strlit("erminated gracefully: ");
        assert(m@.drop_first() =~= "erminated gracefully: "@ + reason@);
    }
    let r = capitalize_first(m.as_str());
    proof {
        reveal_strlit("Terminated gracefully: ");
        assert(r@ =~= "Terminated gracefully: "@ + reason@);
    }
    r
}

} // verus!
