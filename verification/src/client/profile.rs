//! Connection profiles, their `.rdp` file export, and the list of saved
//! profiles with the active one.

use vstd::prelude::*;

use crate::text::{
    append_chars_to_string, append_decimal, chars_range, contains_seq, dec_digits, find_char, first_index_of,
    lemma_first_index_of, lemma_parse_u16_of_dec, occurs_at, parse_u16, parse_u16_spec, str_chars, string_from_chars,
};

verus! {

/// Default desktop width.
pub const DEFAULT_WIDTH: u16 = 1920;
/// Default desktop height.
pub const DEFAULT_HEIGHT: u16 = 1080;

/// The settings of one RDP connection.
#[derive(Debug, Clone, PartialEq)]
pub struct ConnectionProfile {
    pub name: String,
    pub host: String,
    pub port: u16,
    pub username: String,
    pub pass_token: String,
    pub domain: Option<String>,
    pub desktop_width: u16,
    pub desktop_height: u16,
    pub color_depth: u8,
    pub redirect_clipboard: bool,
    pub audio_mode: u8,
    pub compression_enabled: bool,
    pub compression_level: u32,
    pub egfx_enabled: bool,
    pub avc444_enabled: bool,
    pub auto_reconnect: bool,
    pub prevent_session_lock: bool,
}

/// Every setting but the name, host and port has its default value.
pub open spec fn has_default_settings(p: ConnectionProfile) -> bool {
    &&& p.username@ == "damartel"@
    &&& p.pass_token@ == Seq::<char>::empty()
    &&& p.domain is None
    &&& p.desktop_width == 1920
    &&& p.desktop_height == 1080
    &&& p.color_depth == 32
    &&& p.redirect_clipboard
    &&& p.audio_mode == 0
    &&& p.compression_enabled
    &&& p.compression_level == 3
    &&& !p.egfx_enabled
    &&& !p.avc444_enabled
    &&& !p.auto_reconnect
    &&& !p.prevent_session_lock
}

/// The desktop sizes the launcher offers as buttons.
#[derive(Debug, Clone, Copy, PartialEq, Eq, Structural)]
pub enum ResolutionPreset {
    FullHd,
    Qhd,
    Uhd4k,
}

/// The connection-speed presets of the launcher.
#[derive(Debug, Clone, Copy, PartialEq, Eq, Structural)]
pub enum PerformancePreset {
    Lan10G,
    TailscaleWan,
}

/// What a profile sets in the connection configuration.
pub struct ConnectorSettings {
    pub username: String,
    pub password: String,
    pub domain: Option<String>,
    pub desktop_width: u16,
    pub desktop_height: u16,
    pub enable_graphics_pipeline: bool,
    pub enable_audio_playback: bool,
    /// RDP 6.1 bulk compression; none otherwise.
    pub compression_rdp61: bool,
}

impl Default for ConnectionProfile {
    /// The default connection: 100.64.0.4:33898, 1920x1080 at 32 bpp, with
    /// clipboard redirection and compression (level 3), audio played here.
    fn default() -> (r: ConnectionProfile)
        ensures
            r.name@ == "Default Connection"@,
            r.host@ == "100.64.0.4"@,
            r.port == 33898,
            has_default_settings(r),
    {
        ConnectionProfile {
            name: String::from_str("Default Connection"),
            host: String::from_str("100.64.0.4"),
            port: 33898,
            username: String::from_str("damartel"),
            pass_token: String::new(),
            domain: None,
            desktop_width: DEFAULT_WIDTH,
            desktop_height: DEFAULT_HEIGHT,
            color_depth: 32,
            redirect_clipboard: true,
            audio_mode: 0,
            compression_enabled: true,
            compression_level: 3,
            egfx_enabled: false,
            avc444_enabled: false,
            auto_reconnect: false,
            prevent_session_lock: false,
        }
    }
}

/// `1` for true, `0` for false, as the `.rdp` format writes flags.
pub open spec fn flag_digit(b: bool) -> Seq<char> {
    if b {
        "1"@
    } else {
        "0"@
    }
}

/// The `.rdp` file text of a profile: address, user name, desktop size,
/// color depth, clipboard, audio mode, network level authentication and
/// compression, one `key:type:value` line each.
pub open spec fn rdp_file_text(p: ConnectionProfile) -> Seq<char> {
    "full address:s:"@ + p.host@ + ":"@ + dec_digits(p.port as nat) + "\n"@ + "username:s:"@ + p.username@
        + "\n"@ + "desktopwidth:i:"@ + dec_digits(p.desktop_width as nat) + "\n"@ + "desktopheight:i:"@
        + dec_digits(p.desktop_height as nat) + "\n"@ + "session bpp:i:"@ + dec_digits(p.color_depth as nat)
        + "\n"@ + "redirectclipboard:i:"@ + flag_digit(p.redirect_clipboard) + "\n"@ + "audiomode:i:"@
        + dec_digits(p.audio_mode as nat) + "\n"@ + "networklevelauthentication:i:1\n"@ + "compression:i:"@
        + flag_digit(p.compression_enabled) + "\n"@
}

/// `a + b + c` occurs in `x + a + b + c` right after `x`.
proof fn lemma_line_after(x: Seq<char>, a: Seq<char>, b: Seq<char>, c: Seq<char>)
    ensures
        contains_seq(x + a + b + c, a + b + c),
{
    let s = x + a + b + c;
    let pat = a + b + c;
    assert(s.subrange(x.len() as int, (x.len() + pat.len()) as int) =~= pat);
    assert(occurs_at(s, pat, x.len() as int));
}

/// `a + b + c + d` occurs in `x + a + b + c + d` right after `x`.
proof fn lemma_line4_after(x: Seq<char>, a: Seq<char>, b: Seq<char>, c: Seq<char>, d: Seq<char>)
    ensures
        contains_seq(x + a + b + c + d, a + b + c + d),
{
    let s = x + a + b + c + d;
    let pat = a + b + c + d;
    assert(s.subrange(x.len() as int, (x.len() + pat.len()) as int) =~= pat);
    assert(occurs_at(s, pat, x.len() as int));
}

/// What occurs in `s` still occurs once more is appended.
proof fn lemma_contains_extend(s: Seq<char>, y: Seq<char>, pat: Seq<char>)
    requires
        contains_seq(s, pat),
    ensures
        contains_seq(s + y, pat),
{
    let i = choose|i: int| occurs_at(s, pat, i);
    assert((s + y).subrange(i, i + pat.len()) =~= s.subrange(i, i + pat.len()));
    assert(occurs_at(s + y, pat, i));
}

proof fn lemma_rdp_line_port(p: ConnectionProfile)
    ensures
        contains_seq(rdp_file_text(p), ":"@ + dec_digits(p.port as nat) + "\n"@ + "username:s:"@),
{
    let x = "full address:s:"@ + p.host@;
    lemma_line4_after(x, ":"@, dec_digits(p.port as nat), "\n"@, "username:s:"@);
    let pat = ":"@ + dec_digits(p.port as nat) + "\n"@ + "username:s:"@;
    lemma_contains_extend("full address:s:"@ + p.host@ + ":"@ + dec_digits(p.port as nat) + "\n"@ + "username:s:"@, p.username@, pat);
    lemma_contains_extend("full address:s:"@ + p.host@ + ":"@ + dec_digits(p.port as nat) + "\n"@ + "username:s:"@ + p.username@, "\n"@, pat);
    lemma_contains_extend("full address:s:"@ + p.host@ + ":"@ + dec_digits(p.port as nat) + "\n"@ + "username:s:"@ + p.username@ + "\n"@, "desktopwidth:i:"@, pat);
    lemma_contains_extend("full address:s:"@ + p.host@ + ":"@ + dec_digits(p.port as nat) + "\n"@ + "username:s:"@ + p.username@ + "\n"@ + "desktopwidth:i:"@, dec_digits(p.desktop_width as nat), pat);
    lemma_contains_extend("full address:s:"@ + p.host@ + ":"@ + dec_digits(p.port as nat) + "\n"@ + "username:s:"@ + p.username@ + "\n"@ + "desktopwidth:i:"@ + dec_digits(p.desktop_width as nat), "\n"@, pat);
    lemma_contains_extend("full address:s:"@ + p.host@ + ":"@ + dec_digits(p.port as nat) + "\n"@ + "username:s:"@ + p.username@ + "\n"@ + "desktopwidth:i:"@ + dec_digits(p.desktop_width as nat) + "\n"@, "desktopheight:i:"@, pat);
    lemma_contains_extend("full address:s:"@ + p.host@ + ":"@ + dec_digits(p.port as nat) + "\n"@ + "username:s:"@ + p.username@ + "\n"@ + "desktopwidth:i:"@ + dec_digits(p.desktop_width as nat) + "\n"@ + "desktopheight:i:"@, dec_digits(p.desktop_height as nat), pat);
    lemma_contains_extend("full address:s:"@ + p.host@ + ":"@ + dec_digits(p.port as nat) + "\n"@ + "username:s:"@ + p.username@ + "\n"@ + "desktopwidth:i:"@ + dec_digits(p.desktop_width as nat) + "\n"@ + "desktopheight:i:"@ + dec_digits(p.desktop_height as nat), "\n"@, pat);
    lemma_contains_extend("full address:s:"@ + p.host@ + ":"@ + dec_digits(p.port as nat) + "\n"@ + "username:s:"@ + p.username@ + "\n"@ + "desktopwidth:i:"@ + dec_digits(p.desktop_width as nat) + "\n"@ + "desktopheight:i:"@ + dec_digits(p.desktop_height as nat) + "\n"@, "session bpp:i:"@, pat);
    lemma_contains_extend("full address:s:"@ + p.host@ + ":"@ + dec_digits(p.port as nat) + "\n"@ + "username:s:"@ + p.username@ + "\n"@ + "desktopwidth:i:"@ + dec_digits(p.desktop_width as nat) + "\n"@ + "desktopheight:i:"@ + dec_digits(p.desktop_height as nat) + "\n"@ + "session bpp:i:"@, dec_digits(p.color_depth as nat), pat);
    lemma_contains_extend("full address:s:"@ + p.host@ + ":"@ + dec_digits(p.port as nat) + "\n"@ + "username:s:"@ + p.username@ + "\n"@ + "desktopwidth:i:"@ + dec_digits(p.desktop_width as nat) + "\n"@ + "desktopheight:i:"@ + dec_digits(p.desktop_height as nat) + "\n"@ + "session bpp:i:"@ + dec_digits(p.color_depth as nat), "\n"@, pat);
    lemma_contains_extend("full address:s:"@ + p.host@ + ":"@ + dec_digits(p.port as nat) + "\n"@ + "username:s:"@ + p.username@ + "\n"@ + "desktopwidth:i:"@ + dec_digits(p.desktop_width as nat) + "\n"@ + "desktopheight:i:"@ + dec_digits(p.desktop_height as nat) + "\n"@ + "session bpp:i:"@ + dec_digits(p.color_depth as nat) + "\n"@, "redirectclipboard:i:"@, pat);
    lemma_contains_extend("full address:s:"@ + p.host@ + ":"@ + dec_digits(p.port as nat) + "\n"@ + "username:s:"@ + p.username@ + "\n"@ + "desktopwidth:i:"@ + dec_digits(p.desktop_width as nat) + "\n"@ + "desktopheight:i:"@ + dec_digits(p.desktop_height as nat) + "\n"@ + "session bpp:i:"@ + dec_digits(p.color_depth as nat) + "\n"@ + "redirectclipboard:i:"@, flag_digit(p.redirect_clipboard), pat);
    lemma_contains_extend("full address:s:"@ + p.host@ + ":"@ + dec_digits(p.port as nat) + "\n"@ + "username:s:"@ + p.username@ + "\n"@ + "desktopwidth:i:"@ + dec_digits(p.desktop_width as nat) + "\n"@ + "desktopheight:i:"@ + dec_digits(p.desktop_height as nat) + "\n"@ + "session bpp:i:"@ + dec_digits(p.color_depth as nat) + "\n"@ + "redirectclipboard:i:"@ + flag_digit(p.redirect_clipboard), "\n"@, pat);
    lemma_contains_extend("full address:s:"@ + p.host@ + ":"@ + dec_digits(p.port as nat) + "\n"@ + "username:s:"@ + p.username@ + "\n"@ + "desktopwidth:i:"@ + dec_digits(p.desktop_width as nat) + "\n"@ + "desktopheight:i:"@ + dec_digits(p.desktop_height as nat) + "\n"@ + "session bpp:i:"@ + dec_digits(p.color_depth as nat) + "\n"@ + "redirectclipboard:i:"@ + flag_digit(p.redirect_clipboard) + "\n"@, "audiomode:i:"@, pat);
    lemma_contains_extend("full address:s:"@ + p.host@ + ":"@ + dec_digits(p.port as nat) + "\n"@ + "username:s:"@ + p.username@ + "\n"@ + "desktopwidth:i:"@ + dec_digits(p.desktop_width as nat) + "\n"@ + "desktopheight:i:"@ + dec_digits(p.desktop_height as nat) + "\n"@ + "session bpp:i:"@ + dec_digits(p.color_depth as nat) + "\n"@ + "redirectclipboard:i:"@ + flag_digit(p.redirect_clipboard) + "\n"@ + "audiomode:i:"@, dec_digits(p.audio_mode as nat), pat);
    lemma_contains_extend("full address:s:"@ + p.host@ + ":"@ + dec_digits(p.port as nat) + "\n"@ + "username:s:"@ + p.username@ + "\n"@ + "desktopwidth:i:"@ + dec_digits(p.desktop_width as nat) + "\n"@ + "desktopheight:i:"@ + dec_digits(p.desktop_height as nat) + "\n"@ + "session bpp:i:"@ + dec_digits(p.color_depth as nat) + "\n"@ + "redirectclipboard:i:"@ + flag_digit(p.redirect_clipboard) + "\n"@ + "audiomode:i:"@ + dec_digits(p.audio_mode as nat), "\n"@, pat);
    lemma_contains_extend("full address:s:"@ + p.host@ + ":"@ + dec_digits(p.port as nat) + "\n"@ + "username:s:"@ + p.username@ + "\n"@ + "desktopwidth:i:"@ + dec_digits(p.desktop_width as nat) + "\n"@ + "desktopheight:i:"@ + dec_digits(p.desktop_height as nat) + "\n"@ + "session bpp:i:"@ + dec_digits(p.color_depth as nat) + "\n"@ + "redirectclipboard:i:"@ + flag_digit(p.redirect_clipboard) + "\n"@ + "audiomode:i:"@ + dec_digits(p.audio_mode as nat) + "\n"@, "networklevelauthentication:i:1\n"@, pat);
    lemma_contains_extend("full address:s:"@ + p.host@ + ":"@ + dec_digits(p.port as nat) + "\n"@ + "username:s:"@ + p.username@ + "\n"@ + "desktopwidth:i:"@ + dec_digits(p.desktop_width as nat) + "\n"@ + "desktopheight:i:"@ + dec_digits(p.desktop_height as nat) + "\n"@ + "session bpp:i:"@ + dec_digits(p.color_depth as nat) + "\n"@ + "redirectclipboard:i:"@ + flag_digit(p.redirect_clipboard) + "\n"@ + "audiomode:i:"@ + dec_digits(p.audio_mode as nat) + "\n"@ + "networklevelauthentication:i:1\n"@, "compression:i:"@, pat);
    lemma_contains_extend("full address:s:"@ + p.host@ + ":"@ + dec_digits(p.port as nat) + "\n"@ + "username:s:"@ + p.username@ + "\n"@ + "desktopwidth:i:"@ + dec_digits(p.desktop_width as nat) + "\n"@ + "desktopheight:i:"@ + dec_digits(p.desktop_height as nat) + "\n"@ + "session bpp:i:"@ + dec_digits(p.color_depth as nat) + "\n"@ + "redirectclipboard:i:"@ + flag_digit(p.redirect_clipboard) + "\n"@ + "audiomode:i:"@ + dec_digits(p.audio_mode as nat) + "\n"@ + "networklevelauthentication:i:1\n"@ + "compression:i:"@, flag_digit(p.compression_enabled), pat);
    lemma_contains_extend("full address:s:"@ + p.host@ + ":"@ + dec_digits(p.port as nat) + "\n"@ + "username:s:"@ + p.username@ + "\n"@ + "desktopwidth:i:"@ + dec_digits(p.desktop_width as nat) + "\n"@ + "desktopheight:i:"@ + dec_digits(p.desktop_height as nat) + "\n"@ + "session bpp:i:"@ + dec_digits(p.color_depth as nat) + "\n"@ + "redirectclipboard:i:"@ + flag_digit(p.redirect_clipboard) + "\n"@ + "audiomode:i:"@ + dec_digits(p.audio_mode as nat) + "\n"@ + "networklevelauthentication:i:1\n"@ + "compression:i:"@ + flag_digit(p.compression_enabled), "\n"@, pat);
    assert(pat =~= ":"@ + dec_digits(p.port as nat) + "\n"@ + "username:s:"@);
}

proof fn lemma_rdp_line_width(p: ConnectionProfile)
    ensures
        contains_seq(rdp_file_text(p), "desktopwidth:i:"@ + dec_digits(p.desktop_width as nat) + "\n"@),
{
    let x = "full address:s:"@ + p.host@ + ":"@ + dec_digits(p.port as nat) + "\n"@ + "username:s:"@ + p.username@ + "\n"@;
    lemma_line_after(x, "desktopwidth:i:"@, dec_digits(p.desktop_width as nat), "\n"@);
    let pat = "desktopwidth:i:"@ + dec_digits(p.desktop_width as nat) + "\n"@;
    lemma_contains_extend("full address:s:"@ + p.host@ + ":"@ + dec_digits(p.port as nat) + "\n"@ + "username:s:"@ + p.username@ + "\n"@ + "desktopwidth:i:"@ + dec_digits(p.desktop_width as nat) + "\n"@, "desktopheight:i:"@, pat);
    lemma_contains_extend("full address:s:"@ + p.host@ + ":"@ + dec_digits(p.port as nat) + "\n"@ + "username:s:"@ + p.username@ + "\n"@ + "desktopwidth:i:"@ + dec_digits(p.desktop_width as nat) + "\n"@ + "desktopheight:i:"@, dec_digits(p.desktop_height as nat), pat);
    lemma_contains_extend("full address:s:"@ + p.host@ + ":"@ + dec_digits(p.port as nat) + "\n"@ + "username:s:"@ + p.username@ + "\n"@ + "desktopwidth:i:"@ + dec_digits(p.desktop_width as nat) + "\n"@ + "desktopheight:i:"@ + dec_digits(p.desktop_height as nat), "\n"@, pat);
    lemma_contains_extend("full address:s:"@ + p.host@ + ":"@ + dec_digits(p.port as nat) + "\n"@ + "username:s:"@ + p.username@ + "\n"@ + "desktopwidth:i:"@ + dec_digits(p.desktop_width as nat) + "\n"@ + "desktopheight:i:"@ + dec_digits(p.desktop_height as nat) + "\n"@, "session bpp:i:"@, pat);
    lemma_contains_extend("full address:s:"@ + p.host@ + ":"@ + dec_digits(p.port as nat) + "\n"@ + "username:s:"@ + p.username@ + "\n"@ + "desktopwidth:i:"@ + dec_digits(p.desktop_width as nat) + "\n"@ + "desktopheight:i:"@ + dec_digits(p.desktop_height as nat) + "\n"@ + "session bpp:i:"@, dec_digits(p.color_depth as nat), pat);
    lemma_contains_extend("full address:s:"@ + p.host@ + ":"@ + dec_digits(p.port as nat) + "\n"@ + "username:s:"@ + p.username@ + "\n"@ + "desktopwidth:i:"@ + dec_digits(p.desktop_width as nat) + "\n"@ + "desktopheight:i:"@ + dec_digits(p.desktop_height as nat) + "\n"@ + "session bpp:i:"@ + dec_digits(p.color_depth as nat), "\n"@, pat);
    lemma_contains_extend("full address:s:"@ + p.host@ + ":"@ + dec_digits(p.port as nat) + "\n"@ + "username:s:"@ + p.username@ + "\n"@ + "desktopwidth:i:"@ + dec_digits(p.desktop_width as nat) + "\n"@ + "desktopheight:i:"@ + dec_digits(p.desktop_height as nat) + "\n"@ + "session bpp:i:"@ + dec_digits(p.color_depth as nat) + "\n"@, "redirectclipboard:i:"@, pat);
    lemma_contains_extend("full address:s:"@ + p.host@ + ":"@ + dec_digits(p.port as nat) + "\n"@ + "username:s:"@ + p.username@ + "\n"@ + "desktopwidth:i:"@ + dec_digits(p.desktop_width as nat) + "\n"@ + "desktopheight:i:"@ + dec_digits(p.desktop_height as nat) + "\n"@ + "session bpp:i:"@ + dec_digits(p.color_depth as nat) + "\n"@ + "redirectclipboard:i:"@, flag_digit(p.redirect_clipboard), pat);
    lemma_contains_extend("full address:s:"@ + p.host@ + ":"@ + dec_digits(p.port as nat) + "\n"@ + "username:s:"@ + p.username@ + "\n"@ + "desktopwidth:i:"@ + dec_digits(p.desktop_width as nat) + "\n"@ + "desktopheight:i:"@ + dec_digits(p.desktop_height as nat) + "\n"@ + "session bpp:i:"@ + dec_digits(p.color_depth as nat) + "\n"@ + "redirectclipboard:i:"@ + flag_digit(p.redirect_clipboard), "\n"@, pat);
    lemma_contains_extend("full address:s:"@ + p.host@ + ":"@ + dec_digits(p.port as nat) + "\n"@ + "username:s:"@ + p.username@ + "\n"@ + "desktopwidth:i:"@ + dec_digits(p.desktop_width as nat) + "\n"@ + "desktopheight:i:"@ + dec_digits(p.desktop_height as nat) + "\n"@ + "session bpp:i:"@ + dec_digits(p.color_depth as nat) + "\n"@ + "redirectclipboard:i:"@ + flag_digit(p.redirect_clipboard) + "\n"@, "audiomode:i:"@, pat);
    lemma_contains_extend("full address:s:"@ + p.host@ + ":"@ + dec_digits(p.port as nat) + "\n"@ + "username:s:"@ + p.username@ + "\n"@ + "desktopwidth:i:"@ + dec_digits(p.desktop_width as nat) + "\n"@ + "desktopheight:i:"@ + dec_digits(p.desktop_height as nat) + "\n"@ + "session bpp:i:"@ + dec_digits(p.color_depth as nat) + "\n"@ + "redirectclipboard:i:"@ + flag_digit(p.redirect_clipboard) + "\n"@ + "audiomode:i:"@, dec_digits(p.audio_mode as nat), pat);
    lemma_contains_extend("full address:s:"@ + p.host@ + ":"@ + dec_digits(p.port as nat) + "\n"@ + "username:s:"@ + p.username@ + "\n"@ + "desktopwidth:i:"@ + dec_digits(p.desktop_width as nat) + "\n"@ + "desktopheight:i:"@ + dec_digits(p.desktop_height as nat) + "\n"@ + "session bpp:i:"@ + dec_digits(p.color_depth as nat) + "\n"@ + "redirectclipboard:i:"@ + flag_digit(p.redirect_clipboard) + "\n"@ + "audiomode:i:"@ + dec_digits(p.audio_mode as nat), "\n"@, pat);
    lemma_contains_extend("full address:s:"@ + p.host@ + ":"@ + dec_digits(p.port as nat) + "\n"@ + "username:s:"@ + p.username@ + "\n"@ + "desktopwidth:i:"@ + dec_digits(p.desktop_width as nat) + "\n"@ + "desktopheight:i:"@ + dec_digits(p.desktop_height as nat) + "\n"@ + "session bpp:i:"@ + dec_digits(p.color_depth as nat) + "\n"@ + "redirectclipboard:i:"@ + flag_digit(p.redirect_clipboard) + "\n"@ + "audiomode:i:"@ + dec_digits(p.audio_mode as nat) + "\n"@, "networklevelauthentication:i:1\n"@, pat);
    lemma_contains_extend("full address:s:"@ + p.host@ + ":"@ + dec_digits(p.port as nat) + "\n"@ + "username:s:"@ + p.username@ + "\n"@ + "desktopwidth:i:"@ + dec_digits(p.desktop_width as nat) + "\n"@ + "desktopheight:i:"@ + dec_digits(p.desktop_height as nat) + "\n"@ + "session bpp:i:"@ + dec_digits(p.color_depth as nat) + "\n"@ + "redirectclipboard:i:"@ + flag_digit(p.redirect_clipboard) + "\n"@ + "audiomode:i:"@ + dec_digits(p.audio_mode as nat) + "\n"@ + "networklevelauthentication:i:1\n"@, "compression:i:"@, pat);
    lemma_contains_extend("full address:s:"@ + p.host@ + ":"@ + dec_digits(p.port as nat) + "\n"@ + "username:s:"@ + p.username@ + "\n"@ + "desktopwidth:i:"@ + dec_digits(p.desktop_width as nat) + "\n"@ + "desktopheight:i:"@ + dec_digits(p.desktop_height as nat) + "\n"@ + "session bpp:i:"@ + dec_digits(p.color_depth as nat) + "\n"@ + "redirectclipboard:i:"@ + flag_digit(p.redirect_clipboard) + "\n"@ + "audiomode:i:"@ + dec_digits(p.audio_mode as nat) + "\n"@ + "networklevelauthentication:i:1\n"@ + "compression:i:"@, flag_digit(p.compression_enabled), pat);
    lemma_contains_extend("full address:s:"@ + p.host@ + ":"@ + dec_digits(p.port as nat) + "\n"@ + "username:s:"@ + p.username@ + "\n"@ + "desktopwidth:i:"@ + dec_digits(p.desktop_width as nat) + "\n"@ + "desktopheight:i:"@ + dec_digits(p.desktop_height as nat) + "\n"@ + "session bpp:i:"@ + dec_digits(p.color_depth as nat) + "\n"@ + "redirectclipboard:i:"@ + flag_digit(p.redirect_clipboard) + "\n"@ + "audiomode:i:"@ + dec_digits(p.audio_mode as nat) + "\n"@ + "networklevelauthentication:i:1\n"@ + "compression:i:"@ + flag_digit(p.compression_enabled), "\n"@, pat);
    assert(pat =~= "desktopwidth:i:"@ + dec_digits(p.desktop_width as nat) + "\n"@);
}

proof fn lemma_rdp_line_height(p: ConnectionProfile)
    ensures
        contains_seq(rdp_file_text(p), "desktopheight:i:"@ + dec_digits(p.desktop_height as nat) + "\n"@),
{
    let x = "full address:s:"@ + p.host@ + ":"@ + dec_digits(p.port as nat) + "\n"@ + "username:s:"@ + p.username@ + "\n"@ + "desktopwidth:i:"@ + dec_digits(p.desktop_width as nat) + "\n"@;
    lemma_line_after(x, "desktopheight:i:"@, dec_digits(p.desktop_height as nat), "\n"@);
    let pat = "desktopheight:i:"@ + dec_digits(p.desktop_height as nat) + "\n"@;
    lemma_contains_extend("full address:s:"@ + p.host@ + ":"@ + dec_digits(p.port as nat) + "\n"@ + "username:s:"@ + p.username@ + "\n"@ + "desktopwidth:i:"@ + dec_digits(p.desktop_width as nat) + "\n"@ + "desktopheight:i:"@ + dec_digits(p.desktop_height as nat) + "\n"@, "session bpp:i:"@, pat);
    lemma_contains_extend("full address:s:"@ + p.host@ + ":"@ + dec_digits(p.port as nat) + "\n"@ + "username:s:"@ + p.username@ + "\n"@ + "desktopwidth:i:"@ + dec_digits(p.desktop_width as nat) + "\n"@ + "desktopheight:i:"@ + dec_digits(p.desktop_height as nat) + "\n"@ + "session bpp:i:"@, dec_digits(p.color_depth as nat), pat);
    lemma_contains_extend("full address:s:"@ + p.host@ + ":"@ + dec_digits(p.port as nat) + "\n"@ + "username:s:"@ + p.username@ + "\n"@ + "desktopwidth:i:"@ + dec_digits(p.desktop_width as nat) + "\n"@ + "desktopheight:i:"@ + dec_digits(p.desktop_height as nat) + "\n"@ + "session bpp:i:"@ + dec_digits(p.color_depth as nat), "\n"@, pat);
    lemma_contains_extend("full address:s:"@ + p.host@ + ":"@ + dec_digits(p.port as nat) + "\n"@ + "username:s:"@ + p.username@ + "\n"@ + "desktopwidth:i:"@ + dec_digits(p.desktop_width as nat) + "\n"@ + "desktopheight:i:"@ + dec_digits(p.desktop_height as nat) + "\n"@ + "session bpp:i:"@ + dec_digits(p.color_depth as nat) + "\n"@, "redirectclipboard:i:"@, pat);
    lemma_contains_extend("full address:s:"@ + p.host@ + ":"@ + dec_digits(p.port as nat) + "\n"@ + "username:s:"@ + p.username@ + "\n"@ + "desktopwidth:i:"@ + dec_digits(p.desktop_width as nat) + "\n"@ + "desktopheight:i:"@ + dec_digits(p.desktop_height as nat) + "\n"@ + "session bpp:i:"@ + dec_digits(p.color_depth as nat) + "\n"@ + "redirectclipboard:i:"@, flag_digit(p.redirect_clipboard), pat);
    lemma_contains_extend("full address:s:"@ + p.host@ + ":"@ + dec_digits(p.port as nat) + "\n"@ + "username:s:"@ + p.username@ + "\n"@ + "desktopwidth:i:"@ + dec_digits(p.desktop_width as nat) + "\n"@ + "desktopheight:i:"@ + dec_digits(p.desktop_height as nat) + "\n"@ + "session bpp:i:"@ + dec_digits(p.color_depth as nat) + "\n"@ + "redirectclipboard:i:"@ + flag_digit(p.redirect_clipboard), "\n"@, pat);
    lemma_contains_extend("full address:s:"@ + p.host@ + ":"@ + dec_digits(p.port as nat) + "\n"@ + "username:s:"@ + p.username@ + "\n"@ + "desktopwidth:i:"@ + dec_digits(p.desktop_width as nat) + "\n"@ + "desktopheight:i:"@ + dec_digits(p.desktop_height as nat) + "\n"@ + "session bpp:i:"@ + dec_digits(p.color_depth as nat) + "\n"@ + "redirectclipboard:i:"@ + flag_digit(p.redirect_clipboard) + "\n"@, "audiomode:i:"@, pat);
    lemma_contains_extend("full address:s:"@ + p.host@ + ":"@ + dec_digits(p.port as nat) + "\n"@ + "username:s:"@ + p.username@ + "\n"@ + "desktopwidth:i:"@ + dec_digits(p.desktop_width as nat) + "\n"@ + "desktopheight:i:"@ + dec_digits(p.desktop_height as nat) + "\n"@ + "session bpp:i:"@ + dec_digits(p.color_depth as nat) + "\n"@ + "redirectclipboard:i:"@ + flag_digit(p.redirect_clipboard) + "\n"@ + "audiomode:i:"@, dec_digits(p.audio_mode as nat), pat);
    lemma_contains_extend("full address:s:"@ + p.host@ + ":"@ + dec_digits(p.port as nat) + "\n"@ + "username:s:"@ + p.username@ + "\n"@ + "desktopwidth:i:"@ + dec_digits(p.desktop_width as nat) + "\n"@ + "desktopheight:i:"@ + dec_digits(p.desktop_height as nat) + "\n"@ + "session bpp:i:"@ + dec_digits(p.color_depth as nat) + "\n"@ + "redirectclipboard:i:"@ + flag_digit(p.redirect_clipboard) + "\n"@ + "audiomode:i:"@ + dec_digits(p.audio_mode as nat), "\n"@, pat);
    lemma_contains_extend("full address:s:"@ + p.host@ + ":"@ + dec_digits(p.port as nat) + "\n"@ + "username:s:"@ + p.username@ + "\n"@ + "desktopwidth:i:"@ + dec_digits(p.desktop_width as nat) + "\n"@ + "desktopheight:i:"@ + dec_digits(p.desktop_height as nat) + "\n"@ + "session bpp:i:"@ + dec_digits(p.color_depth as nat) + "\n"@ + "redirectclipboard:i:"@ + flag_digit(p.redirect_clipboard) + "\n"@ + "audiomode:i:"@ + dec_digits(p.audio_mode as nat) + "\n"@, "networklevelauthentication:i:1\n"@, pat);
    lemma_contains_extend("full address:s:"@ + p.host@ + ":"@ + dec_digits(p.port as nat) + "\n"@ + "username:s:"@ + p.username@ + "\n"@ + "desktopwidth:i:"@ + dec_digits(p.desktop_width as nat) + "\n"@ + "desktopheight:i:"@ + dec_digits(p.desktop_height as nat) + "\n"@ + "session bpp:i:"@ + dec_digits(p.color_depth as nat) + "\n"@ + "redirectclipboard:i:"@ + flag_digit(p.redirect_clipboard) + "\n"@ + "audiomode:i:"@ + dec_digits(p.audio_mode as nat) + "\n"@ + "networklevelauthentication:i:1\n"@, "compression:i:"@, pat);
    lemma_contains_extend("full address:s:"@ + p.host@ + ":"@ + dec_digits(p.port as nat) + "\n"@ + "username:s:"@ + p.username@ + "\n"@ + "desktopwidth:i:"@ + dec_digits(p.desktop_width as nat) + "\n"@ + "desktopheight:i:"@ + dec_digits(p.desktop_height as nat) + "\n"@ + "session bpp:i:"@ + dec_digits(p.color_depth as nat) + "\n"@ + "redirectclipboard:i:"@ + flag_digit(p.redirect_clipboard) + "\n"@ + "audiomode:i:"@ + dec_digits(p.audio_mode as nat) + "\n"@ + "networklevelauthentication:i:1\n"@ + "compression:i:"@, flag_digit(p.compression_enabled), pat);
    lemma_contains_extend("full address:s:"@ + p.host@ + ":"@ + dec_digits(p.port as nat) + "\n"@ + "username:s:"@ + p.username@ + "\n"@ + "desktopwidth:i:"@ + dec_digits(p.desktop_width as nat) + "\n"@ + "desktopheight:i:"@ + dec_digits(p.desktop_height as nat) + "\n"@ + "session bpp:i:"@ + dec_digits(p.color_depth as nat) + "\n"@ + "redirectclipboard:i:"@ + flag_digit(p.redirect_clipboard) + "\n"@ + "audiomode:i:"@ + dec_digits(p.audio_mode as nat) + "\n"@ + "networklevelauthentication:i:1\n"@ + "compression:i:"@ + flag_digit(p.compression_enabled), "\n"@, pat);
    assert(pat =~= "desktopheight:i:"@ + dec_digits(p.desktop_height as nat) + "\n"@);
}

proof fn lemma_rdp_line_bpp(p: ConnectionProfile)
    ensures
        contains_seq(rdp_file_text(p), "session bpp:i:"@ + dec_digits(p.color_depth as nat) + "\n"@),
{
    let x = "full address:s:"@ + p.host@ + ":"@ + dec_digits(p.port as nat) + "\n"@ + "username:s:"@ + p.username@ + "\n"@ + "desktopwidth:i:"@ + dec_digits(p.desktop_width as nat) + "\n"@ + "desktopheight:i:"@ + dec_digits(p.desktop_height as nat) + "\n"@;
    lemma_line_after(x, "session bpp:i:"@, dec_digits(p.color_depth as nat), "\n"@);
    let pat = "session bpp:i:"@ + dec_digits(p.color_depth as nat) + "\n"@;
    lemma_contains_extend("full address:s:"@ + p.host@ + ":"@ + dec_digits(p.port as nat) + "\n"@ + "username:s:"@ + p.username@ + "\n"@ + "desktopwidth:i:"@ + dec_digits(p.desktop_width as nat) + "\n"@ + "desktopheight:i:"@ + dec_digits(p.desktop_height as nat) + "\n"@ + "session bpp:i:"@ + dec_digits(p.color_depth as nat) + "\n"@, "redirectclipboard:i:"@, pat);
    lemma_contains_extend("full address:s:"@ + p.host@ + ":"@ + dec_digits(p.port as nat) + "\n"@ + "username:s:"@ + p.username@ + "\n"@ + "desktopwidth:i:"@ + dec_digits(p.desktop_width as nat) + "\n"@ + "desktopheight:i:"@ + dec_digits(p.desktop_height as nat) + "\n"@ + "session bpp:i:"@ + dec_digits(p.color_depth as nat) + "\n"@ + "redirectclipboard:i:"@, flag_digit(p.redirect_clipboard), pat);
    lemma_contains_extend("full address:s:"@ + p.host@ + ":"@ + dec_digits(p.port as nat) + "\n"@ + "username:s:"@ + p.username@ + "\n"@ + "desktopwidth:i:"@ + dec_digits(p.desktop_width as nat) + "\n"@ + "desktopheight:i:"@ + dec_digits(p.desktop_height as nat) + "\n"@ + "session bpp:i:"@ + dec_digits(p.color_depth as nat) + "\n"@ + "redirectclipboard:i:"@ + flag_digit(p.redirect_clipboard), "\n"@, pat);
    lemma_contains_extend("full address:s:"@ + p.host@ + ":"@ + dec_digits(p.port as nat) + "\n"@ + "username:s:"@ + p.username@ + "\n"@ + "desktopwidth:i:"@ + dec_digits(p.desktop_width as nat) + "\n"@ + "desktopheight:i:"@ + dec_digits(p.desktop_height as nat) + "\n"@ + "session bpp:i:"@ + dec_digits(p.color_depth as nat) + "\n"@ + "redirectclipboard:i:"@ + flag_digit(p.redirect_clipboard) + "\n"@, "audiomode:i:"@, pat);
    lemma_contains_extend("full address:s:"@ + p.host@ + ":"@ + dec_digits(p.port as nat) + "\n"@ + "username:s:"@ + p.username@ + "\n"@ + "desktopwidth:i:"@ + dec_digits(p.desktop_width as nat) + "\n"@ + "desktopheight:i:"@ + dec_digits(p.desktop_height as nat) + "\n"@ + "session bpp:i:"@ + dec_digits(p.color_depth as nat) + "\n"@ + "redirectclipboard:i:"@ + flag_digit(p.redirect_clipboard) + "\n"@ + "audiomode:i:"@, dec_digits(p.audio_mode as nat), pat);
    lemma_contains_extend("full address:s:"@ + p.host@ + ":"@ + dec_digits(p.port as nat) + "\n"@ + "username:s:"@ + p.username@ + "\n"@ + "desktopwidth:i:"@ + dec_digits(p.desktop_width as nat) + "\n"@ + "desktopheight:i:"@ + dec_digits(p.desktop_height as nat) + "\n"@ + "session bpp:i:"@ + dec_digits(p.color_depth as nat) + "\n"@ + "redirectclipboard:i:"@ + flag_digit(p.redirect_clipboard) + "\n"@ + "audiomode:i:"@ + dec_digits(p.audio_mode as nat), "\n"@, pat);
    lemma_contains_extend("full address:s:"@ + p.host@ + ":"@ + dec_digits(p.port as nat) + "\n"@ + "username:s:"@ + p.username@ + "\n"@ + "desktopwidth:i:"@ + dec_digits(p.desktop_width as nat) + "\n"@ + "desktopheight:i:"@ + dec_digits(p.desktop_height as nat) + "\n"@ + "session bpp:i:"@ + dec_digits(p.color_depth as nat) + "\n"@ + "redirectclipboard:i:"@ + flag_digit(p.redirect_clipboard) + "\n"@ + "audiomode:i:"@ + dec_digits(p.audio_mode as nat) + "\n"@, "networklevelauthentication:i:1\n"@, pat);
    lemma_contains_extend("full address:s:"@ + p.host@ + ":"@ + dec_digits(p.port as nat) + "\n"@ + "username:s:"@ + p.username@ + "\n"@ + "desktopwidth:i:"@ + dec_digits(p.desktop_width as nat) + "\n"@ + "desktopheight:i:"@ + dec_digits(p.desktop_height as nat) + "\n"@ + "session bpp:i:"@ + dec_digits(p.color_depth as nat) + "\n"@ + "redirectclipboard:i:"@ + flag_digit(p.redirect_clipboard) + "\n"@ + "audiomode:i:"@ + dec_digits(p.audio_mode as nat) + "\n"@ + "networklevelauthentication:i:1\n"@, "compression:i:"@, pat);
    lemma_contains_extend("full address:s:"@ + p.host@ + ":"@ + dec_digits(p.port as nat) + "\n"@ + "username:s:"@ + p.username@ + "\n"@ + "desktopwidth:i:"@ + dec_digits(p.desktop_width as nat) + "\n"@ + "desktopheight:i:"@ + dec_digits(p.desktop_height as nat) + "\n"@ + "session bpp:i:"@ + dec_digits(p.color_depth as nat) + "\n"@ + "redirectclipboard:i:"@ + flag_digit(p.redirect_clipboard) + "\n"@ + "audiomode:i:"@ + dec_digits(p.audio_mode as nat) + "\n"@ + "networklevelauthentication:i:1\n"@ + "compression:i:"@, flag_digit(p.compression_enabled), pat);
    lemma_contains_extend("full address:s:"@ + p.host@ + ":"@ + dec_digits(p.port as nat) + "\n"@ + "username:s:"@ + p.username@ + "\n"@ + "desktopwidth:i:"@ + dec_digits(p.desktop_width as nat) + "\n"@ + "desktopheight:i:"@ + dec_digits(p.desktop_height as nat) + "\n"@ + "session bpp:i:"@ + dec_digits(p.color_depth as nat) + "\n"@ + "redirectclipboard:i:"@ + flag_digit(p.redirect_clipboard) + "\n"@ + "audiomode:i:"@ + dec_digits(p.audio_mode as nat) + "\n"@ + "networklevelauthentication:i:1\n"@ + "compression:i:"@ + flag_digit(p.compression_enabled), "\n"@, pat);
    assert(pat =~= "session bpp:i:"@ + dec_digits(p.color_depth as nat) + "\n"@);
}

proof fn lemma_rdp_line_clipboard(p: ConnectionProfile)
    ensures
        contains_seq(rdp_file_text(p), "redirectclipboard:i:"@ + (if p.redirect_clipboard { "1"@ } else { "0"@ }) + "\n"@),
{
    let x = "full address:s:"@ + p.host@ + ":"@ + dec_digits(p.port as nat) + "\n"@ + "username:s:"@ + p.username@ + "\n"@ + "desktopwidth:i:"@ + dec_digits(p.desktop_width as nat) + "\n"@ + "desktopheight:i:"@ + dec_digits(p.desktop_height as nat) + "\n"@ + "session bpp:i:"@ + dec_digits(p.color_depth as nat) + "\n"@;
    lemma_line_after(x, "redirectclipboard:i:"@, flag_digit(p.redirect_clipboard), "\n"@);
    let pat = "redirectclipboard:i:"@ + flag_digit(p.redirect_clipboard) + "\n"@;
    lemma_contains_extend("full address:s:"@ + p.host@ + ":"@ + dec_digits(p.port as nat) + "\n"@ + "username:s:"@ + p.username@ + "\n"@ + "desktopwidth:i:"@ + dec_digits(p.desktop_width as nat) + "\n"@ + "desktopheight:i:"@ + dec_digits(p.desktop_height as nat) + "\n"@ + "session bpp:i:"@ + dec_digits(p.color_depth as nat) + "\n"@ + "redirectclipboard:i:"@ + flag_digit(p.redirect_clipboard) + "\n"@, "audiomode:i:"@, pat);
    lemma_contains_extend("full address:s:"@ + p.host@ + ":"@ + dec_digits(p.port as nat) + "\n"@ + "username:s:"@ + p.username@ + "\n"@ + "desktopwidth:i:"@ + dec_digits(p.desktop_width as nat) + "\n"@ + "desktopheight:i:"@ + dec_digits(p.desktop_height as nat) + "\n"@ + "session bpp:i:"@ + dec_digits(p.color_depth as nat) + "\n"@ + "redirectclipboard:i:"@ + flag_digit(p.redirect_clipboard) + "\n"@ + "audiomode:i:"@, dec_digits(p.audio_mode as nat), pat);
    lemma_contains_extend("full address:s:"@ + p.host@ + ":"@ + dec_digits(p.port as nat) + "\n"@ + "username:s:"@ + p.username@ + "\n"@ + "desktopwidth:i:"@ + dec_digits(p.desktop_width as nat) + "\n"@ + "desktopheight:i:"@ + dec_digits(p.desktop_height as nat) + "\n"@ + "session bpp:i:"@ + dec_digits(p.color_depth as nat) + "\n"@ + "redirectclipboard:i:"@ + flag_digit(p.redirect_clipboard) + "\n"@ + "audiomode:i:"@ + dec_digits(p.audio_mode as nat), "\n"@, pat);
    lemma_contains_extend("full address:s:"@ + p.host@ + ":"@ + dec_digits(p.port as nat) + "\n"@ + "username:s:"@ + p.username@ + "\n"@ + "desktopwidth:i:"@ + dec_digits(p.desktop_width as nat) + "\n"@ + "desktopheight:i:"@ + dec_digits(p.desktop_height as nat) + "\n"@ + "session bpp:i:"@ + dec_digits(p.color_depth as nat) + "\n"@ + "redirectclipboard:i:"@ + flag_digit(p.redirect_clipboard) + "\n"@ + "audiomode:i:"@ + dec_digits(p.audio_mode as nat) + "\n"@, "networklevelauthentication:i:1\n"@, pat);
    lemma_contains_extend("full address:s:"@ + p.host@ + ":"@ + dec_digits(p.port as nat) + "\n"@ + "username:s:"@ + p.username@ + "\n"@ + "desktopwidth:i:"@ + dec_digits(p.desktop_width as nat) + "\n"@ + "desktopheight:i:"@ + dec_digits(p.desktop_height as nat) + "\n"@ + "session bpp:i:"@ + dec_digits(p.color_depth as nat) + "\n"@ + "redirectclipboard:i:"@ + flag_digit(p.redirect_clipboard) + "\n"@ + "audiomode:i:"@ + dec_digits(p.audio_mode as nat) + "\n"@ + "networklevelauthentication:i:1\n"@, "compression:i:"@, pat);
    lemma_contains_extend("full address:s:"@ + p.host@ + ":"@ + dec_digits(p.port as nat) + "\n"@ + "username:s:"@ + p.username@ + "\n"@ + "desktopwidth:i:"@ + dec_digits(p.desktop_width as nat) + "\n"@ + "desktopheight:i:"@ + dec_digits(p.desktop_height as nat) + "\n"@ + "session bpp:i:"@ + dec_digits(p.color_depth as nat) + "\n"@ + "redirectclipboard:i:"@ + flag_digit(p.redirect_clipboard) + "\n"@ + "audiomode:i:"@ + dec_digits(p.audio_mode as nat) + "\n"@ + "networklevelauthentication:i:1\n"@ + "compression:i:"@, flag_digit(p.compression_enabled), pat);
    lemma_contains_extend("full address:s:"@ + p.host@ + ":"@ + dec_digits(p.port as nat) + "\n"@ + "username:s:"@ + p.username@ + "\n"@ + "desktopwidth:i:"@ + dec_digits(p.desktop_width as nat) + "\n"@ + "desktopheight:i:"@ + dec_digits(p.desktop_height as nat) + "\n"@ + "session bpp:i:"@ + dec_digits(p.color_depth as nat) + "\n"@ + "redirectclipboard:i:"@ + flag_digit(p.redirect_clipboard) + "\n"@ + "audiomode:i:"@ + dec_digits(p.audio_mode as nat) + "\n"@ + "networklevelauthentication:i:1\n"@ + "compression:i:"@ + flag_digit(p.compression_enabled), "\n"@, pat);
    assert(pat =~= "redirectclipboard:i:"@ + (if p.redirect_clipboard { "1"@ } else { "0"@ }) + "\n"@);
}

proof fn lemma_rdp_line_audio(p: ConnectionProfile)
    ensures
        contains_seq(rdp_file_text(p), "audiomode:i:"@ + dec_digits(p.audio_mode as nat) + "\n"@),
{
    let x = "full address:s:"@ + p.host@ + ":"@ + dec_digits(p.port as nat) + "\n"@ + "username:s:"@ + p.username@ + "\n"@ + "desktopwidth:i:"@ + dec_digits(p.desktop_width as nat) + "\n"@ + "desktopheight:i:"@ + dec_digits(p.desktop_height as nat) + "\n"@ + "session bpp:i:"@ + dec_digits(p.color_depth as nat) + "\n"@ + "redirectclipboard:i:"@ + flag_digit(p.redirect_clipboard) + "\n"@;
    lemma_line_after(x, "audiomode:i:"@, dec_digits(p.audio_mode as nat), "\n"@);
    let pat = "audiomode:i:"@ + dec_digits(p.audio_mode as nat) + "\n"@;
    lemma_contains_extend("full address:s:"@ + p.host@ + ":"@ + dec_digits(p.port as nat) + "\n"@ + "username:s:"@ + p.username@ + "\n"@ + "desktopwidth:i:"@ + dec_digits(p.desktop_width as nat) + "\n"@ + "desktopheight:i:"@ + dec_digits(p.desktop_height as nat) + "\n"@ + "session bpp:i:"@ + dec_digits(p.color_depth as nat) + "\n"@ + "redirectclipboard:i:"@ + flag_digit(p.redirect_clipboard) + "\n"@ + "audiomode:i:"@ + dec_digits(p.audio_mode as nat) + "\n"@, "networklevelauthentication:i:1\n"@, pat);
    lemma_contains_extend("full address:s:"@ + p.host@ + ":"@ + dec_digits(p.port as nat) + "\n"@ + "username:s:"@ + p.username@ + "\n"@ + "desktopwidth:i:"@ + dec_digits(p.desktop_width as nat) + "\n"@ + "desktopheight:i:"@ + dec_digits(p.desktop_height as nat) + "\n"@ + "session bpp:i:"@ + dec_digits(p.color_depth as nat) + "\n"@ + "redirectclipboard:i:"@ + flag_digit(p.redirect_clipboard) + "\n"@ + "audiomode:i:"@ + dec_digits(p.audio_mode as nat) + "\n"@ + "networklevelauthentication:i:1\n"@, "compression:i:"@, pat);
    lemma_contains_extend("full address:s:"@ + p.host@ + ":"@ + dec_digits(p.port as nat) + "\n"@ + "username:s:"@ + p.username@ + "\n"@ + "desktopwidth:i:"@ + dec_digits(p.desktop_width as nat) + "\n"@ + "desktopheight:i:"@ + dec_digits(p.desktop_height as nat) + "\n"@ + "session bpp:i:"@ + dec_digits(p.color_depth as nat) + "\n"@ + "redirectclipboard:i:"@ + flag_digit(p.redirect_clipboard) + "\n"@ + "audiomode:i:"@ + dec_digits(p.audio_mode as nat) + "\n"@ + "networklevelauthentication:i:1\n"@ + "compression:i:"@, flag_digit(p.compression_enabled), pat);
    lemma_contains_extend("full address:s:"@ + p.host@ + ":"@ + dec_digits(p.port as nat) + "\n"@ + "username:s:"@ + p.username@ + "\n"@ + "desktopwidth:i:"@ + dec_digits(p.desktop_width as nat) + "\n"@ + "desktopheight:i:"@ + dec_digits(p.desktop_height as nat) + "\n"@ + "session bpp:i:"@ + dec_digits(p.color_depth as nat) + "\n"@ + "redirectclipboard:i:"@ + flag_digit(p.redirect_clipboard) + "\n"@ + "audiomode:i:"@ + dec_digits(p.audio_mode as nat) + "\n"@ + "networklevelauthentication:i:1\n"@ + "compression:i:"@ + flag_digit(p.compression_enabled), "\n"@, pat);
    assert(pat =~= "audiomode:i:"@ + dec_digits(p.audio_mode as nat) + "\n"@);
}

proof fn lemma_rdp_line_compression(p: ConnectionProfile)
    ensures
        contains_seq(rdp_file_text(p), "compression:i:"@ + (if p.compression_enabled { "1"@ } else { "0"@ }) + "\n"@),
{
    let x = "full address:s:"@ + p.host@ + ":"@ + dec_digits(p.port as nat) + "\n"@ + "username:s:"@ + p.username@ + "\n"@ + "desktopwidth:i:"@ + dec_digits(p.desktop_width as nat) + "\n"@ + "desktopheight:i:"@ + dec_digits(p.desktop_height as nat) + "\n"@ + "session bpp:i:"@ + dec_digits(p.color_depth as nat) + "\n"@ + "redirectclipboard:i:"@ + flag_digit(p.redirect_clipboard) + "\n"@ + "audiomode:i:"@ + dec_digits(p.audio_mode as nat) + "\n"@ + "networklevelauthentication:i:1\n"@;
    lemma_line_after(x, "compression:i:"@, flag_digit(p.compression_enabled), "\n"@);
    let pat = "compression:i:"@ + flag_digit(p.compression_enabled) + "\n"@;
    assert(pat =~= "compression:i:"@ + (if p.compression_enabled { "1"@ } else { "0"@ }) + "\n"@);
}

/// An exported `.rdp` file carries the profile's own settings: a
/// `key:i:value` line for the desktop width and height, the color depth,
/// the audio mode, clipboard redirection and compression, whose value reads
/// back as the profile's (as a decimal number, or `1`/`0` for a flag), and
/// the address line ending with the port, which reads back too.
pub proof fn lemma_rdp_file_carries_settings(p: ConnectionProfile)
    ensures
        ({
            let t = rdp_file_text(p);
            &&& contains_seq(t, ":"@ + dec_digits(p.port as nat) + "\n"@ + "username:s:"@)
            &&& contains_seq(t, "desktopwidth:i:"@ + dec_digits(p.desktop_width as nat) + "\n"@)
            &&& contains_seq(t, "desktopheight:i:"@ + dec_digits(p.desktop_height as nat) + "\n"@)
            &&& contains_seq(t, "session bpp:i:"@ + dec_digits(p.color_depth as nat) + "\n"@)
            &&& contains_seq(t, "redirectclipboard:i:"@ + (if p.redirect_clipboard { "1"@ } else { "0"@ }) + "\n"@)
            &&& contains_seq(t, "audiomode:i:"@ + dec_digits(p.audio_mode as nat) + "\n"@)
            &&& contains_seq(t, "compression:i:"@ + (if p.compression_enabled { "1"@ } else { "0"@ }) + "\n"@)
        }),
        parse_u16_spec(dec_digits(p.port as nat)) == Some(p.port),
        parse_u16_spec(dec_digits(p.desktop_width as nat)) == Some(p.desktop_width),
        parse_u16_spec(dec_digits(p.desktop_height as nat)) == Some(p.desktop_height),
        parse_u16_spec(dec_digits(p.color_depth as nat)) == Some(p.color_depth as u16),
        parse_u16_spec(dec_digits(p.audio_mode as nat)) == Some(p.audio_mode as u16),
{
    lemma_rdp_line_port(p);
    lemma_rdp_line_width(p);
    lemma_rdp_line_height(p);
    lemma_rdp_line_bpp(p);
    lemma_rdp_line_clipboard(p);
    lemma_rdp_line_audio(p);
    lemma_rdp_line_compression(p);
    lemma_parse_u16_of_dec(p.port);
    lemma_parse_u16_of_dec(p.desktop_width);
    lemma_parse_u16_of_dec(p.desktop_height);
    lemma_parse_u16_of_dec(p.color_depth as u16);
    lemma_parse_u16_of_dec(p.audio_mode as u16);
}

/// The properties of a `.rdp` file that a profile imports, each present
/// when the file holds it with the right type.
#[derive(Debug, Clone)]
pub struct RdpProperties {
    /// `full address:s:`.
    pub full_address: Option<String>,
    /// `username:s:`.
    pub username: Option<String>,
    /// `desktopwidth:i:`.
    pub desktop_width: Option<i64>,
    /// `desktopheight:i:`.
    pub desktop_height: Option<i64>,
    /// `session bpp:i:`.
    pub session_bpp: Option<i64>,
    /// `redirectclipboard:i:`.
    pub redirect_clipboard: Option<i64>,
    /// `audiomode:i:`.
    pub audio_mode: Option<i64>,
}

/// The host of an imported `full address`: what precedes its first `:`, or
/// all of it.
pub open spec fn imported_host(addr: Seq<char>) -> Seq<char> {
    match first_index_of(addr, ':') {
        Some(k) => addr.subrange(0, k),
        None => addr,
    }
}

/// The port of an imported `full address`: what follows its first `:`,
/// when it parses as a `u16`.
pub open spec fn imported_port(addr: Seq<char>) -> Option<u16> {
    match first_index_of(addr, ':') {
        Some(k) => parse_u16_spec(addr.subrange(k + 1, addr.len() as int)),
        None => None,
    }
}

/// `r` is the profile a `.rdp` file with properties `props` imports into:
/// the default profile with each present property taken over.
pub open spec fn imported_profile(props: RdpProperties, r: ConnectionProfile) -> bool {
    let host = match props.full_address {
        Some(a) => imported_host(a@),
        None => "100.64.0.4"@,
    };
    &&& r.host@ == host
    &&& r.port == match props.full_address {
        Some(a) => match imported_port(a@) {
            Some(p) => p,
            None => 33898,
        },
        None => 33898,
    }
    &&& r.username@ == match props.username {
        Some(u) => u@,
        None => "damartel"@,
    }
    &&& r.desktop_width == match props.desktop_width {
        Some(w) => w as u16,
        None => 1920,
    }
    &&& r.desktop_height == match props.desktop_height {
        Some(h) => h as u16,
        None => 1080,
    }
    &&& r.color_depth == match props.session_bpp {
        Some(b) => b as u8,
        None => 32,
    }
    &&& r.redirect_clipboard == match props.redirect_clipboard {
        Some(c) => c == 1,
        None => true,
    }
    &&& r.audio_mode == match props.audio_mode {
        Some(a) => a as u8,
        None => 0,
    }
    &&& r.name@ == "Imported ("@ + host + ")"@
    &&& r.pass_token@ == Seq::<char>::empty()
    &&& r.domain is None
    &&& r.compression_enabled
    &&& r.compression_level == 3
    &&& !r.egfx_enabled
    &&& !r.avc444_enabled
    &&& !r.auto_reconnect
    &&& !r.prevent_session_lock
}

impl ConnectionProfile {
    /// Imports the properties of a `.rdp` file into a profile: the default
    /// profile with the file's address (host before the first `:`, the port
    /// after it when it parses), user name, desktop size, color depth,
    /// clipboard redirection (on for 1) and audio mode, named
    /// `Imported (host)`. The integer properties are truncated to their
    /// fields' widths.
    pub fn from_rdp_properties(props: &RdpProperties) -> (r: ConnectionProfile)
        ensures
            imported_profile(*props, r),
    {
        let mut profile = ConnectionProfile::default();
        match &props.full_address {
            Some(addr) => {
                let chars = str_chars(addr.as_str());
                proof {
                    lemma_first_index_of(chars@, ':');
                }
                match find_char(&chars, ':') {
                    Some(k) => {
                        profile.host = string_from_chars(&chars_range(&chars, 0, k));
                        let port_chars = chars_range(&chars, k + 1, chars.len());
                        match parse_u16(&port_chars) {
                            Some(p) => {
                                profile.port = p;
                            },
                            None => {},
                        }
                    },
                    None => {
                        profile.host = addr.clone();
                    },
                }
            },
            None => {},
        }
        match &props.username {
            Some(u) => {
                profile.username = u.clone();
            },
            None => {},
        }
        match props.desktop_width {
            Some(w) => {
                profile.desktop_width = w as u16;
            },
            None => {},
        }
        match props.desktop_height {
            Some(h) => {
                profile.desktop_height = h as u16;
            },
            None => {},
        }
        match props.session_bpp {
            Some(b) => {
                profile.color_depth = b as u8;
            },
            None => {},
        }
        match props.redirect_clipboard {
            Some(c) => {
                profile.redirect_clipboard = c == 1;
            },
            None => {},
        }
        match props.audio_mode {
            Some(a) => {
                profile.audio_mode = a as u8;
            },
            None => {},
        }
        let mut name = String::from_str("Imported (");
        let host_chars = str_chars(profile.host.as_str());
        append_chars_to_string(&mut name, &host_chars);
        let close = str_chars(")");
        append_chars_to_string(&mut name, &close);
        profile.name = name;
        profile
    }

    /// A profile with the given name, host and port and default settings.
    pub fn new(name: &str, host: &str, port: u16) -> (r: ConnectionProfile)
        ensures
            r.name@ == name@,
            r.host@ == host@,
            r.port == port,
            has_default_settings(r),
    {
        let d = ConnectionProfile::default();
        ConnectionProfile { name: String::from_str(name), host: String::from_str(host), port, ..d }
    }

    /// The connection settings the profile chooses: its credentials,
    /// domain and desktop size; the graphics pipeline when enabled; audio
    /// played here for audio mode 0; RDP 6.1 bulk compression when
    /// compression is on. The fixed settings of every connection (CredSSP
    /// without plain TLS, keyboard, client name) are the caller's.
    pub fn connector_settings(&self) -> (r: ConnectorSettings)
        ensures
            r.username@ == self.username@,
            r.password@ == self.pass_token@,
            match (r.domain, self.domain) {
                (None, None) => true,
                (Some(a), Some(b)) => a@ == b@,
                _ => false,
            },
            r.desktop_width == self.desktop_width,
            r.desktop_height == self.desktop_height,
            r.enable_graphics_pipeline == self.egfx_enabled,
            r.enable_audio_playback == (self.audio_mode == 0),
            r.compression_rdp61 == self.compression_enabled,
    {
        ConnectorSettings {
            username: self.username.clone(),
            password: self.pass_token.clone(),
            domain: match &self.domain {
                Some(d) => Some(d.clone()),
                None => None,
            },
            desktop_width: self.desktop_width,
            desktop_height: self.desktop_height,
            enable_graphics_pipeline: self.egfx_enabled,
            enable_audio_playback: self.audio_mode == 0,
            compression_rdp61: self.compression_enabled,
        }
    }

    /// Sets the desktop size of a preset: 1920x1080, 2560x1440 or
    /// 3840x2160.
    pub fn apply_resolution_preset(&mut self, preset: ResolutionPreset)
        ensures
            (final(self).desktop_width, final(self).desktop_height) == match preset {
                ResolutionPreset::FullHd => (1920u16, 1080u16),
                ResolutionPreset::Qhd => (2560u16, 1440u16),
                ResolutionPreset::Uhd4k => (3840u16, 2160u16),
            },
            *final(self) == (ConnectionProfile {
                desktop_width: final(self).desktop_width,
                desktop_height: final(self).desktop_height,
                ..*old(self)
            }),
    {
        match preset {
            ResolutionPreset::FullHd => {
                self.desktop_width = 1920;
                self.desktop_height = 1080;
            },
            ResolutionPreset::Qhd => {
                self.desktop_width = 2560;
                self.desktop_height = 1440;
            },
            ResolutionPreset::Uhd4k => {
                self.desktop_width = 3840;
                self.desktop_height = 2160;
            },
        }
    }

    /// Applies a connection-speed preset. A 10G LAN turns on the graphics
    /// pipeline, AVC444 and level-3 compression; a Tailscale WAN turns the
    /// graphics pipeline off (AVC444 is left as it was) and uses level-3
    /// compression.
    pub fn apply_performance_preset(&mut self, preset: PerformancePreset)
        ensures
            match preset {
                PerformancePreset::Lan10G => *final(self) == (ConnectionProfile {
                    egfx_enabled: true,
                    avc444_enabled: true,
                    compression_enabled: true,
                    compression_level: 3,
                    ..*old(self)
                }),
                PerformancePreset::TailscaleWan => *final(self) == (ConnectionProfile {
                    egfx_enabled: false,
                    compression_enabled: true,
                    compression_level: 3,
                    ..*old(self)
                }),
            },
    {
        match preset {
            PerformancePreset::Lan10G => {
                self.egfx_enabled = true;
                self.avc444_enabled = true;
                self.compression_enabled = true;
                self.compression_level = 3;
            },
            PerformancePreset::TailscaleWan => {
                self.egfx_enabled = false;
                self.compression_enabled = true;
                self.compression_level = 3;
            },
        }
    }

    /// The profile as the text of a Microsoft Remote Desktop `.rdp` file.
    pub fn to_rdp_file(&self) -> (r: String)
        ensures
            r@ == rdp_file_text(*self),
    {
        let mut out = String::from_str("full address:s:");
        out.append(self.host.as_str());
        out.append(":");
        append_decimal(&mut out, self.port as u64);
        out.append("\n");
        out.append("username:s:");
        out.append(self.username.as_str());
        out.append("\n");
        out.append("desktopwidth:i:");
        append_decimal(&mut out, self.desktop_width as u64);
        out.append("\n");
        out.append("desktopheight:i:");
        append_decimal(&mut out, self.desktop_height as u64);
        out.append("\n");
        out.append("session bpp:i:");
        append_decimal(&mut out, self.color_depth as u64);
        out.append("\n");
        out.append("redirectclipboard:i:");
        out.append(if self.redirect_clipboard { "1" } else { "0" });
        out.append("\n");
        out.append("audiomode:i:");
        append_decimal(&mut out, self.audio_mode as u64);
        out.append("\n");
        out.append("networklevelauthentication:i:1\n");
        out.append("compression:i:");
        out.append(if self.compression_enabled { "1" } else { "0" });
        out.append("\n");
        out
    }
}

/// The saved profiles and which one is active.
#[derive(Debug, Clone)]
pub struct ProfileManager {
    pub active_index: usize,
    pub profiles: Vec<ConnectionProfile>,
}

/// A profile manager as a sequence of profiles and the active index.
pub ghost struct ProfileManagerView {
    pub active_index: int,
    pub profiles: Seq<ConnectionProfile>,
}

impl View for ProfileManager {
    type V = ProfileManagerView;

    open spec fn view(&self) -> ProfileManagerView {
        ProfileManagerView { active_index: self.active_index as int, profiles: self.profiles@ }
    }
}

/// The slot that counts as active: the active index when it is in range,
/// the first profile otherwise.
pub open spec fn active_slot(m: ProfileManagerView) -> int {
    if m.active_index < m.profiles.len() {
        m.active_index
    } else {
        0
    }
}

/// The manager after adding `p`: appended, and made active.
pub open spec fn with_added(m: ProfileManagerView, p: ConnectionProfile) -> ProfileManagerView {
    ProfileManagerView { active_index: m.profiles.len() as int, profiles: m.profiles.push(p) }
}

/// The manager after removing slot `index`: nothing happens unless the slot
/// exists and another profile remains; the active index is pulled back in
/// range.
pub open spec fn with_removed(m: ProfileManagerView, index: int) -> ProfileManagerView {
    if m.profiles.len() > 1 && 0 <= index < m.profiles.len() {
        let profiles = m.profiles.remove(index);
        ProfileManagerView {
            active_index: if m.active_index >= profiles.len() {
                profiles.len() - 1
            } else {
                m.active_index
            },
            profiles,
        }
    } else {
        m
    }
}

/// At least one profile, and the active index names one of them.
pub open spec fn manager_wf(m: ProfileManagerView) -> bool {
    m.profiles.len() >= 1 && 0 <= m.active_index < m.profiles.len()
}

impl Default for ProfileManager {
    /// Four preset profiles, the first one active.
    fn default() -> (r: ProfileManager)
        ensures
            r.active_index == 0,
            r.profiles@.len() == 4,
            r.profiles@[0].name@ == "spark-0060 (ARM64 Spark)"@,
            r.profiles@[0].host@ == "100.64.0.4"@ && r.profiles@[0].port == 33898,
            r.profiles@[1].name@ == "spark-3066 (ARM64 Spark)"@,
            r.profiles@[1].host@ == "100.64.0.5"@ && r.profiles@[1].port == 33898,
            r.profiles@[2].name@ == "dtm-p1gen7 (Windows Host)"@,
            r.profiles@[2].host@ == "100.64.0.1"@ && r.profiles@[2].port == 3389,
            r.profiles@[3].name@ == "Local Loopback"@,
            r.profiles@[3].host@ == "127.0.0.1"@ && r.profiles@[3].port == 33890,
            forall|i: int| 0 <= i < 4 ==> has_default_settings(#[trigger] r.profiles@[i]),
    {
        let mut profiles = Vec::new();
        profiles.push(ConnectionProfile::new("spark-0060 (ARM64 Spark)", "100.64.0.4", 33898));
        profiles.push(ConnectionProfile::new("spark-3066 (ARM64 Spark)", "100.64.0.5", 33898));
        profiles.push(ConnectionProfile::new("dtm-p1gen7 (Windows Host)", "100.64.0.1", 3389));
        profiles.push(ConnectionProfile::new("Local Loopback", "127.0.0.1", 33890));
        ProfileManager { active_index: 0, profiles }
    }
}

impl ProfileManager {
    /// The active profile (the first one when the active index is out of
    /// range).
    pub fn active_profile(&self) -> (r: &ConnectionProfile)
        requires
            self.profiles@.len() > 0,
        ensures
            *r == self.profiles@[active_slot(self@)],
    {
        if self.active_index < self.profiles.len() {
            &self.profiles[self.active_index]
        } else {
            &self.profiles[0]
        }
    }

    /// The active profile, for editing (the first one when the active index
    /// is out of range).
    pub fn active_profile_mut(&mut self) -> (r: &mut ConnectionProfile)
        requires
            old(self).profiles@.len() > 0,
        ensures
            *r == old(self).profiles@[active_slot(old(self)@)],
            final(self).profiles@ == old(self).profiles@.update(active_slot(old(self)@), *final(r)),
            final(self).active_index == old(self).active_index,
    {
        let idx = self.active_index;
        if idx < self.profiles.len() {
            &mut self.profiles[idx]
        } else {
            &mut self.profiles[0]
        }
    }

    /// Appends `profile`, makes it active and returns its index. The caller
    /// persists the list.
    pub fn add_profile(&mut self, profile: ConnectionProfile) -> (r: usize)
        requires
            old(self).profiles@.len() < usize::MAX,
        ensures
            final(self)@ == with_added(old(self)@, profile),
            r == old(self).profiles@.len(),
    {
        self.profiles.push(profile);
        self.active_index = self.profiles.len() - 1;
        self.active_index
    }

    /// Removes the profile at `index`, unless it is out of range or the last
    /// one left; the active index is pulled back in range. The caller
    /// persists the list when it changed.
    pub fn remove_profile(&mut self, index: usize)
        ensures
            final(self)@ == with_removed(old(self)@, index as int),
    {
        if self.profiles.len() > 1 && index < self.profiles.len() {
            self.profiles.remove(index);
            if self.active_index >= self.profiles.len() {
                self.active_index = self.profiles.len() - 1;
            }
        }
    }
}

/// The profile just added is the active one.
pub proof fn lemma_added_is_active(m: ProfileManagerView, p: ConnectionProfile)
    ensures
        with_added(m, p).profiles[active_slot(with_added(m, p))] == p,
{
}

/// Removing the profile just added gives back the profiles as they were
/// (when there was at least one before).
pub proof fn lemma_remove_undoes_add(m: ProfileManagerView, p: ConnectionProfile)
    requires
        m.profiles.len() >= 1,
    ensures
        with_removed(with_added(m, p), m.profiles.len() as int).profiles == m.profiles,
{
    assert(m.profiles.push(p).remove(m.profiles.len() as int) =~= m.profiles);
}

/// Adding and removing keep a manager well formed: some profile always
/// remains, and the active index names one.
pub proof fn lemma_manager_wf_preserved(m: ProfileManagerView, p: ConnectionProfile, index: int)
    requires
        manager_wf(m),
    ensures
        manager_wf(with_added(m, p)),
        manager_wf(with_removed(m, index)),
{
}

} // verus!
