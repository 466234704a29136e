//! The form state of the connection launcher: which tab is shown, what the
//! text inputs hold, and how they are copied to and from the active profile.

use vstd::prelude::*;

use crate::client::profile::{ConnectionProfile, ProfileManager, active_slot};
use crate::text::{
    append_decimal, chars_range, dec_digits, find_char, first_index_of, lemma_first_index_of, parse_u16,
    parse_u16_spec, str_chars, string_from_chars,
};

verus! {

/// The tabs of the launcher.
#[derive(Debug, Clone, Copy, PartialEq, Eq, Structural)]
pub enum MstscTab {
    General,
    Display,
    LocalResources,
    Experience,
    Advanced,
}

/// What the launcher decided.
#[derive(Debug, Clone)]
pub enum LauncherOutcome {
    /// Nothing decided yet.
    Undecided,
    Connect(ConnectionProfile),
    Cancel,
}

/// The launcher's state.
pub struct MstscGui {
    pub profile_manager: ProfileManager,
    pub active_tab: MstscTab,
    pub show_options: bool,
    pub custom_host_input: String,
    pub custom_username_input: String,
    pub custom_password_input: String,
    pub status_message: String,
    pub is_probing_host: bool,
    pub host_online: bool,
    pub outcome: LauncherOutcome,
}

/// The host input as the form shows it: `host:port`.
pub open spec fn host_input_text(p: ConnectionProfile) -> Seq<char> {
    p.host@ + ":"@ + dec_digits(p.port as nat)
}

/// `p`'s host and port as `host:port`.
fn host_port_string(p: &ConnectionProfile) -> (r: String)
    ensures
        r@ == host_input_text(*p),
{
    let mut s = p.host.clone();
    s.append(":");
    append_decimal(&mut s, p.port as u64);
    s
}

/// The inputs show profile `p`: its `host:port`, user name and password.
pub open spec fn inputs_show(g: MstscGui, p: ConnectionProfile) -> bool {
    &&& g.custom_host_input@ == host_input_text(p)
    &&& g.custom_username_input@ == p.username@
    &&& g.custom_password_input@ == p.pass_token@
}

/// The host and port that the host input sets: split at the first `:`, the
/// port kept when what follows does not parse as a `u16`; without a `:` the
/// whole input is the host.
pub open spec fn host_port_from_input(input: Seq<char>, old_port: u16) -> (Seq<char>, u16) {
    match first_index_of(input, ':') {
        None => (input, old_port),
        Some(k) => (
            input.subrange(0, k),
            match parse_u16_spec(input.subrange(k + 1, input.len() as int)) {
                Some(p) => p,
                None => old_port,
            },
        ),
    }
}

/// `h` is `g` after the inputs were written into the active profile: host
/// and port from the host input, then the user name and password; nothing
/// else changes.
pub open spec fn inputs_written(g: MstscGui, h: MstscGui) -> bool {
    let m = g.profile_manager@;
    let slot = active_slot(m);
    let before = m.profiles[slot];
    let after = h.profile_manager.profiles@[slot];
    let (host, port) = host_port_from_input(g.custom_host_input@, before.port);
    &&& h.profile_manager.profiles@.len() == m.profiles.len()
    &&& forall|i: int|
        0 <= i < m.profiles.len() && i != slot ==> h.profile_manager.profiles@[i] == #[trigger] m.profiles[i]
    &&& h.profile_manager.active_index == g.profile_manager.active_index
    &&& after.host@ == host
    &&& after.port == port
    &&& after.username@ == g.custom_username_input@
    &&& after.pass_token@ == g.custom_password_input@
    &&& after.name == before.name
    &&& after.domain == before.domain
    &&& after.desktop_width == before.desktop_width
    &&& after.desktop_height == before.desktop_height
    &&& after.color_depth == before.color_depth
    &&& after.redirect_clipboard == before.redirect_clipboard
    &&& after.audio_mode == before.audio_mode
    &&& after.compression_enabled == before.compression_enabled
    &&& after.compression_level == before.compression_level
    &&& after.egfx_enabled == before.egfx_enabled
    &&& after.avc444_enabled == before.avc444_enabled
    &&& after.auto_reconnect == before.auto_reconnect
    &&& after.prevent_session_lock == before.prevent_session_lock
    &&& h.custom_host_input@ == g.custom_host_input@
    &&& h.custom_username_input@ == g.custom_username_input@
    &&& h.custom_password_input@ == g.custom_password_input@
    &&& h.active_tab == g.active_tab
    &&& h.show_options == g.show_options
    &&& h.status_message@ == g.status_message@
    &&& h.is_probing_host == g.is_probing_host
    &&& h.host_online == g.host_online
    &&& h.outcome == g.outcome
}

/// Two profiles hold the same settings.
pub open spec fn same_profile(a: ConnectionProfile, b: ConnectionProfile) -> bool {
    &&& a.name@ == b.name@
    &&& a.host@ == b.host@
    &&& a.port == b.port
    &&& a.username@ == b.username@
    &&& a.pass_token@ == b.pass_token@
    &&& match (a.domain, b.domain) {
        (None, None) => true,
        (Some(x), Some(y)) => x@ == y@,
        _ => false,
    }
    &&& a.desktop_width == b.desktop_width
    &&& a.desktop_height == b.desktop_height
    &&& a.color_depth == b.color_depth
    &&& a.redirect_clipboard == b.redirect_clipboard
    &&& a.audio_mode == b.audio_mode
    &&& a.compression_enabled == b.compression_enabled
    &&& a.compression_level == b.compression_level
    &&& a.egfx_enabled == b.egfx_enabled
    &&& a.avc444_enabled == b.avc444_enabled
    &&& a.auto_reconnect == b.auto_reconnect
    &&& a.prevent_session_lock == b.prevent_session_lock
}

/// A copy of `p`.
fn copy_profile(p: &ConnectionProfile) -> (r: ConnectionProfile)
    ensures
        same_profile(r, *p),
{
    let domain = match &p.domain {
        Some(d) => Some(d.clone()),
        None => None,
    };
    ConnectionProfile {
        name: p.name.clone(),
        host: p.host.clone(),
        port: p.port,
        username: p.username.clone(),
        pass_token: p.pass_token.clone(),
        domain,
        desktop_width: p.desktop_width,
        desktop_height: p.desktop_height,
        color_depth: p.color_depth,
        redirect_clipboard: p.redirect_clipboard,
        audio_mode: p.audio_mode,
        compression_enabled: p.compression_enabled,
        compression_level: p.compression_level,
        egfx_enabled: p.egfx_enabled,
        avc444_enabled: p.avc444_enabled,
        auto_reconnect: p.auto_reconnect,
        prevent_session_lock: p.prevent_session_lock,
    }
}

impl MstscGui {
    /// The launcher over `profile_manager`: General tab, options shown, the
    /// inputs showing the active profile, ready to connect.
    pub fn new(profile_manager: ProfileManager) -> (r: MstscGui)
        requires
            profile_manager.profiles@.len() > 0,
        ensures
            r.profile_manager@ == profile_manager@,
            r.active_tab == MstscTab::General,
            r.show_options,
            inputs_show(r, profile_manager.profiles@[active_slot(profile_manager@)]),
            r.status_message@ == "Ready to connect"@,
            !r.is_probing_host,
            r.host_online,
            r.outcome is Undecided,
    {
        let active = profile_manager.active_profile();
        let custom_host_input = host_port_string(active);
        let custom_username_input = active.username.clone();
        let custom_password_input = active.pass_token.clone();
        MstscGui {
            profile_manager,
            active_tab: MstscTab::General,
            show_options: true,
            custom_host_input,
            custom_username_input,
            custom_password_input,
            status_message: String::from_str("Ready to connect"),
            is_probing_host: false,
            host_online: true,
            outcome: LauncherOutcome::Undecided,
        }
    }

    /// Shows the active profile in the inputs.
    pub fn sync_inputs_from_active_profile(&mut self)
        requires
            old(self).profile_manager.profiles@.len() > 0,
        ensures
            inputs_show(*final(self), old(self).profile_manager.profiles@[active_slot(old(self).profile_manager@)]),
            final(self).profile_manager@ == old(self).profile_manager@,
            final(self).active_tab == old(self).active_tab,
            final(self).show_options == old(self).show_options,
            final(self).status_message@ == old(self).status_message@,
    {
        let active = self.profile_manager.active_profile();
        let host = host_port_string(active);
        let username = active.username.clone();
        let password = active.pass_token.clone();
        self.custom_host_input = host;
        self.custom_username_input = username;
        self.custom_password_input = password;
    }

    /// Writes the inputs into the active profile: host and port from the
    /// host input, then the user name and password. Nothing else changes.
    pub fn sync_active_profile_from_inputs(&mut self)
        requires
            old(self).profile_manager.profiles@.len() > 0,
        ensures
            inputs_written(*old(self), *final(self)),
    {
        let host_input = self.custom_host_input.clone();
        let username_input = self.custom_username_input.clone();
        let password_input = self.custom_password_input.clone();
        let chars = str_chars(host_input.as_str());
        proof {
            lemma_first_index_of(chars@, ':');
        }
        let split = find_char(&chars, ':');
        let prof = self.profile_manager.active_profile_mut();
        match split {
            Some(k) => {
                let len = chars.len();
                prof.host = string_from_chars(&chars_range(&chars, 0, k));
                let port_chars = chars_range(&chars, k + 1, len);
                match parse_u16(&port_chars) {
                    Some(p) => {
                        prof.port = p;
                    },
                    None => {},
                }
            },
            None => {
                prof.host = host_input;
            },
        }
        prof.username = username_input;
        prof.pass_token = password_input;
    }
    /// The Connect button: the inputs are written into the active profile,
    /// and a copy of it is the outcome.
    pub fn press_connect(&mut self)
        requires
            old(self).profile_manager.profiles@.len() > 0,
        ensures
            inputs_written(*old(self), MstscGui { outcome: old(self).outcome, ..*final(self) }),
            final(self).outcome matches LauncherOutcome::Connect(p) && same_profile(
                p,
                final(self).profile_manager.profiles@[active_slot(final(self).profile_manager@)],
            ),
    {
        self.sync_active_profile_from_inputs();
        let prof = copy_profile(self.profile_manager.active_profile());
        self.outcome = LauncherOutcome::Connect(prof);
    }

    /// The Cancel button.
    pub fn press_cancel(&mut self)
        ensures
            *final(self) == (MstscGui { outcome: LauncherOutcome::Cancel, ..*old(self) }),
    {
        self.outcome = LauncherOutcome::Cancel;
    }

    /// The Help button: the status line explains what to do.
    pub fn press_help(&mut self)
        ensures
            final(self).status_message@ == "Help: Enter host:port and click Connect"@,
            *final(self) == (MstscGui { status_message: final(self).status_message, ..*old(self) }),
    {
        self.status_message = String::from_str("Help: Enter host:port and click Connect");
    }

    /// The Show/Hide Options button.
    pub fn toggle_options(&mut self)
        ensures
            *final(self) == (MstscGui { show_options: !old(self).show_options, ..*old(self) }),
    {
        self.show_options = !self.show_options;
    }

    /// Picks saved profile `index` and shows it in the inputs.
    pub fn select_profile(&mut self, index: usize)
        requires
            index < old(self).profile_manager.profiles@.len(),
        ensures
            final(self).profile_manager.active_index == index,
            final(self).profile_manager.profiles@ == old(self).profile_manager.profiles@,
            inputs_show(*final(self), old(self).profile_manager.profiles@[index as int]),
            final(self).active_tab == old(self).active_tab,
            final(self).show_options == old(self).show_options,
            final(self).status_message@ == old(self).status_message@,
    {
        self.profile_manager.active_index = index;
        self.sync_inputs_from_active_profile();
    }

    /// The Add New button: a "Custom Host" profile for 127.0.0.1:33890 with
    /// default settings is appended, made active and shown in the inputs.
    pub fn add_new_profile(&mut self)
        requires
            0 < old(self).profile_manager.profiles@.len() < usize::MAX,
        ensures
            ({
                let before = old(self).profile_manager.profiles@;
                let after = final(self).profile_manager.profiles@;
                let added = after[before.len() as int];
                &&& after.len() == before.len() + 1
                &&& after.subrange(0, before.len() as int) == before
                &&& final(self).profile_manager.active_index == before.len()
                &&& added.name@ == "Custom Host"@
                &&& added.host@ == "127.0.0.1"@
                &&& added.port == 33890
                &&& crate::client::profile::has_default_settings(added)
                &&& inputs_show(*final(self), added)
            }),
            final(self).active_tab == old(self).active_tab,
            final(self).show_options == old(self).show_options,
            final(self).status_message@ == old(self).status_message@,
    {
        let new_prof = ConnectionProfile::new("Custom Host", "127.0.0.1", 33890);
        let idx = self.profile_manager.add_profile(new_prof);
        self.profile_manager.active_index = idx;
        self.sync_inputs_from_active_profile();
    }
}

/// Showing a profile in the inputs and writing the inputs back leaves the
/// host and port as they were.
pub proof fn lemma_inputs_roundtrip_host_port(p: ConnectionProfile, other_port: u16)
    requires
        forall|i: int| 0 <= i < p.host@.len() ==> p.host@[i] != ':',
    ensures
        host_port_from_input(host_input_text(p), other_port) == (p.host@, p.port),
{
    reveal_strlit(":");
    let t = host_input_text(p);
    let k = p.host@.len() as int;
    crate::text::lemma_dec_digits(p.port as nat);
    crate::text::lemma_parse_u16_of_dec(p.port);
    lemma_first_index_of(t, ':');
    assert(t[k] == ':');
    assert forall|j: int| 0 <= j < k implies t[j] != ':' by {
        assert(t[j] == p.host@[j]);
    }
    assert(t.subrange(0, k) =~= p.host@);
    assert(t.subrange(k + 1, t.len() as int) =~= dec_digits(p.port as nat));
}

} // verus!
