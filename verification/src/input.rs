//! Host-input bookkeeping whose decisions the core owns: the modifier-key
//! state, the paste-to-load decision, and the turning of a pasted or dropped
//! path into a URL for the decoder.
//!
//! The window system delivers raw events and the clipboard delivers text;
//! both stay with the host. What stands here is the pure part: how the
//! modifier state is derived from a modifier-change event, when a paste
//! requests a load, and how a path is formatted. URLs travel as UTF-8 bytes;
//! every byte written here is ASCII, so the host converts losslessly.
use vstd::prelude::*;

verus! {

/// Modifier-key state, as of the last modifier-change event.
pub struct Modifiers {
    pub alt: bool,
    pub ctrl: bool,
    pub shift: bool,
    /// The command key proper, only ever set on macOS.
    pub mac_cmd: bool,
    /// The platform's command chord: the logo key on macOS, control
    /// elsewhere.
    pub command: bool,
}

/// Input state the application tracks between window events.
pub struct Input {
    pub modifiers: Modifiers,
}

impl Default for Modifiers {
    /// No modifier held.
    fn default() -> (m: Self)
        ensures
            !m.alt && !m.ctrl && !m.shift && !m.mac_cmd && !m.command,
    {
        Modifiers { alt: false, ctrl: false, shift: false, mac_cmd: false, command: false }
    }
}

impl Default for Input {
    /// No modifier held.
    fn default() -> (i: Self)
        ensures
            !i.modifiers.alt && !i.modifiers.ctrl && !i.modifiers.shift && !i.modifiers.mac_cmd
                && !i.modifiers.command,
    {
        Input { modifiers: Modifiers::default() }
    }
}

impl Input {
    /// Record a modifier-change event: the raw key states as the window
    /// system reports them, and the platform-dependent derived flags —
    /// `mac_cmd` is the logo key on macOS and never set elsewhere, and
    /// `command` is the logo key on macOS and control elsewhere.
    pub fn update_modifiers(&mut self, alt: bool, ctrl: bool, shift: bool, logo: bool, macos: bool)
        ensures
            final(self).modifiers.alt == alt,
            final(self).modifiers.ctrl == ctrl,
            final(self).modifiers.shift == shift,
            final(self).modifiers.mac_cmd == (macos && logo),
            final(self).modifiers.command == (if macos {
                logo
            } else {
                ctrl
            }),
    {
        self.modifiers.alt = alt;
        self.modifiers.ctrl = ctrl;
        self.modifiers.shift = shift;
        self.modifiers.mac_cmd = macos && logo;
        self.modifiers.command = if macos {
            logo
        } else {
            ctrl
        };
    }

    /// Whether a key press asks to load the clipboard's path: the paste key
    /// together with the platform's command chord, and nothing else.
    pub fn wants_paste_load(&self, is_paste_key: bool) -> (b: bool)
        ensures
            b == (self.modifiers.command && is_paste_key),
    {
        self.modifiers.command && is_paste_key
    }
}

/// Whether the bytes start with `http`, in which case they are already a
/// URL.
pub open spec fn has_http_prefix(u: Seq<u8>) -> bool {
    u.len() >= 4 && u[0] == 'h' as u8 && u[1] == 't' as u8 && u[2] == 't' as u8 && u[3] == 'p' as u8
}

/// The `file://` scheme prefix, with a third slash for a rooted drive path.
pub open spec fn file_scheme_prefix(windows: bool) -> Seq<u8> {
    if windows {
        seq!['f' as u8, 'i' as u8, 'l' as u8, 'e' as u8, ':' as u8, '/' as u8, '/' as u8, '/' as u8]
    } else {
        seq!['f' as u8, 'i' as u8, 'l' as u8, 'e' as u8, ':' as u8, '/' as u8, '/' as u8]
    }
}

/// A backslash becomes a forward slash; every other byte is kept.
pub open spec fn slash_of(b: u8) -> u8 {
    if b == '\\' as u8 {
        '/' as u8
    } else {
        b
    }
}

/// What a pasted or dropped path turns into before it is handed to the
/// decoder: kept as it is when it is already an `http` URL, else prefixed
/// with the `file://` scheme — with path separators normalized and a third
/// slash on Windows, where the path begins with a drive letter.
pub open spec fn spec_format_url(u: Seq<u8>, windows: bool) -> Seq<u8> {
    if has_http_prefix(u) {
        u
    } else if windows {
        file_scheme_prefix(true) + u.map_values(|b: u8| slash_of(b))
    } else {
        file_scheme_prefix(false) + u
    }
}

/// Turn a pasted or dropped path into the URL the decoder is given, as
/// [`spec_format_url`] states.
pub fn format_url(url: &Vec<u8>, windows: bool) -> (r: Vec<u8>)
    ensures
        r@ == spec_format_url(url@, windows),
{
    let is_http = url.len() >= 4 && url[0] == 'h' as u8 && url[1] == 't' as u8 && url[2] == 't'
        as u8 && url[3] == 'p' as u8;
    let mut r: Vec<u8> = Vec::new();
    if !is_http {
        r.push('f' as u8);
        r.push('i' as u8);
        r.push('l' as u8);
        r.push('e' as u8);
        r.push(':' as u8);
        r.push('/' as u8);
        r.push('/' as u8);
        if windows {
            r.push('/' as u8);
        }
        proof {
            assert(r@ == file_scheme_prefix(windows));
        }
    }
    let ghost prefix = r@;
    for i in 0..url.len()
        invariant
            prefix == (if is_http {
                Seq::<u8>::empty()
            } else {
                file_scheme_prefix(windows)
            }),
            r@ == prefix + (if !is_http && windows {
                url@.take(i as int).map_values(|b: u8| slash_of(b))
            } else {
                url@.take(i as int)
            }),
    {
        let b = url[i];
        if !is_http && windows && b == '\\' as u8 {
            r.push('/' as u8);
        } else {
            r.push(b);
        }
        proof {
            assert(url@.take(i + 1) == url@.take(i as int).push(url@[i as int]));
            assert(url@.take(i + 1).map_values(|b: u8| slash_of(b)) == url@.take(
                i as int,
            ).map_values(|b: u8| slash_of(b)).push(slash_of(url@[i as int])));
        }
    }
    proof {
        assert(url@.take(url@.len() as int) == url@);
        assert(is_http == has_http_prefix(url@));
        if is_http {
            assert(r@ == Seq::<u8>::empty() + url@);
            assert(r@ == url@);
        }
    }
    r
}

} // verus!
