//! Detects, once at startup, which windowing backend the session uses.

use vstd::prelude::*;
use crate::platform::Platform;

verus! {

/// Environment variable whose presence indicates a Wayland session.
pub const WAYLAND_SIGNAL: &'static str = "WAYLAND_DISPLAY";

/// Environment variable whose presence indicates that some display is set.
pub const DISPLAY_SIGNAL: &'static str = "DISPLAY";

/// Environment variable through which the GUI toolkit is told its backend.
pub const BACKEND_SIGNAL: &'static str = "GDK_BACKEND";

/// Value of [`BACKEND_SIGNAL`] that makes the toolkit prefer X11.
pub const BACKEND_X11: &'static str = "x11";

/// The windowing backend of the session.
#[derive(Clone, Copy, Debug, PartialEq, Eq, Structural)]
pub enum DisplayServerKind {
    /// The platform has a single backend; nothing was detected.
    NoServer,
    X11,
    Wayland,
    /// Detection ran and found no indication.
    Unknown,
}

impl DisplayServerKind {
    /// The name under which the kind is reported to the front end.
    pub open spec fn name_spec(self) -> Seq<char> {
        match self {
            DisplayServerKind::NoServer => "none"@,
            DisplayServerKind::X11 => "x11"@,
            DisplayServerKind::Wayland => "wayland"@,
            DisplayServerKind::Unknown => "unknown"@,
        }
    }

    /// The name under which the kind is reported to the front end.
    pub fn name(&self) -> (name: &'static str)
        ensures
            name@ == self.name_spec(),
    {
        match self {
            DisplayServerKind::NoServer => "none",
            DisplayServerKind::X11 => "x11",
            DisplayServerKind::Wayland => "wayland",
            DisplayServerKind::Unknown => "unknown",
        }
    }

    /// Window placement is written against X11 alone: only there is the
    /// overlay window made fullscreen.
    pub fn wants_fullscreen(&self) -> (fullscreen: bool)
        ensures
            fullscreen == (*self == DisplayServerKind::X11),
    {
        match self {
            DisplayServerKind::X11 => true,
            _ => false,
        }
    }
}

/// What detection found, and what the host has to do about it.
#[derive(Clone, Copy, Debug, PartialEq, Eq, Structural)]
pub struct Detection {
    /// The backend of the session.
    pub kind: DisplayServerKind,
    /// The host has to set [`BACKEND_SIGNAL`] to [`BACKEND_X11`].
    pub prefer_x11: bool,
}

/// What the environment alone suggests: the Wayland indicator counts first,
/// then the generic display indicator.
pub open spec fn hinted(wayland_signal: bool, display_signal: bool) -> DisplayServerKind {
    if wayland_signal {
        DisplayServerKind::Wayland
    } else if display_signal {
        DisplayServerKind::X11
    } else {
        DisplayServerKind::Unknown
    }
}

/// The outcome of detection. A probe that reached an X11 server overrides
/// what the environment suggests; where the platform has one backend only,
/// nothing is detected.
pub open spec fn detected(
    platform: Platform,
    wayland_signal: bool,
    display_signal: bool,
    x11_reachable: bool,
) -> Detection {
    if !platform.has_display_servers() {
        Detection { kind: DisplayServerKind::NoServer, prefer_x11: false }
    } else if x11_reachable {
        Detection { kind: DisplayServerKind::X11, prefer_x11: true }
    } else {
        Detection { kind: hinted(wayland_signal, display_signal), prefer_x11: false }
    }
}

/// Reads the environment's hints. `wayland_signal` and `display_signal`
/// say whether [`WAYLAND_SIGNAL`] and [`DISPLAY_SIGNAL`] are set.
pub fn hint_display_server(wayland_signal: bool, display_signal: bool) -> (kind:
    DisplayServerKind)
    ensures
        kind == hinted(wayland_signal, display_signal),
{
    if wayland_signal {
        DisplayServerKind::Wayland
    } else if display_signal {
        DisplayServerKind::X11
    } else {
        DisplayServerKind::Unknown
    }
}

/// Detects the windowing backend. `x11_reachable` is the outcome of the
/// probe: whether a connection to an X11 server could be established. The
/// host makes the probe whatever the environment says.
pub fn detect_display_server(
    platform: Platform,
    wayland_signal: bool,
    display_signal: bool,
    x11_reachable: bool,
) -> (detection: Detection)
    ensures
        detection == detected(platform, wayland_signal, display_signal, x11_reachable),
{
    if !platform.detects_display_server() {
        return Detection { kind: DisplayServerKind::NoServer, prefer_x11: false };
    }
    let mut kind = hint_display_server(wayland_signal, display_signal);
    let mut prefer_x11 = false;
    if x11_reachable {
        prefer_x11 = true;
        kind = DisplayServerKind::X11;
    }
    Detection { kind, prefer_x11 }
}

/// The read-only record of what was detected at startup. It is made once
/// and offers no way to change the kind afterwards.
pub struct AppStorage {
    linux_display_server: DisplayServerKind,
}

impl View for AppStorage {
    type V = DisplayServerKind;

    closed spec fn view(&self) -> DisplayServerKind {
        self.linux_display_server
    }
}

impl AppStorage {
    /// Records the detected kind.
    pub fn new(kind: DisplayServerKind) -> (storage: AppStorage)
        ensures
            storage@ == kind,
    {
        AppStorage { linux_display_server: kind }
    }

    /// The recorded kind.
    pub fn kind(&self) -> (kind: DisplayServerKind)
        ensures
            kind == self@,
    {
        self.linux_display_server
    }
}

/// The name of the recorded kind, as the front end asks for it.
pub fn get_linux_display_server(storage: &AppStorage) -> (name: &'static str)
    ensures
        name@ == storage@.name_spec(),
{
    storage.linux_display_server.name()
}

/// A probe that reaches an X11 server decides alone: whatever the
/// environment says, the kind is X11 and the toolkit is told to prefer it.
pub proof fn lemma_probe_overrides_hints(wayland_signal: bool, display_signal: bool)
    ensures
        detected(Platform::Linux, wayland_signal, display_signal, true) == (Detection {
            kind: DisplayServerKind::X11,
            prefer_x11: true,
        }),
{
}

/// Where the probe fails the environment decides, and the toolkit's
/// backend is left alone: Wayland if its indicator is set, else X11 if a
/// display is set, else unknown.
pub proof fn lemma_failed_probe_keeps_hints(wayland_signal: bool, display_signal: bool)
    ensures
        detected(Platform::Linux, wayland_signal, display_signal, false).kind == hinted(
            wayland_signal,
            display_signal,
        ),
        !detected(Platform::Linux, wayland_signal, display_signal, false).prefer_x11,
        wayland_signal ==> hinted(wayland_signal, display_signal) == DisplayServerKind::Wayland,
        !wayland_signal && !display_signal ==> hinted(wayland_signal, display_signal)
            == DisplayServerKind::Unknown,
{
}

/// The toolkit is told to prefer X11 exactly when the kind is X11 by the
/// probe, and detection never yields the kind of a platform that was not
/// examined.
pub proof fn lemma_preference_follows_probe(
    platform: Platform,
    wayland_signal: bool,
    display_signal: bool,
    x11_reachable: bool,
)
    ensures
        detected(platform, wayland_signal, display_signal, x11_reachable).prefer_x11 == (
        platform.has_display_servers() && x11_reachable),
        detected(platform, wayland_signal, display_signal, x11_reachable).prefer_x11 ==> detected(
            platform,
            wayland_signal,
            display_signal,
            x11_reachable,
        ).kind == DisplayServerKind::X11,
        detected(platform, wayland_signal, display_signal, x11_reachable).kind
            == DisplayServerKind::NoServer <==> !platform.has_display_servers(),
{
}

} // verus!
