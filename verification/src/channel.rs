//! Output-channel negotiation.
//!
//! At startup the process probes whether it can attach to the console of
//! its parent.  The result of that probe fixes, for the whole run, how
//! every user-facing message is delivered: over the standard streams when
//! a console is attached, or through modal dialog boxes when there is
//! none (the normal case when the program is started from a graphical
//! launcher).

use vstd::prelude::*;

verus! {

/// How user-facing messages reach the user for the rest of the run.
#[derive(Clone, Copy, Debug, PartialEq, Eq, Structural)]
pub enum OutputChannel {
    /// An interactive console is attached: messages go to the standard
    /// streams.
    Textual,
    /// No console is available: messages are shown in modal dialogs.
    Graphical,
}

/// Importance of one user-facing message.
#[derive(Clone, Copy, Debug, PartialEq, Eq, Structural)]
pub enum Severity {
    Info,
    Error,
}

/// The concrete destination of one message.
#[derive(Clone, Copy, Debug, PartialEq, Eq, Structural)]
pub enum Sink {
    /// Write the text to standard output, followed by a line terminator.
    StandardOut,
    /// Write the text to standard error, followed by a line terminator.
    StandardError,
    /// Show an application-modal dialog with an informational icon,
    /// titled with [`crate::application_name`].
    DialogInfo,
    /// Show an application-modal dialog with an error icon, titled with
    /// [`crate::application_name`].
    DialogError,
}

/// The channel that a given probe result selects.
pub open spec fn spec_resolve(attach_ok: bool) -> OutputChannel {
    if attach_ok {
        OutputChannel::Textual
    } else {
        OutputChannel::Graphical
    }
}

/// Pick the output channel from the result of the console-attach probe.
///
/// A successful attach means the standard streams are now bound to the
/// parent console, so textual output is visible there; a failed attach is
/// the expected outcome for a graphical launch and selects dialogs.
pub fn resolve(attach_ok: bool) -> (c: OutputChannel)
    ensures
        c == spec_resolve(attach_ok),
{
    if attach_ok {
        OutputChannel::Textual
    } else {
        OutputChannel::Graphical
    }
}

/// The sink that a message of the given severity uses on the given
/// channel.
pub open spec fn spec_route(c: OutputChannel, sev: Severity) -> Sink {
    match c {
        OutputChannel::Textual => match sev {
            Severity::Info => Sink::StandardOut,
            Severity::Error => Sink::StandardError,
        },
        OutputChannel::Graphical => match sev {
            Severity::Info => Sink::DialogInfo,
            Severity::Error => Sink::DialogError,
        },
    }
}

/// Route one message: errors go to standard error (or an error dialog),
/// everything else to standard output (or an informational dialog).
pub fn route(c: OutputChannel, sev: Severity) -> (s: Sink)
    ensures
        s == spec_route(c, sev),
{
    match c {
        OutputChannel::Textual => match sev {
            Severity::Info => Sink::StandardOut,
            Severity::Error => Sink::StandardError,
        },
        OutputChannel::Graphical => match sev {
            Severity::Info => Sink::DialogInfo,
            Severity::Error => Sink::DialogError,
        },
    }
}

/// True of the sinks that write to a standard stream.
pub open spec fn sink_is_textual(s: Sink) -> bool {
    s == Sink::StandardOut || s == Sink::StandardError
}

/// Routing never crosses channels: a message lands on a standard stream
/// exactly when the resolved channel is textual, whatever its severity.
pub proof fn lemma_route_stays_in_channel(c: OutputChannel, sev: Severity)
    ensures
        sink_is_textual(spec_route(c, sev)) <==> c == OutputChannel::Textual,
{
}

/// Dialog style bit for a plain "OK" dialog.
pub const STYLE_OK: u32 = 0x0000_0000;

/// Dialog style bit for the error icon.
pub const STYLE_ICON_ERROR: u32 = 0x0000_0010;

/// Dialog style bit for the informational icon.
pub const STYLE_ICON_INFORMATION: u32 = 0x0000_0040;

/// The style word of the dialog that the given sink asks for, if the
/// sink is a dialog at all.
pub open spec fn spec_dialog_style(s: Sink) -> Option<u32> {
    match s {
        Sink::StandardOut => None,
        Sink::StandardError => None,
        Sink::DialogInfo => Some(STYLE_ICON_INFORMATION | STYLE_OK),
        Sink::DialogError => Some(STYLE_ICON_ERROR | STYLE_OK),
    }
}

/// The style word to hand to the host's dialog call for a dialog sink:
/// a single "OK" button, with an error icon for [`Sink::DialogError`]
/// and an informational icon for [`Sink::DialogInfo`].
pub fn dialog_style(s: Sink) -> (style: Option<u32>)
    ensures
        style == spec_dialog_style(s),
{
    match s {
        Sink::StandardOut => None,
        Sink::StandardError => None,
        Sink::DialogInfo => Some(STYLE_ICON_INFORMATION | STYLE_OK),
        Sink::DialogError => Some(STYLE_ICON_ERROR | STYLE_OK),
    }
}

} // verus!
