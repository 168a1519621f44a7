//! The key-to-command table: exactly three keys do anything, and only on a
//! press.

use vstd::prelude::*;

verus! {

/// The physical keys the listener distinguishes; everything else on the
/// keyboard is `Other`.
#[derive(Clone, Copy, Debug, PartialEq, Eq, Structural)]
pub enum InputKey {
    MediaPlayPause,
    MediaVolumeDown,
    MediaVolumeUp,
    Other,
}

#[derive(Clone, Copy, Debug, PartialEq, Eq, Structural)]
pub enum KeyEventKind {
    Press,
    Release,
}

/// The fire-and-forget commands handed to the OS action executor.
#[derive(Clone, Copy, Debug, PartialEq, Eq, Structural)]
pub enum OsAction {
    TogglePlayPause,
    VolumeDown,
    VolumeUp,
}

/// The whole mapping: a press of one of the three keys asks for its one
/// command; releases and other keys ask for nothing.
pub open spec fn spec_action_for_event(kind: KeyEventKind, key: InputKey) -> Option<OsAction> {
    match (kind, key) {
        (KeyEventKind::Press, InputKey::MediaPlayPause) => Some(OsAction::TogglePlayPause),
        (KeyEventKind::Press, InputKey::MediaVolumeDown) => Some(OsAction::VolumeDown),
        (KeyEventKind::Press, InputKey::MediaVolumeUp) => Some(OsAction::VolumeUp),
        _ => None,
    }
}

pub fn action_for_event(kind: KeyEventKind, key: InputKey) -> (r: Option<OsAction>)
    ensures
        r == spec_action_for_event(kind, key),
{
    match (kind, key) {
        (KeyEventKind::Press, InputKey::MediaPlayPause) => Some(OsAction::TogglePlayPause),
        (KeyEventKind::Press, InputKey::MediaVolumeDown) => Some(OsAction::VolumeDown),
        (KeyEventKind::Press, InputKey::MediaVolumeUp) => Some(OsAction::VolumeUp),
        _ => None,
    }
}

/// How far one command moves the system volume.
pub fn volume_change(action: OsAction) -> (r: i32)
    ensures
        action == OsAction::VolumeDown ==> r == -10,
        action == OsAction::VolumeUp ==> r == 10,
        action == OsAction::TogglePlayPause ==> r == 0,
{
    match action {
        OsAction::TogglePlayPause => 0,
        OsAction::VolumeDown => -10,
        OsAction::VolumeUp => 10,
    }
}

/// Each of the three press events asks for exactly its own command, and no
/// event ever asks for more than one: a release or an unmatched key asks
/// for none.
pub proof fn lemma_key_table_exact()
    ensures
        spec_action_for_event(KeyEventKind::Press, InputKey::MediaPlayPause) == Some(
            OsAction::TogglePlayPause,
        ),
        spec_action_for_event(KeyEventKind::Press, InputKey::MediaVolumeDown) == Some(
            OsAction::VolumeDown,
        ),
        spec_action_for_event(KeyEventKind::Press, InputKey::MediaVolumeUp) == Some(
            OsAction::VolumeUp,
        ),
        spec_action_for_event(KeyEventKind::Press, InputKey::Other) is None,
        forall|key: InputKey|
            #[trigger] spec_action_for_event(KeyEventKind::Release, key) is None,
{
}

} // verus!
