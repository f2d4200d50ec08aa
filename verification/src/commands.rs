//! Backend commands the reducer asks for, gated by what the active backend supports.
use vstd::prelude::*;

use crate::action::Command;
use crate::backend::BackendCommand;
use crate::capabilities::{spec_capability_name, Capability};
use crate::domain::{PlaylistId, PlaylistLoadState};
use crate::navigation::{detail_opened, open_detail, playlist_position};
use crate::playlists::first_with_id;
use crate::state::{AppState, Route};
use crate::text::{push_text};

verus! {

/// The notice shown for a command the active backend cannot perform.
pub open spec fn unsupported_notice(capability: Capability) -> Seq<char> {
    "Active backend does not support "@ + spec_capability_name(capability)
}

/// `new` and `r` are what asking for `command` gives: the command when the backend
/// supports `capability`, otherwise only a notice.
pub open spec fn gated(old: AppState, new: AppState, r: Seq<Command>, capability: Capability, command: BackendCommand) -> bool {
    if old.capabilities@.contains(capability) {
        r == seq![Command::Backend(command)] && new == old
    } else {
        &&& r.len() == 0
        &&& new == (AppState { notification: new.notification, ..old })
        &&& new.notification matches Some(m) && m@ == unsupported_notice(capability)
    }
}

/// `new` and `r` are what asking for a command satisfying `ok` gives: that command when
/// the backend supports `capability`, otherwise only a notice.
pub open spec fn gated_by(old: AppState, new: AppState, r: Seq<Command>, capability: Capability, ok: spec_fn(BackendCommand) -> bool) -> bool {
    if old.capabilities@.contains(capability) {
        &&& r.len() == 1
        &&& r[0] matches Command::Backend(c) && ok(c)
        &&& new == old
    } else {
        &&& r.len() == 0
        &&& new == (AppState { notification: new.notification, ..old })
        &&& new.notification matches Some(m) && m@ == unsupported_notice(capability)
    }
}

pub proof fn lemma_gated_by(old: AppState, new: AppState, r: Seq<Command>, capability: Capability, command: BackendCommand, ok: spec_fn(BackendCommand) -> bool)
    requires
        gated(old, new, r, capability, command),
        ok(command),
    ensures
        gated_by(old, new, r, capability, ok),
{
}

/// Asks the backend for `command` if it supports `capability`; otherwise tells the user.
pub fn backend_command(state: &mut AppState, capability: Capability, command: BackendCommand) -> (r: Vec<Command>)
    ensures
        gated(*old(state), *final(state), r@, capability, command),
{
    if state.capabilities.supports(capability) {
        let mut r: Vec<Command> = Vec::new();
        r.push(Command::Backend(command));
        assert(r@ =~= seq![Command::Backend(command)]);
        r
    } else {
        let mut message = "Active backend does not support ".to_owned();
        proof {
            reveal_strlit("Active backend does not support ");
        }
        push_text(&mut message, capability.name());
        state.notification = Some(message);
        Vec::new()
    }
}

/// The load state of a playlist whose contents were just requested.
pub open spec fn loading_state(loaded: nat, track_count: usize) -> PlaylistLoadState {
    PlaylistLoadState::Loading {
        loaded: loaded as usize,
        total: if track_count > 0 {
            Some(track_count)
        } else {
            None
        },
    }
}

/// `new` and `r` are what opening a playlist's detail route gives: the route is opened,
/// and when its contents are needed the first playlist with that identity is marked as
/// loading from the tracks it holds and the backend is asked for them.
pub open spec fn playlist_opened(old: AppState, new: AppState, r: Seq<Command>, playlist_id: PlaylistId, needs_load: bool) -> bool {
    let route = Route::PlaylistDetail { playlist_id };
    if needs_load {
        let i = first_with_id(old.playlists@, playlist_id@);
        &&& r == seq![Command::Backend(BackendCommand::LoadPlaylist(playlist_id))]
        &&& i < 0 ==> detail_opened(old, new, route)
        &&& i >= 0 ==> {
            let p = old.playlists@[i];
            &&& new.playlists@ == old.playlists@.update(
                i,
                crate::domain::Playlist { contents_state: loading_state(p.tracks@.len(), p.track_count), ..p },
            )
            &&& detail_opened(old, AppState { playlists: old.playlists, ..new }, route)
        }
    } else {
        r.len() == 0 && detail_opened(old, new, route)
    }
}

/// Opens a playlist's detail route; when its contents are needed, marks the playlist as
/// loading from the tracks it holds and asks the backend for them.
pub fn open_playlist_detail(state: &mut AppState, playlist_id: PlaylistId, needs_load: bool) -> (r: Vec<Command>)
    ensures
        playlist_opened(*old(state), *final(state), r@, playlist_id, needs_load),
{
    let ghost s0 = *state;
    open_detail(state, Route::PlaylistDetail { playlist_id: playlist_id.duplicate() });
    if !needs_load {
        return Vec::new();
    }
    match playlist_position(state, &playlist_id) {
        Some(i) => {
            let loaded = state.playlists[i].tracks.len();
            let count = state.playlists[i].track_count;
            let total = if count > 0 {
                Some(count)
            } else {
                None
            };
            let ghost mid = *state;
            state.playlists[i].contents_state = PlaylistLoadState::Loading { loaded, total };
            assert(AppState { playlists: mid.playlists, ..*state } == mid);
        },
        None => {},
    }
    crate::action::single(Command::Backend(BackendCommand::LoadPlaylist(playlist_id)))
}

} // verus!
