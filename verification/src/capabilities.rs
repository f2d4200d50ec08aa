//! What a music backend can do.
use vstd::prelude::*;

verus! {

#[derive(Clone, Copy, Debug, PartialEq, Eq, Hash, Structural)]
pub enum Capability {
    Launch,
    Playback,
    Seek,
    Volume,
    Mute,
    Shuffle,
    Repeat,
    Favorite,
    LibraryRead,
    PlaylistRead,
    SelectionPlayback,
    AlbumPlayback,
    ArtworkRead,
    PlaylistTrackRemove,
    QueueRead,
    QueueWrite,
    QueueReorder,
}

/// The slot of a capability in a capability set.
pub open spec fn capability_slot(c: Capability) -> int {
    match c {
        Capability::Launch => 0,
        Capability::Playback => 1,
        Capability::Seek => 2,
        Capability::Volume => 3,
        Capability::Mute => 4,
        Capability::Shuffle => 5,
        Capability::Repeat => 6,
        Capability::Favorite => 7,
        Capability::LibraryRead => 8,
        Capability::PlaylistRead => 9,
        Capability::SelectionPlayback => 10,
        Capability::AlbumPlayback => 11,
        Capability::ArtworkRead => 12,
        Capability::PlaylistTrackRemove => 13,
        Capability::QueueRead => 14,
        Capability::QueueWrite => 15,
        Capability::QueueReorder => 16,
    }
}

fn slot_of(c: Capability) -> (r: usize)
    ensures
        r as int == capability_slot(c),
        r < 17,
{
    match c {
        Capability::Launch => 0,
        Capability::Playback => 1,
        Capability::Seek => 2,
        Capability::Volume => 3,
        Capability::Mute => 4,
        Capability::Shuffle => 5,
        Capability::Repeat => 6,
        Capability::Favorite => 7,
        Capability::LibraryRead => 8,
        Capability::PlaylistRead => 9,
        Capability::SelectionPlayback => 10,
        Capability::AlbumPlayback => 11,
        Capability::ArtworkRead => 12,
        Capability::PlaylistTrackRemove => 13,
        Capability::QueueRead => 14,
        Capability::QueueWrite => 15,
        Capability::QueueReorder => 16,
    }
}

/// The name a capability is reported by.
pub open spec fn spec_capability_name(c: Capability) -> Seq<char> {
    match c {
        Capability::Launch => "Launch"@,
        Capability::Playback => "Playback"@,
        Capability::Seek => "Seek"@,
        Capability::Volume => "Volume"@,
        Capability::Mute => "Mute"@,
        Capability::Shuffle => "Shuffle"@,
        Capability::Repeat => "Repeat"@,
        Capability::Favorite => "Favorite"@,
        Capability::LibraryRead => "LibraryRead"@,
        Capability::PlaylistRead => "PlaylistRead"@,
        Capability::SelectionPlayback => "SelectionPlayback"@,
        Capability::AlbumPlayback => "AlbumPlayback"@,
        Capability::ArtworkRead => "ArtworkRead"@,
        Capability::PlaylistTrackRemove => "PlaylistTrackRemove"@,
        Capability::QueueRead => "QueueRead"@,
        Capability::QueueWrite => "QueueWrite"@,
        Capability::QueueReorder => "QueueReorder"@,
    }
}

impl Capability {
    pub fn name(self) -> (r: &'static str)
        ensures
            r@ == spec_capability_name(self),
    {
        match self {
            Capability::Launch => "Launch",
            Capability::Playback => "Playback",
            Capability::Seek => "Seek",
            Capability::Volume => "Volume",
            Capability::Mute => "Mute",
            Capability::Shuffle => "Shuffle",
            Capability::Repeat => "Repeat",
            Capability::Favorite => "Favorite",
            Capability::LibraryRead => "LibraryRead",
            Capability::PlaylistRead => "PlaylistRead",
            Capability::SelectionPlayback => "SelectionPlayback",
            Capability::AlbumPlayback => "AlbumPlayback",
            Capability::ArtworkRead => "ArtworkRead",
            Capability::PlaylistTrackRemove => "PlaylistTrackRemove",
            Capability::QueueRead => "QueueRead",
            Capability::QueueWrite => "QueueWrite",
            Capability::QueueReorder => "QueueReorder",
        }
    }
}

/// A set of capabilities.
#[derive(Clone, Debug, PartialEq, Eq)]
pub struct Capabilities {
    flags: [bool; 17],
}

impl View for Capabilities {
    type V = Set<Capability>;

    closed spec fn view(&self) -> Set<Capability> {
        Set::new(|c: Capability| self.flags@[capability_slot(c)])
    }
}

/// The capabilities of the built-in demonstration backend.
pub open spec fn mock_capabilities() -> Set<Capability> {
    set![
        Capability::Playback,
        Capability::Seek,
        Capability::Volume,
        Capability::Mute,
        Capability::Shuffle,
        Capability::Repeat,
        Capability::Favorite,
        Capability::LibraryRead,
        Capability::PlaylistRead,
        Capability::SelectionPlayback,
        Capability::AlbumPlayback,
        Capability::QueueRead,
        Capability::QueueWrite,
        Capability::QueueReorder,
    ]
}

/// The capabilities of the local Music.app backend.
pub open spec fn macos_capabilities() -> Set<Capability> {
    set![
        Capability::Launch,
        Capability::Playback,
        Capability::Seek,
        Capability::Volume,
        Capability::Shuffle,
        Capability::Repeat,
        Capability::LibraryRead,
        Capability::PlaylistRead,
        Capability::SelectionPlayback,
        Capability::AlbumPlayback,
        Capability::ArtworkRead,
        Capability::PlaylistTrackRemove,
    ]
}

impl Capabilities {
    /// The empty set.
    pub fn none() -> (r: Capabilities)
        ensures
            r@ == Set::<Capability>::empty(),
    {
        let r = Capabilities { flags: [false; 17] };
        assert(r@ =~= Set::<Capability>::empty());
        r
    }

    /// The set holding exactly the listed capabilities.
    pub fn new(capabilities: &[Capability]) -> (r: Capabilities)
        ensures
            r@ == capabilities@.to_set(),
    {
        let mut flags = [false; 17];
        let mut i: usize = 0;
        while i < capabilities.len()
            invariant
                i <= capabilities@.len(),
                forall|c: Capability| #[trigger] flags@[capability_slot(c)] == capabilities@.subrange(0, i as int).contains(c),
            decreases capabilities.len() - i,
        {
            let slot = slot_of(capabilities[i]);
            flags.set(slot, true);
            proof {
                assert forall|c: Capability| #[trigger] flags@[capability_slot(c)] == capabilities@.subrange(0, i + 1).contains(c) by {
                    let prev = capabilities@.subrange(0, i as int);
                    let next = capabilities@.subrange(0, i + 1);
                    assert(next =~= prev.push(capabilities@[i as int]));
                    if capability_slot(c) == slot as int {
                        assert(c == capabilities@[i as int]);
                        assert(next[i as int] == c);
                    } else {
                        if next.contains(c) {
                            let k = choose|k: int| 0 <= k < next.len() && next[k] == c;
                            assert(k != i);
                            assert(prev[k] == c);
                        }
                        if prev.contains(c) {
                            let k = choose|k: int| 0 <= k < prev.len() && prev[k] == c;
                            assert(next[k] == c);
                        }
                    }
                }
            }
            i = i + 1;
        }
        let r = Capabilities { flags };
        assert(capabilities@.subrange(0, capabilities@.len() as int) =~= capabilities@);
        assert(r@ =~= capabilities@.to_set());
        r
    }

    /// The demonstration backend's capabilities.
    pub fn mock() -> (r: Capabilities)
        ensures
            r@ == mock_capabilities(),
    {
        let list = [
            Capability::Playback,
            Capability::Seek,
            Capability::Volume,
            Capability::Mute,
            Capability::Shuffle,
            Capability::Repeat,
            Capability::Favorite,
            Capability::LibraryRead,
            Capability::PlaylistRead,
            Capability::SelectionPlayback,
            Capability::AlbumPlayback,
            Capability::QueueRead,
            Capability::QueueWrite,
            Capability::QueueReorder,
        ];
        let r = Capabilities::new(&list);
        assert(r@ =~= mock_capabilities()) by {
            assert forall|c: Capability| mock_capabilities().contains(c) implies list@.contains(c) by {
                let k: int = match c {
                    Capability::Playback => 0,
                    Capability::Seek => 1,
                    Capability::Volume => 2,
                    Capability::Mute => 3,
                    Capability::Shuffle => 4,
                    Capability::Repeat => 5,
                    Capability::Favorite => 6,
                    Capability::LibraryRead => 7,
                    Capability::PlaylistRead => 8,
                    Capability::SelectionPlayback => 9,
                    Capability::AlbumPlayback => 10,
                    Capability::QueueRead => 11,
                    Capability::QueueWrite => 12,
                    _ => 13,
                };
                assert(list@[k] == c);
            }
        }
        r
    }

    /// The local Music.app backend's capabilities.
    pub fn macos() -> (r: Capabilities)
        ensures
            r@ == macos_capabilities(),
    {
        let list = [
            Capability::Launch,
            Capability::Playback,
            Capability::Seek,
            Capability::Volume,
            Capability::Shuffle,
            Capability::Repeat,
            Capability::LibraryRead,
            Capability::PlaylistRead,
            Capability::SelectionPlayback,
            Capability::AlbumPlayback,
            Capability::ArtworkRead,
            Capability::PlaylistTrackRemove,
        ];
        let r = Capabilities::new(&list);
        assert(r@ =~= macos_capabilities()) by {
            assert forall|c: Capability| macos_capabilities().contains(c) implies list@.contains(c) by {
                let k: int = match c {
                    Capability::Launch => 0,
                    Capability::Playback => 1,
                    Capability::Seek => 2,
                    Capability::Volume => 3,
                    Capability::Shuffle => 4,
                    Capability::Repeat => 5,
                    Capability::LibraryRead => 6,
                    Capability::PlaylistRead => 7,
                    Capability::SelectionPlayback => 8,
                    Capability::AlbumPlayback => 9,
                    Capability::ArtworkRead => 10,
                    _ => 11,
                };
                assert(list@[k] == c);
            }
        }
        r
    }

    /// Whether the set holds `capability`.
    pub fn supports(&self, capability: Capability) -> (r: bool)
        ensures
            r == self@.contains(capability),
    {
        self.flags[slot_of(capability)]
    }
}

impl Default for Capabilities {
    /// The empty set: nothing is supported.
    fn default() -> (r: Self)
        ensures
            r@ == Set::<Capability>::empty(),
    {
        Capabilities::none()
    }
}

} // verus!
