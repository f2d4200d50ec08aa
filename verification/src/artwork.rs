//! Artwork identities, images and the decoding of Music.app artwork descriptors.
use vstd::prelude::*;

use crate::domain::{AlbumId, PlaylistId, TrackId};
use vstd::string::StringSliceAdditionalSpecFns;

verus! {

/// The largest artwork, in decoded bytes, that the client accepts.
pub const MAX_ARTWORK_BYTES: usize = 2097152;

#[derive(Clone, Copy, Debug, PartialEq, Eq, Hash, Structural)]
pub enum ArtworkMediaType {
    Jpeg,
    Png,
    Gif,
    Unknown,
}

#[derive(Clone, Debug, PartialEq, Eq)]
pub struct Artwork {
    pub media_type: ArtworkMediaType,
    pub bytes: Vec<u8>,
}

/// The 64-bit FNV-1a offset basis.
pub const FNV_OFFSET: u64 = 14695981039346656037;

/// The 64-bit FNV-1a prime.
pub const FNV_PRIME: u64 = 1099511628211;

/// A number for each media type, mixed into the fingerprint first.
pub open spec fn media_type_code(m: ArtworkMediaType) -> u8 {
    match m {
        ArtworkMediaType::Jpeg => 1,
        ArtworkMediaType::Png => 2,
        ArtworkMediaType::Gif => 3,
        ArtworkMediaType::Unknown => 4,
    }
}

/// One FNV-1a step: xor in a byte, then multiply by the prime modulo 2^64.
pub open spec fn fnv_step(h: u64, b: u8) -> u64 {
    ((h ^ (b as u64)) as int * FNV_PRIME as int % 0x1_0000_0000_0000_0000) as u64
}

/// FNV-1a over a byte sequence starting from `h`.
pub open spec fn fnv_fold(h: u64, bytes: Seq<u8>) -> u64
    decreases bytes.len(),
{
    if bytes.len() == 0 {
        h
    } else {
        fnv_fold(fnv_step(h, bytes[0]), bytes.drop_first())
    }
}

/// FNV-1a from `h` over the first `n` bytes.
pub open spec fn fnv_prefix(h: u64, bytes: Seq<u8>, n: nat) -> u64
    decreases n,
{
    if n == 0 || n > bytes.len() {
        h
    } else {
        fnv_step(fnv_prefix(h, bytes, (n - 1) as nat), bytes[n - 1])
    }
}

/// The fingerprint of an image: FNV-1a over its media type code followed by its bytes.
pub open spec fn spec_fingerprint(a: Artwork) -> u64 {
    fnv_prefix(fnv_step(FNV_OFFSET, media_type_code(a.media_type)), a.bytes@, a.bytes@.len())
}

fn media_code(m: ArtworkMediaType) -> (r: u8)
    ensures
        r == media_type_code(m),
{
    match m {
        ArtworkMediaType::Jpeg => 1,
        ArtworkMediaType::Png => 2,
        ArtworkMediaType::Gif => 3,
        ArtworkMediaType::Unknown => 4,
    }
}

fn fnv_mix(h: u64, b: u8) -> (r: u64)
    ensures
        r == fnv_step(h, b),
{
    let x = h ^ (b as u64);
    let r = x.wrapping_mul(FNV_PRIME);
    r
}

impl Artwork {
    /// A content fingerprint identifying the source image of a derived rendering.
    pub fn fingerprint(&self) -> (r: u64)
        ensures
            r == spec_fingerprint(*self),
    {
        let mut h = fnv_mix(FNV_OFFSET, media_code(self.media_type));
        let ghost h0 = h;
        let mut i: usize = 0;
        while i < self.bytes.len()
            invariant
                i <= self.bytes@.len(),
                h0 == fnv_step(FNV_OFFSET, media_type_code(self.media_type)),
                h == fnv_prefix(h0, self.bytes@, i as nat),
            decreases self.bytes.len() - i,
        {
            h = fnv_mix(h, self.bytes[i]);
            i = i + 1;
        }
        h
    }

    /// A copy holding the same media type and bytes.
    pub fn duplicate(&self) -> (r: Artwork)
        ensures
            r.media_type == self.media_type,
            r.bytes@ == self.bytes@,
    {
        let mut bytes: Vec<u8> = Vec::new();
        let mut i: usize = 0;
        while i < self.bytes.len()
            invariant
                i <= self.bytes@.len(),
                bytes@ == self.bytes@.subrange(0, i as int),
            decreases self.bytes.len() - i,
        {
            bytes.push(self.bytes[i]);
            assert(bytes@ =~= self.bytes@.subrange(0, i + 1));
            i = i + 1;
        }
        assert(bytes@ =~= self.bytes@);
        Artwork { media_type: self.media_type, bytes }
    }
}

/// The identity artwork is cached and requested under.
#[derive(Clone, Debug, PartialEq, Eq, Hash, PartialOrd, Ord)]
pub enum ArtworkKey {
    Track(TrackId),
    Album(AlbumId),
    Playlist(PlaylistId),
}

/// The identity of an artwork key, as a kind tag and an identifier.
pub open spec fn key_view(k: ArtworkKey) -> (u8, Seq<char>) {
    match k {
        ArtworkKey::Track(id) => (0u8, id@),
        ArtworkKey::Album(id) => (1u8, id@),
        ArtworkKey::Playlist(id) => (2u8, id@),
    }
}

impl ArtworkKey {
    /// Whether two keys name the same artwork.
    pub fn same(&self, other: &ArtworkKey) -> (r: bool)
        ensures
            r == (key_view(*self) == key_view(*other)),
    {
        match (self, other) {
            (ArtworkKey::Track(a), ArtworkKey::Track(b)) => a.same(b),
            (ArtworkKey::Album(a), ArtworkKey::Album(b)) => a.same(b),
            (ArtworkKey::Playlist(a), ArtworkKey::Playlist(b)) => a.same(b),
            _ => false,
        }
    }

    /// A copy naming the same artwork.
    pub fn duplicate(&self) -> (r: ArtworkKey)
        ensures
            r == *self,
            key_view(r) == key_view(*self),
    {
        match self {
            ArtworkKey::Track(id) => ArtworkKey::Track(id.duplicate()),
            ArtworkKey::Album(id) => ArtworkKey::Album(id.duplicate()),
            ArtworkKey::Playlist(id) => ArtworkKey::Playlist(id.duplicate()),
        }
    }
}

/// What a backend found when asked for a track's artwork.
#[derive(Clone, Debug, PartialEq, Eq)]
pub enum ArtworkResult {
    Ready(Artwork),
    Missing,
    TooLarge { encoded_bytes: usize },
    /// A fresh Music.app object was not available yet; asking again may succeed.
    Transient(String),
    Invalid(String),
}

/// The artwork part of a Music.app automation reply.
#[derive(Clone, Debug, PartialEq)]
pub struct RawArtwork {
    pub raw_data: Option<String>,
    pub missing: bool,
    pub too_large: bool,
    pub encoded_bytes: Option<usize>,
    pub resolver: Option<String>,
    pub attempts: Vec<String>,
    pub transient: bool,
    pub reason: Option<String>,
}

/// The value of a hexadecimal digit (either case), if the byte is one.
pub open spec fn spec_hex_digit(b: u8) -> Option<u8> {
    if 48 <= b <= 57 {
        Some((b - 48) as u8)
    } else if 97 <= b <= 102 {
        Some((b - 97 + 10) as u8)
    } else if 65 <= b <= 70 {
        Some((b - 65 + 10) as u8)
    } else {
        None
    }
}

pub fn hex_digit(value: u8) -> (r: Option<u8>)
    ensures
        r == spec_hex_digit(value),
{
    if 48 <= value && value <= 57 {
        Some(value - 48)
    } else if 97 <= value && value <= 102 {
        Some(value - 97 + 10)
    } else if 65 <= value && value <= 70 {
        Some(value - 65 + 10)
    } else {
        None
    }
}

/// Every byte of `hex` is a hexadecimal digit.
pub open spec fn all_hex(hex: Seq<u8>) -> bool {
    forall|i: int| 0 <= i < hex.len() ==> (#[trigger] spec_hex_digit(hex[i])) is Some
}

/// The bytes denoted by pairs of hexadecimal digits.
pub open spec fn decoded_hex(hex: Seq<u8>) -> Seq<u8> {
    Seq::new(
        hex.len() / 2,
        |i: int|
            (spec_hex_digit(hex[2 * i]).unwrap() as int * 16 + spec_hex_digit(hex[2 * i + 1]).unwrap() as int) as u8,
    )
}

/// `bytes` begins with `prefix`.
pub open spec fn bytes_start_with(bytes: Seq<u8>, prefix: Seq<u8>) -> bool {
    prefix.len() <= bytes.len() && bytes.subrange(0, prefix.len() as int) == prefix
}

/// The media type recognised from an image's leading bytes.
pub open spec fn spec_media_type(bytes: Seq<u8>) -> ArtworkMediaType {
    if bytes_start_with(bytes, seq![0xffu8, 0xd8u8, 0xffu8]) {
        ArtworkMediaType::Jpeg
    } else if bytes_start_with(bytes, seq![0x89u8, 0x50u8, 0x4eu8, 0x47u8, 0x0du8, 0x0au8, 0x1au8, 0x0au8]) {
        ArtworkMediaType::Png
    } else if bytes_start_with(bytes, seq![0x47u8, 0x49u8, 0x46u8, 0x38u8, 0x37u8, 0x61u8])
        || bytes_start_with(bytes, seq![0x47u8, 0x49u8, 0x46u8, 0x38u8, 0x39u8, 0x61u8]) {
        ArtworkMediaType::Gif
    } else {
        ArtworkMediaType::Unknown
    }
}

fn starts_with_bytes(bytes: &Vec<u8>, prefix: &[u8]) -> (r: bool)
    ensures
        r == bytes_start_with(bytes@, prefix@),
{
    if prefix.len() > bytes.len() {
        return false;
    }
    let mut i: usize = 0;
    while i < prefix.len()
        invariant
            prefix@.len() <= bytes@.len(),
            i <= prefix@.len(),
            forall|k: int| 0 <= k < i ==> bytes@[k] == prefix@[k],
        decreases prefix.len() - i,
    {
        if bytes[i] != prefix[i] {
            assert(bytes@.subrange(0, prefix@.len() as int)[i as int] != prefix@[i as int]);
            return false;
        }
        i = i + 1;
    }
    assert(bytes@.subrange(0, prefix@.len() as int) =~= prefix@);
    true
}

/// Recognises JPEG, PNG and GIF images by their signatures.
pub fn media_type_of(bytes: &Vec<u8>) -> (r: ArtworkMediaType)
    ensures
        r == spec_media_type(bytes@),
{
    let jpeg: [u8; 3] = [0xff, 0xd8, 0xff];
    let png: [u8; 8] = [0x89, 0x50, 0x4e, 0x47, 0x0d, 0x0a, 0x1a, 0x0a];
    let gif87: [u8; 6] = [0x47, 0x49, 0x46, 0x38, 0x37, 0x61];
    let gif89: [u8; 6] = [0x47, 0x49, 0x46, 0x38, 0x39, 0x61];
    assert(jpeg@ =~= seq![0xffu8, 0xd8u8, 0xffu8]);
    assert(png@ =~= seq![0x89u8, 0x50u8, 0x4eu8, 0x47u8, 0x0du8, 0x0au8, 0x1au8, 0x0au8]);
    assert(gif87@ =~= seq![0x47u8, 0x49u8, 0x46u8, 0x38u8, 0x37u8, 0x61u8]);
    assert(gif89@ =~= seq![0x47u8, 0x49u8, 0x46u8, 0x38u8, 0x39u8, 0x61u8]);
    if starts_with_bytes(bytes, &jpeg) {
        ArtworkMediaType::Jpeg
    } else if starts_with_bytes(bytes, &png) {
        ArtworkMediaType::Png
    } else if starts_with_bytes(bytes, &gif87) || starts_with_bytes(bytes, &gif89) {
        ArtworkMediaType::Gif
    } else {
        ArtworkMediaType::Unknown
    }
}

/// Decodes pairs of hexadecimal digits, or returns `None` at the first non-digit.
pub fn decode_hex(hex: &[u8]) -> (r: Option<Vec<u8>>)
    requires
        hex@.len() % 2 == 0,
    ensures
        r is Some <==> all_hex(hex@),
        r matches Some(bytes) ==> bytes@ == decoded_hex(hex@),
{
    let mut bytes: Vec<u8> = Vec::new();
    let n = hex.len() / 2;
    let mut i: usize = 0;
    while i < n
        invariant
            n == hex@.len() / 2,
            hex@.len() % 2 == 0,
            i <= n,
            forall|k: int| 0 <= k < 2 * i ==> (#[trigger] spec_hex_digit(hex@[k])) is Some,
            bytes@ == decoded_hex(hex@).subrange(0, i as int),
        decreases n - i,
    {
        assert(2 * i + 1 < hex.len());
        let high = hex_digit(hex[2 * i]);
        let low = hex_digit(hex[2 * i + 1]);
        match (high, low) {
            (Some(h), Some(l)) => {
                assert(h < 16 && l < 16);
                let value: u8 = h * 16 + l;
                bytes.push(value);
                assert(bytes@ =~= decoded_hex(hex@).subrange(0, i + 1));
                assert forall|k: int| 0 <= k < 2 * (i + 1) implies (#[trigger] spec_hex_digit(hex@[k])) is Some by {
                    if k == 2 * i {
                    } else if k == 2 * i + 1 {
                    }
                }
            },
            _ => {
                assert(!all_hex(hex@)) by {
                    if high is None {
                        assert(spec_hex_digit(hex@[2 * i as int]) is None);
                    } else {
                        assert(spec_hex_digit(hex@[2 * i + 1]) is None);
                    }
                }
                return None;
            },
        }
        i = i + 1;
    }
    assert(bytes@ =~= decoded_hex(hex@));
    Some(bytes)
}

/// Turns an automation artwork reply into a typed result: absent replies and replies
/// marked missing are `Missing`; oversized replies are `TooLarge`; transient replies keep
/// their reason; a hexadecimal descriptor of even length within the size bound decodes
/// to an image whose type is read from its signature; anything else is `Invalid`.
pub fn artwork_result(raw: Option<RawArtwork>) -> (r: ArtworkResult)
    ensures
        raw is None ==> r is Missing,
        raw matches Some(a) ==> {
            &&& a.too_large ==> r == (ArtworkResult::TooLarge {
                encoded_bytes: match a.encoded_bytes { Some(n) => n, None => 0 },
            })
            &&& !a.too_large && a.transient ==> r is Transient
            &&& !a.too_large && a.transient && a.reason is Some ==> (r matches ArtworkResult::Transient(m) && m@ == a.reason.unwrap()@)
            &&& !a.too_large && !a.transient && a.missing ==> r is Missing
            &&& !a.too_large && !a.transient && !a.missing && a.raw_data is None ==> r is Invalid
            &&& (!a.too_large && !a.transient && !a.missing && a.raw_data is Some) ==> {
                let hex = a.raw_data.unwrap();
                let bytes = vstd::utf8::encode_utf8(hex@);
                if bytes.len() % 2 != 0 || bytes.len() / 2 > MAX_ARTWORK_BYTES || !all_hex(bytes) {
                    r is Invalid
                } else {
                    (r matches ArtworkResult::Ready(art) && art.bytes@ == decoded_hex(bytes)
                        && art.media_type == spec_media_type(decoded_hex(bytes)))
                }
            }
        },
{
    let raw = match raw {
        Some(raw) => raw,
        None => return ArtworkResult::Missing,
    };
    if raw.too_large {
        let encoded_bytes = match raw.encoded_bytes {
            Some(n) => n,
            None => 0,
        };
        return ArtworkResult::TooLarge { encoded_bytes };
    }
    if raw.transient {
        let reason = match raw.reason {
            Some(reason) => reason,
            None => "Music.app artwork object is temporarily unavailable".to_owned(),
        };
        return ArtworkResult::Transient(reason);
    }
    if raw.missing {
        return ArtworkResult::Missing;
    }
    let hex = match raw.raw_data {
        Some(hex) => hex,
        None => return ArtworkResult::Invalid("Music.app returned an unreadable artwork descriptor".to_owned()),
    };
    let hex_bytes = hex.as_str().as_bytes();
    if hex_bytes.len() % 2 != 0 || hex_bytes.len() / 2 > MAX_ARTWORK_BYTES {
        return ArtworkResult::Invalid("Music.app returned an invalid artwork size".to_owned());
    }
    match decode_hex(hex_bytes) {
        Some(bytes) => {
            let media_type = media_type_of(&bytes);
            ArtworkResult::Ready(Artwork { media_type, bytes })
        },
        None => ArtworkResult::Invalid("Artwork descriptor was not hexadecimal".to_owned()),
    }
}

} // verus!
