//! Stickers as stored: an identifier, a name, and the one scope that owns it.
use vstd::prelude::*;

verus! {

/// The scope that owns a stored sticker.
#[derive(Debug, Clone, Copy, PartialEq, Eq)]
pub enum StickerSource {
    Guild(u64),
    User(u64),
    Pack(u64),
}

/// A stored sticker.
#[derive(Debug, Clone)]
pub struct LSticker {
    pub id: u64,
    pub name: String,
    pub source: StickerSource,
}

/// The owner recorded in the columns of a stored sticker; the community
/// column is read first, then the user column, then the pack column.
pub open spec fn owner_of(guild: Option<u64>, user: Option<u64>, pack: Option<u64>) -> StickerSource {
    match guild {
        Some(g) => StickerSource::Guild(g),
        None => match user {
            Some(u) => StickerSource::User(u),
            None => StickerSource::Pack(pack->Some_0),
        },
    }
}

impl LSticker {
    /// Builds a sticker from the columns of its stored row. Every stored
    /// sticker has an owner, so at least one owner column is set.
    pub fn from_row(id: u64, name: String, guild: Option<u64>, user: Option<u64>, pack: Option<u64>) -> (r: LSticker)
        requires
            guild is Some || user is Some || pack is Some,
        ensures
            r.id == id,
            r.name == name,
            r.source == owner_of(guild, user, pack),
    {
        let source = match guild {
            Some(g) => StickerSource::Guild(g),
            None => match user {
                Some(u) => StickerSource::User(u),
                None => StickerSource::Pack(pack.unwrap()),
            },
        };
        LSticker { id, name, source }
    }
}

} // verus!
