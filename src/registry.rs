//! The registries of users, communities and packs, and resolution over them.
use vstd::prelude::*;

use crate::access::{access_allowed, allowed, holds_any};
use crate::sticker::{find_named, first_named, lemma_first_named_found, Sticker, StickerPack};

verus! {

/// A user's personal stickers, and the packs the user installed, in
/// installation order.
#[derive(Debug, Clone)]
pub struct StickerDbUserData {
    pub user_id: u64,
    pub stickers: Vec<Sticker>,
    pub enabled_packs: Vec<String>,
}

/// A community's stickers, installed packs (in installation order) and
/// access rules.
#[derive(Debug, Clone)]
pub struct StickerDbGuildData {
    pub guild_id: u64,
    pub stickers: Vec<Sticker>,
    pub enabled_packs: Vec<String>,
    /// If any roles are whitelisted, only members holding one of them can
    /// use stickers at all.
    pub whitelisted_roles: Vec<u64>,
    /// A member holding a blacklisted role cannot use stickers; this
    /// overrides the whitelist.
    pub blacklisted_roles: Vec<u64>,
    /// Whether a member's personal stickers take precedence over the
    /// community's own.
    pub personal_allowed: bool,
    pub manager_role: Option<u64>,
}

/// Every user, community and pack known to the service.
#[derive(Debug, Clone)]
pub struct StickerDatabase {
    pub guilds: Vec<StickerDbGuildData>,
    pub private: Vec<StickerDbUserData>,
    pub packs: Vec<StickerPack>,
}

/// The first pack of `packs` from index `i` on whose name is `name`.
pub open spec fn pack_named_from(packs: Seq<StickerPack>, name: Seq<char>, i: int) -> Option<StickerPack>
    decreases packs.len() - i,
{
    if i < 0 || i >= packs.len() {
        None
    } else if packs[i].name@ == name {
        Some(packs[i])
    } else {
        pack_named_from(packs, name, i + 1)
    }
}

/// The pack that an installation of `name` refers to.
pub open spec fn pack_named(packs: Seq<StickerPack>, name: Seq<char>) -> Option<StickerPack> {
    pack_named_from(packs, name, 0)
}

/// The sticker named `name` in the installed packs from position `i` on:
/// that of the earliest installed pack that has one.
pub open spec fn pack_search_from(enabled: Seq<String>, packs: Seq<StickerPack>, name: Seq<char>, i: int) -> Option<Sticker>
    decreases enabled.len() - i,
{
    if i < 0 || i >= enabled.len() {
        None
    } else {
        match pack_named(packs, enabled[i]@) {
            Some(p) => match first_named(p.stickers@, name) {
                Some(s) => Some(s),
                None => pack_search_from(enabled, packs, name, i + 1),
            },
            None => pack_search_from(enabled, packs, name, i + 1),
        }
    }
}

/// The sticker named `name` in the packs installed as `enabled`.
pub open spec fn pack_search(enabled: Seq<String>, packs: Seq<StickerPack>, name: Seq<char>) -> Option<Sticker> {
    pack_search_from(enabled, packs, name, 0)
}

/// Personal resolution: the user's own sticker of that name, else the one of
/// the earliest installed pack that has one.
pub open spec fn personal_resolution(user: StickerDbUserData, packs: Seq<StickerPack>, name: Seq<char>) -> Option<Sticker> {
    match first_named(user.stickers@, name) {
        Some(s) => Some(s),
        None => pack_search(user.enabled_packs@, packs, name),
    }
}

/// Resolution inside a community, for a requester holding the roles `held`
/// there and with the personal record `user`, if any.
pub open spec fn community_resolution(
    guild: StickerDbGuildData,
    user: Option<StickerDbUserData>,
    packs: Seq<StickerPack>,
    name: Seq<char>,
    held: Seq<u64>,
) -> Option<Sticker> {
    if !allowed(guild.whitelisted_roles@, guild.blacklisted_roles@, held) {
        None
    } else {
        let personal = match user {
            Some(u) => if guild.personal_allowed {
                personal_resolution(u, packs, name)
            } else {
                None
            },
            None => None,
        };
        match personal {
            Some(s) => Some(s),
            None => match first_named(guild.stickers@, name) {
                Some(s) => Some(s),
                None => pack_search(guild.enabled_packs@, packs, name),
            },
        }
    }
}

pub open spec fn guild_from(guilds: Seq<StickerDbGuildData>, id: u64, i: int) -> Option<StickerDbGuildData>
    decreases guilds.len() - i,
{
    if i < 0 || i >= guilds.len() {
        None
    } else if guilds[i].guild_id == id {
        Some(guilds[i])
    } else {
        guild_from(guilds, id, i + 1)
    }
}

pub open spec fn user_from(users: Seq<StickerDbUserData>, id: u64, i: int) -> Option<StickerDbUserData>
    decreases users.len() - i,
{
    if i < 0 || i >= users.len() {
        None
    } else if users[i].user_id == id {
        Some(users[i])
    } else {
        user_from(users, id, i + 1)
    }
}

/// Finds the pack installed under `name`.
pub fn pack_index(packs: &Vec<StickerPack>, name: &String) -> (r: Option<usize>)
    ensures
        match r {
            Some(i) => i < packs@.len() && pack_named(packs@, name@) == Some(packs@[i as int]),
            None => pack_named(packs@, name@) is None,
        },
{
    let mut i: usize = 0;
    while i < packs.len()
        invariant
            i <= packs@.len(),
            pack_named(packs@, name@) == pack_named_from(packs@, name@, i as int),
        decreases packs@.len() - i,
    {
        if packs[i].name == *name {
            return Some(i);
        }
        i = i + 1;
    }
    None
}

/// The sticker named `name` of the earliest pack of `enabled` that has one.
pub fn search_packs(enabled: &Vec<String>, packs: &Vec<StickerPack>, name: &String) -> (r: Option<Sticker>)
    ensures
        r == pack_search(enabled@, packs@, name@),
{
    let mut i: usize = 0;
    while i < enabled.len()
        invariant
            i <= enabled@.len(),
            pack_search(enabled@, packs@, name@) == pack_search_from(enabled@, packs@, name@, i as int),
        decreases enabled@.len() - i,
    {
        match pack_index(packs, &enabled[i]) {
            Some(p) => {
                let found = find_named(&packs[p].stickers, name);
                if found.is_some() {
                    return found;
                }
            },
            None => {},
        }
        i = i + 1;
    }
    None
}

impl StickerDbUserData {
    pub fn new(user_id: u64, stickers: Vec<Sticker>, enabled_packs: Vec<String>) -> (r: StickerDbUserData)
        ensures
            r.user_id == user_id,
            r.stickers == stickers,
            r.enabled_packs == enabled_packs,
    {
        StickerDbUserData { user_id, stickers, enabled_packs }
    }

    /// Resolves `sticker` among this user's own stickers, then the packs the
    /// user installed, in installation order.
    pub fn resolve_sticker(&self, sticker: String, packs: &Vec<StickerPack>) -> (r: Option<Sticker>)
        ensures
            r == personal_resolution(*self, packs@, sticker@),
    {
        let own = find_named(&self.stickers, &sticker);
        if own.is_some() {
            return own;
        }
        search_packs(&self.enabled_packs, packs, &sticker)
    }
}

impl StickerDbGuildData {
    pub fn new(
        guild_id: u64,
        stickers: Vec<Sticker>,
        enabled_packs: Vec<String>,
        whitelisted_roles: Vec<u64>,
        blacklisted_roles: Vec<u64>,
        personal_allowed: bool,
        manager_role: Option<u64>,
    ) -> (r: StickerDbGuildData)
        ensures
            r.guild_id == guild_id,
            r.stickers == stickers,
            r.enabled_packs == enabled_packs,
            r.whitelisted_roles == whitelisted_roles,
            r.blacklisted_roles == blacklisted_roles,
            r.personal_allowed == personal_allowed,
            r.manager_role == manager_role,
    {
        StickerDbGuildData {
            guild_id,
            stickers,
            enabled_packs,
            whitelisted_roles,
            blacklisted_roles,
            personal_allowed,
            manager_role,
        }
    }

    /// Whether a member holding the roles `requester_roles` in this
    /// community may use stickers here.
    pub fn can_use_stickers(&self, requester_roles: &Vec<u64>) -> (r: bool)
        ensures
            r == allowed(self.whitelisted_roles@, self.blacklisted_roles@, requester_roles@),
    {
        access_allowed(&self.whitelisted_roles, &self.blacklisted_roles, requester_roles)
    }

    /// Resolves `sticker` for a member holding `requester_roles`, whose
    /// personal record is `user_db`: nothing if access is denied; else a
    /// personal sticker where this community lets those take precedence;
    /// else the community's own sticker; else one of its installed packs.
    pub fn resolve_sticker(
        &self,
        sticker: String,
        requester_roles: &Vec<u64>,
        packs: &Vec<StickerPack>,
        user_db: Option<&StickerDbUserData>,
    ) -> (r: Option<Sticker>)
        ensures
            r == community_resolution(
                *self,
                match user_db {
                    Some(u) => Some(*u),
                    None => None,
                },
                packs@,
                sticker@,
                requester_roles@,
            ),
    {
        if !self.can_use_stickers(requester_roles) {
            return None;
        }
        // personal stickers first, where the community allows them
        if self.personal_allowed {
            match user_db {
                Some(ud) => {
                    let personal = ud.resolve_sticker(sticker.clone(), packs);
                    if personal.is_some() {
                        return personal;
                    }
                },
                None => {},
            }
        }
        // the community's own stickers before its packs
        let own = find_named(&self.stickers, &sticker);
        if own.is_some() {
            return own;
        }
        search_packs(&self.enabled_packs, packs, &sticker)
    }
}

impl StickerDatabase {
    pub fn new(guilds: Vec<StickerDbGuildData>, private: Vec<StickerDbUserData>, packs: Vec<StickerPack>) -> (r: StickerDatabase)
        ensures
            r.guilds == guilds,
            r.private == private,
            r.packs == packs,
    {
        StickerDatabase { guilds, private, packs }
    }

    /// The record of the community `id`, if it is registered.
    pub open spec fn guild_record(&self, id: u64) -> Option<StickerDbGuildData> {
        guild_from(self.guilds@, id, 0)
    }

    /// The personal record of the user `id`, if the user has one.
    pub open spec fn user_record(&self, id: u64) -> Option<StickerDbUserData> {
        user_from(self.private@, id, 0)
    }

    /// What a request for `name` by `user`, holding the roles `held` in the
    /// community `guild` if one is given, resolves to. A request made outside
    /// any registered community is resolved against the requester's personal
    /// record alone.
    pub open spec fn resolution(&self, user: u64, guild: Option<u64>, name: Seq<char>, held: Seq<u64>) -> Option<Sticker> {
        let community = match guild {
            Some(g) => self.guild_record(g),
            None => None,
        };
        match community {
            Some(g) => community_resolution(g, self.user_record(user), self.packs@, name, held),
            None => match self.user_record(user) {
                Some(u) => personal_resolution(u, self.packs@, name),
                None => None,
            },
        }
    }

    fn guild_index(&self, id: u64) -> (r: Option<usize>)
        ensures
            match r {
                Some(i) => i < self.guilds@.len() && self.guild_record(id) == Some(self.guilds@[i as int]),
                None => self.guild_record(id) is None,
            },
    {
        let mut i: usize = 0;
        while i < self.guilds.len()
            invariant
                i <= self.guilds@.len(),
                self.guild_record(id) == guild_from(self.guilds@, id, i as int),
            decreases self.guilds@.len() - i,
        {
            if self.guilds[i].guild_id == id {
                return Some(i);
            }
            i = i + 1;
        }
        None
    }

    fn user_index(&self, id: u64) -> (r: Option<usize>)
        ensures
            match r {
                Some(i) => i < self.private@.len() && self.user_record(id) == Some(self.private@[i as int]),
                None => self.user_record(id) is None,
            },
    {
        let mut i: usize = 0;
        while i < self.private.len()
            invariant
                i <= self.private@.len(),
                self.user_record(id) == user_from(self.private@, id, i as int),
            decreases self.private@.len() - i,
        {
            if self.private[i].user_id == id {
                return Some(i);
            }
            i = i + 1;
        }
        None
    }

    /// Resolves `sticker` for `user`, who holds `requester_roles` in the
    /// community `guild` if the request was made in one.
    pub fn resolve_sticker(&self, user: u64, guild: Option<u64>, sticker: String, requester_roles: &Vec<u64>) -> (r: Option<Sticker>)
        ensures
            r == self.resolution(user, guild, sticker@, requester_roles@),
    {
        let gi = match guild {
            Some(g) => self.guild_index(g),
            None => None,
        };
        let ui = self.user_index(user);
        match gi {
            Some(gi) => {
                let ud = match ui {
                    Some(ui) => Some(&self.private[ui]),
                    None => None,
                };
                self.guilds[gi].resolve_sticker(sticker, requester_roles, &self.packs, ud)
            },
            None => match ui {
                // no community involved: personal stickers only
                Some(ui) => self.private[ui].resolve_sticker(sticker, &self.packs),
                None => None,
            },
        }
    }
}

/// `s` is a sticker of a pack installed as `enabled`.
pub open spec fn from_installed_pack(enabled: Seq<String>, packs: Seq<StickerPack>, s: Sticker) -> bool {
    exists|i: int|
        0 <= i < enabled.len() && (#[trigger] pack_named(packs, enabled[i]@)) is Some && pack_named(
            packs,
            enabled[i]@,
        )->Some_0.stickers@.contains(s)
}

/// `s` is one of the user's own stickers or a sticker of a pack the user
/// installed.
pub open spec fn owned_or_installed(user: StickerDbUserData, packs: Seq<StickerPack>, s: Sticker) -> bool {
    user.stickers@.contains(s) || from_installed_pack(user.enabled_packs@, packs, s)
}

proof fn lemma_pack_search_from_installed(enabled: Seq<String>, packs: Seq<StickerPack>, name: Seq<char>, i: int)
    requires
        0 <= i,
    ensures
        pack_search_from(enabled, packs, name, i) is Some ==> {
            let s = pack_search_from(enabled, packs, name, i)->Some_0;
            s.name@ == name && from_installed_pack(enabled, packs, s)
        },
    decreases enabled.len() - i,
{
    if i < enabled.len() {
        lemma_pack_search_from_installed(enabled, packs, name, i + 1);
        match pack_named(packs, enabled[i]@) {
            Some(p) => {
                lemma_first_named_found(p.stickers@, name, 0);
            },
            None => {},
        }
    }
}

/// What personal resolution finds bears the requested name and is one of the
/// user's own stickers or one of a pack the user installed.
pub proof fn lemma_personal_resolution_source(user: StickerDbUserData, packs: Seq<StickerPack>, name: Seq<char>)
    ensures
        personal_resolution(user, packs, name) is Some ==> {
            let s = personal_resolution(user, packs, name)->Some_0;
            s.name@ == name && owned_or_installed(user, packs, s)
        },
{
    lemma_first_named_found(user.stickers@, name, 0);
    lemma_pack_search_from_installed(user.enabled_packs@, packs, name, 0);
}

/// Outside any registered community, only the requester's personal record
/// and the packs decide: two databases that agree on those resolve alike,
/// whatever their communities hold and whatever roles are given; and what is
/// found is one of the requester's own stickers or one of a pack the
/// requester installed.
pub proof fn lemma_personal_only_outside_community(
    a: StickerDatabase,
    b: StickerDatabase,
    user: u64,
    name: Seq<char>,
    held_a: Seq<u64>,
    held_b: Seq<u64>,
)
    requires
        a.private@ == b.private@,
        a.packs@ == b.packs@,
    ensures
        a.resolution(user, None, name, held_a) == b.resolution(user, None, name, held_b),
        a.resolution(user, None, name, held_a) == match a.user_record(user) {
            Some(u) => personal_resolution(u, a.packs@, name),
            None => None,
        },
        a.resolution(user, None, name, held_a) is Some ==> {
            let s = a.resolution(user, None, name, held_a)->Some_0;
            s.name@ == name && owned_or_installed(a.user_record(user)->Some_0, a.packs@, s)
        },
{
    match a.user_record(user) {
        Some(u) => lemma_personal_resolution_source(u, a.packs@, name),
        None => {},
    }
}

/// In a community that lets personal stickers take precedence, a member who
/// may use stickers and owns a personal sticker of the requested name gets
/// that one, even though the community owns one of the same name.
pub proof fn lemma_personal_precedes_community(
    db: StickerDatabase,
    user: u64,
    guild: u64,
    name: Seq<char>,
    held: Seq<u64>,
)
    requires
        db.guild_record(guild) is Some,
        db.guild_record(guild)->Some_0.personal_allowed,
        allowed(
            db.guild_record(guild)->Some_0.whitelisted_roles@,
            db.guild_record(guild)->Some_0.blacklisted_roles@,
            held,
        ),
        db.user_record(user) is Some,
        first_named(db.user_record(user)->Some_0.stickers@, name) is Some,
        first_named(db.guild_record(guild)->Some_0.stickers@, name) is Some,
    ensures
        db.resolution(user, Some(guild), name, held) == first_named(
            db.user_record(user)->Some_0.stickers@,
            name,
        ),
{
}

/// A member holding a blacklisted role of the community gets nothing.
pub proof fn lemma_blacklisted_role_denies(
    db: StickerDatabase,
    user: u64,
    guild: u64,
    name: Seq<char>,
    held: Seq<u64>,
    role: u64,
)
    requires
        db.guild_record(guild) is Some,
        db.guild_record(guild)->Some_0.blacklisted_roles@.contains(role),
        held.contains(role),
    ensures
        db.resolution(user, Some(guild), name, held) is None,
{
    let g = db.guild_record(guild)->Some_0;
    let i = choose|i: int| 0 <= i < g.blacklisted_roles@.len() && g.blacklisted_roles@[i] == role;
    assert(held.contains(g.blacklisted_roles@[i]));
    assert(holds_any(g.blacklisted_roles@, held));
}

/// Where a community whitelists roles, a member holding no blacklisted role
/// and none of the whitelisted ones gets nothing.
pub proof fn lemma_whitelist_excludes(
    db: StickerDatabase,
    user: u64,
    guild: u64,
    name: Seq<char>,
    held: Seq<u64>,
)
    requires
        db.guild_record(guild) is Some,
        db.guild_record(guild)->Some_0.whitelisted_roles@.len() > 0,
        !holds_any(db.guild_record(guild)->Some_0.blacklisted_roles@, held),
        !holds_any(db.guild_record(guild)->Some_0.whitelisted_roles@, held),
    ensures
        db.resolution(user, Some(guild), name, held) is None,
{
}

/// Where a community whitelists no role, a member holding no blacklisted role
/// is admitted, and resolves as a member holding no role at all would.
pub proof fn lemma_empty_whitelist_admits(
    db: StickerDatabase,
    user: u64,
    guild: u64,
    name: Seq<char>,
    held: Seq<u64>,
)
    requires
        db.guild_record(guild) is Some,
        db.guild_record(guild)->Some_0.whitelisted_roles@.len() == 0,
        !holds_any(db.guild_record(guild)->Some_0.blacklisted_roles@, held),
    ensures
        allowed(
            db.guild_record(guild)->Some_0.whitelisted_roles@,
            db.guild_record(guild)->Some_0.blacklisted_roles@,
            held,
        ),
        db.resolution(user, Some(guild), name, held) == db.resolution(
            user,
            Some(guild),
            name,
            Seq::<u64>::empty(),
        ),
{
    let g = db.guild_record(guild)->Some_0;
    assert(!holds_any(g.blacklisted_roles@, Seq::<u64>::empty()));
}

/// Of two installed packs that both have a sticker of the requested name,
/// the one installed first provides it.
pub proof fn lemma_earlier_pack_wins(
    first: StickerPack,
    second: StickerPack,
    enabled: Seq<String>,
    packs: Seq<StickerPack>,
    name: Seq<char>,
)
    requires
        enabled.len() == 2,
        enabled[0]@ == first.name@,
        enabled[1]@ == second.name@,
        pack_named(packs, first.name@) == Some(first),
        pack_named(packs, second.name@) == Some(second),
        first_named(first.stickers@, name) is Some,
        first_named(second.stickers@, name) is Some,
    ensures
        pack_search(enabled, packs, name) == first_named(first.stickers@, name),
{
}

/// Resolving the same request twice against the same database gives the
/// same sticker.
pub proof fn lemma_resolution_repeatable(
    db: StickerDatabase,
    user: u64,
    guild: Option<u64>,
    name: Seq<char>,
    held: Seq<u64>,
    first: Option<Sticker>,
    second: Option<Sticker>,
)
    requires
        first == db.resolution(user, guild, name, held),
        second == db.resolution(user, guild, name, held),
    ensures
        first == second,
{
}

} // verus!
