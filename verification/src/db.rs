//! The store of profiles and pairings, and the search for the next partner.

use vstd::prelude::*;
use crate::clock::unix_seconds;
use crate::entities::{Dating, Image, ImageKind, User};
use crate::error::MatchError;
use crate::matching::{
    decide, lemma_choice_is_admitted, lemma_subjects_do_not_matter, spec_choose, Decision,
    MatchFilter,
};
use crate::profile::EditProfile;

verus! {

/// What a search for a partner ends in, where nothing went wrong.
#[derive(Debug, PartialEq, Eq)]
pub enum MatchOutcome {
    /// A pairing, and the profile of the partner in it.
    Found(Dating, User),
    /// Nobody passes the filters.
    NoneAvailable,
}

/// The contents of the store: its three tables, rows in the order in which
/// they were written.
pub struct Tables {
    pub users: Seq<User>,
    pub datings: Seq<Dating>,
    pub images: Seq<Image>,
}

/// Whether a user has the id.
pub open spec fn has_user(users: Seq<User>, id: i64) -> bool {
    exists|i: int| 0 <= i < users.len() && (#[trigger] users[i]).id == id
}

/// The place of the user with the id.
pub open spec fn user_index(users: Seq<User>, id: i64) -> int
    recommends
        has_user(users, id),
{
    choose|i: int| 0 <= i < users.len() && (#[trigger] users[i]).id == id
}

/// Whether a pairing has the id.
pub open spec fn has_dating(datings: Seq<Dating>, id: i32) -> bool {
    exists|i: int| 0 <= i < datings.len() && (#[trigger] datings[i]).id == id
}

/// The place of the pairing with the id.
pub open spec fn dating_index(datings: Seq<Dating>, id: i32) -> int
    recommends
        has_dating(datings, id),
{
    choose|i: int| 0 <= i < datings.len() && (#[trigger] datings[i]).id == id
}

/// Whether the pairing waits for the reaction of `initiator`.
pub open spec fn is_pending(dating: Dating, initiator: i64) -> bool {
    dating.initiator_id == initiator && dating.initiator_reaction.is_none()
}

/// Whether a pairing waits for the reaction of `initiator`.
pub open spec fn has_pending(datings: Seq<Dating>, initiator: i64) -> bool {
    exists|i: int| 0 <= i < datings.len() && is_pending(#[trigger] datings[i], initiator)
}

/// The place of the pairing that waits for the reaction of `initiator`.
pub open spec fn pending_index(datings: Seq<Dating>, initiator: i64) -> int
    recommends
        has_pending(datings, initiator),
{
    choose|i: int| 0 <= i < datings.len() && is_pending(#[trigger] datings[i], initiator)
}

/// The id that the next pairing gets: one more than the last, 1 for the
/// first.
pub open spec fn next_dating_id(datings: Seq<Dating>) -> int {
    if datings.len() == 0 {
        1
    } else {
        datings.last().id + 1
    }
}

/// What holds of the tables at all times: no two users share an id; the
/// ids of the pairings rise; a pairing joins two different users of the
/// store; no user has two pairings waiting for their reaction; a picture
/// belongs to a user of the store.
pub open spec fn well_formed(t: Tables) -> bool {
    &&& forall|i: int, j: int|
        0 <= i < j < t.users.len() ==> (#[trigger] t.users[i]).id != (#[trigger] t.users[j]).id
    &&& forall|i: int, j: int|
        0 <= i < j < t.datings.len() ==> (#[trigger] t.datings[i]).id < (#[trigger] t.datings[j]).id
    &&& forall|i: int|
        0 <= i < t.datings.len() ==> {
            &&& has_user(t.users, (#[trigger] t.datings[i]).initiator_id)
            &&& has_user(t.users, t.datings[i].partner_id)
            &&& t.datings[i].initiator_id != t.datings[i].partner_id
        }
    &&& forall|i: int, j: int|
        0 <= i < j < t.datings.len() && (#[trigger] t.datings[i]).initiator_reaction.is_none() && (
        #[trigger] t.datings[j]).initiator_reaction.is_none() ==> t.datings[i].initiator_id
            != t.datings[j].initiator_id
    &&& forall|i: int| 0 <= i < t.images.len() ==> has_user(t.users, (#[trigger] t.images[i]).user_id)
}

/// The profile with its last activity set to `now`.
pub open spec fn touched(user: User, now: i64) -> User {
    User { last_activity: now, ..user }
}

/// The users with the last activity of the user `id` set to `now`; the
/// same users where nobody has the id.
pub open spec fn spec_touch(users: Seq<User>, id: i64, now: i64) -> Seq<User> {
    if has_user(users, id) {
        users.update(user_index(users, id), touched(users[user_index(users, id)], now))
    } else {
        users
    }
}

/// The tables after the user `id` was seen at `now`.
pub open spec fn spec_update_last_activity(t: Tables, id: i64, now: i64) -> Tables {
    Tables { users: spec_touch(t.users, id, now), ..t }
}

/// The user with the id, where there is one.
pub open spec fn spec_get_user(t: Tables, id: i64) -> Option<User> {
    if has_user(t.users, id) {
        Some(t.users[user_index(t.users, id)])
    } else {
        None
    }
}

/// The pairing with the id, or the failure to find it.
pub open spec fn spec_get_dating(t: Tables, id: i32) -> Result<Dating, MatchError> {
    if has_dating(t.datings, id) {
        Ok(t.datings[dating_index(t.datings, id)])
    } else {
        Err(MatchError::DatingNotFound)
    }
}

/// The tables after a write of `profile` at `now`, and how the write ends.
/// An existing profile takes the given fields; an unknown id makes a new
/// profile, for which the patch must be complete.
pub open spec fn spec_upsert(t: Tables, profile: EditProfile, now: i64) -> (
    Tables,
    Result<(), MatchError>,
) {
    if has_user(t.users, profile.id) {
        let i = user_index(t.users, profile.id);
        (Tables { users: t.users.update(i, profile.spec_applied_to(t.users[i])), ..t }, Ok(()))
    } else if profile.spec_is_complete() {
        (Tables { users: t.users.push(profile.spec_created(now)), ..t }, Ok(()))
    } else {
        (t, Err(MatchError::IncompleteProfile))
    }
}

/// The pairings with one of them replaced by what `change` makes of it;
/// the same pairings where none has the id.
pub open spec fn spec_change_dating(
    datings: Seq<Dating>,
    id: i32,
    change: spec_fn(Dating) -> Dating,
) -> Seq<Dating> {
    if has_dating(datings, id) {
        datings.update(dating_index(datings, id), change(datings[dating_index(datings, id)]))
    } else {
        datings
    }
}

/// The tables after the initiator of the pairing `id` reacted.
pub open spec fn spec_set_initiator_reaction(t: Tables, id: i32, liked: bool) -> Tables {
    Tables {
        datings: spec_change_dating(
            t.datings,
            id,
            |d: Dating| d.spec_with_initiator_reaction(liked),
        ),
        ..t
    }
}

/// The tables after the partner of the pairing `id` reacted.
pub open spec fn spec_set_partner_reaction(t: Tables, id: i32, liked: bool) -> Tables {
    Tables {
        datings: spec_change_dating(t.datings, id, |d: Dating| d.spec_with_partner_reaction(liked)),
        ..t
    }
}

/// The tables after the message that showed the pairing `id` was noted.
pub open spec fn spec_set_initiator_msg(t: Tables, id: i32, msg: i32) -> Tables {
    Tables {
        datings: spec_change_dating(
            t.datings,
            id,
            |d: Dating| Dating { initiator_msg_id: Some(msg), ..d },
        ),
        ..t
    }
}

/// The pairing that a search of `user_id` at `now` makes with `partner_id`.
pub open spec fn new_dating(datings: Seq<Dating>, user_id: i64, partner_id: i64, now: i64) -> Dating {
    Dating {
        id: next_dating_id(datings) as i32,
        initiator_id: user_id,
        partner_id,
        initiator_msg_id: None,
        time: now,
        initiator_reaction: None,
        partner_reaction: None,
    }
}

/// The tables after a search for a partner of `user_id` at `now` with the
/// draw `pick`, and how the search ends.
///
/// An unknown user ends it at once. Else the user's last activity becomes
/// `now`. A pairing that waits for the user's reaction is returned again.
/// Else the user's filter is built and the candidate that the draw falls on
/// is paired with the user; where the filter admits nobody the search ends
/// with nobody, and that is no failure.
pub open spec fn spec_get_partner(t: Tables, user_id: i64, now: i64, pick: u64) -> (
    Tables,
    Result<MatchOutcome, MatchError>,
) {
    if !has_user(t.users, user_id) {
        (t, Err(MatchError::UserNotFound))
    } else {
        let users = spec_touch(t.users, user_id, now);
        let seen = Tables { users, ..t };
        if has_pending(t.datings, user_id) {
            let dating = t.datings[pending_index(t.datings, user_id)];
            (seen, Ok(MatchOutcome::Found(dating, users[user_index(users, dating.partner_id)])))
        } else {
            match MatchFilter::spec_build(users[user_index(users, user_id)], now) {
                Err(e) => (seen, Err(e)),
                Ok(filter) => match spec_choose(filter, users, t.datings, pick) {
                    None => (seen, Ok(MatchOutcome::NoneAvailable)),
                    Some(chosen) => if next_dating_id(t.datings) > i32::MAX {
                        (seen, Err(MatchError::StoreFull))
                    } else {
                        let dating = new_dating(t.datings, user_id, users[chosen].id, now);
                        (
                            Tables { datings: t.datings.push(dating), ..seen },
                            Ok(MatchOutcome::Found(dating, users[chosen])),
                        )
                    },
                },
            }
        }
    }
}

/// The pictures among `images[..n]` that belong to `user_id`, in order, each
/// by the messenger's name for it and its kind.
pub open spec fn images_of_upto(images: Seq<Image>, user_id: i64, n: int) -> Seq<
    (Seq<char>, ImageKind),
>
    decreases n,
{
    if n <= 0 {
        Seq::empty()
    } else if images[n - 1].user_id == user_id {
        images_of_upto(images, user_id, n - 1).push((images[n - 1].telegram_id@, images[n - 1].kind))
    } else {
        images_of_upto(images, user_id, n - 1)
    }
}

/// The pictures that belong to `user_id`, in the order in which they came.
pub open spec fn spec_get_images(t: Tables, user_id: i64) -> Seq<(Seq<char>, ImageKind)> {
    images_of_upto(t.images, user_id, t.images.len() as int)
}

/// The pictures among `images[..n]` that do not belong to `user_id`.
pub open spec fn images_without_upto(images: Seq<Image>, user_id: i64, n: int) -> Seq<Image>
    decreases n,
{
    if n <= 0 {
        Seq::empty()
    } else if images[n - 1].user_id != user_id {
        images_without_upto(images, user_id, n - 1).push(images[n - 1])
    } else {
        images_without_upto(images, user_id, n - 1)
    }
}

/// The tables after the pictures of `user_id` were thrown away.
pub open spec fn spec_clean_images(t: Tables, user_id: i64) -> Tables {
    Tables { images: images_without_upto(t.images, user_id, t.images.len() as int), ..t }
}

/// The tables after the picture `image` was added, and how that ends: a
/// picture needs a user to belong to.
pub open spec fn spec_create_image(t: Tables, image: Image) -> (Tables, Result<(), MatchError>) {
    if has_user(t.users, image.user_id) {
        (Tables { images: t.images.push(image), ..t }, Ok(()))
    } else {
        (t, Err(MatchError::UserNotFound))
    }
}

/// The place of the user with the id in `users`.
fn find_user(users: &Vec<User>, id: i64) -> (found: Option<usize>)
    ensures
        found.is_some() == has_user(users@, id),
        found.is_some() ==> found.unwrap() < users.len() && users@[found.unwrap() as int].id == id,
{
    let mut i: usize = 0;
    while i < users.len()
        invariant
            i <= users.len(),
            forall|k: int| 0 <= k < i ==> (#[trigger] users@[k]).id != id,
        decreases users.len() - i,
    {
        if users[i].id == id {
            return Some(i);
        }
        i += 1;
    }
    None
}

/// The place of the pairing with the id in `datings`.
fn find_dating(datings: &Vec<Dating>, id: i32) -> (found: Option<usize>)
    ensures
        found.is_some() == has_dating(datings@, id),
        found.is_some() ==> found.unwrap() < datings.len() && datings@[found.unwrap() as int].id
            == id,
{
    let mut i: usize = 0;
    while i < datings.len()
        invariant
            i <= datings.len(),
            forall|k: int| 0 <= k < i ==> (#[trigger] datings@[k]).id != id,
        decreases datings.len() - i,
    {
        if datings[i].id == id {
            return Some(i);
        }
        i += 1;
    }
    None
}

/// The place of the pairing that waits for the reaction of `initiator`.
fn find_pending(datings: &Vec<Dating>, initiator: i64) -> (found: Option<usize>)
    ensures
        found.is_some() == has_pending(datings@, initiator),
        found.is_some() ==> found.unwrap() < datings.len() && is_pending(
            datings@[found.unwrap() as int],
            initiator,
        ),
{
    let mut i: usize = 0;
    while i < datings.len()
        invariant
            i <= datings.len(),
            forall|k: int| 0 <= k < i ==> !is_pending(#[trigger] datings@[k], initiator),
        decreases datings.len() - i,
    {
        if datings[i].initiator_id == initiator && datings[i].initiator_reaction.is_none() {
            return Some(i);
        }
        i += 1;
    }
    None
}

/// In well-formed tables a user's id names its place.
pub proof fn lemma_user_index(t: Tables, id: i64, i: int)
    requires
        well_formed(t),
        0 <= i < t.users.len(),
        t.users[i].id == id,
    ensures
        has_user(t.users, id),
        user_index(t.users, id) == i,
{
    let j = user_index(t.users, id);
    if j < i {
        assert(t.users[j].id != t.users[i].id);
    } else if i < j {
        assert(t.users[i].id != t.users[j].id);
    }
}

/// In well-formed tables a pairing's id names its place.
pub proof fn lemma_dating_index(t: Tables, id: i32, i: int)
    requires
        well_formed(t),
        0 <= i < t.datings.len(),
        t.datings[i].id == id,
    ensures
        has_dating(t.datings, id),
        dating_index(t.datings, id) == i,
{
    let j = dating_index(t.datings, id);
    if j < i {
        assert(t.datings[j].id < t.datings[i].id);
    } else if i < j {
        assert(t.datings[i].id < t.datings[j].id);
    }
}

/// In well-formed tables a user has one waiting pairing at most.
pub proof fn lemma_pending_index(t: Tables, initiator: i64, i: int)
    requires
        well_formed(t),
        0 <= i < t.datings.len(),
        is_pending(t.datings[i], initiator),
    ensures
        has_pending(t.datings, initiator),
        pending_index(t.datings, initiator) == i,
{
    let j = pending_index(t.datings, initiator);
    if j < i {
        assert(t.datings[j].initiator_id != t.datings[i].initiator_id);
    } else if i < j {
        assert(t.datings[i].initiator_id != t.datings[j].initiator_id);
    }
}

/// Replacing a user by one of the same id keeps who is in the store.
pub proof fn lemma_update_keeps_ids(users: Seq<User>, i: int, user: User)
    requires
        0 <= i < users.len(),
        user.id == users[i].id,
    ensures
        forall|id: i64| has_user(users.update(i, user), id) == has_user(users, id),
        forall|k: int| 0 <= k < users.len() ==> (#[trigger] users.update(i, user)[k]).id == users[k].id,
{
    let after = users.update(i, user);
    assert forall|k: int| 0 <= k < users.len() implies (#[trigger] after[k]).id == users[k].id by {}
    assert forall|id: i64| has_user(after, id) == has_user(users, id) by {
        if has_user(after, id) {
            let k = choose|k: int| 0 <= k < after.len() && (#[trigger] after[k]).id == id;
            assert(users[k].id == id);
        }
        if has_user(users, id) {
            let k = choose|k: int| 0 <= k < users.len() && (#[trigger] users[k]).id == id;
            assert(after[k].id == id);
        }
    }
}

/// Whether no two users share an id.
fn distinct_users(users: &Vec<User>) -> (ok: bool)
    ensures
        ok == (forall|i: int, j: int|
            0 <= i < j < users@.len() ==> (#[trigger] users@[i]).id != (#[trigger] users@[j]).id),
{
    let mut j: usize = 0;
    while j < users.len()
        invariant
            j <= users.len(),
            forall|a: int, b: int|
                0 <= a < b < j ==> (#[trigger] users@[a]).id != (#[trigger] users@[b]).id,
        decreases users.len() - j,
    {
        let mut i: usize = 0;
        while i < j
            invariant
                i <= j < users.len(),
                forall|a: int| 0 <= a < i ==> (#[trigger] users@[a]).id != users@[j as int].id,
            decreases j - i,
        {
            if users[i].id == users[j].id {
                return false;
            }
            i += 1;
        }
        j += 1;
    }
    true
}

/// Whether the ids of the pairings rise.
fn rising_datings(datings: &Vec<Dating>) -> (ok: bool)
    ensures
        ok == (forall|i: int, j: int|
            0 <= i < j < datings@.len() ==> (#[trigger] datings@[i]).id < (#[trigger] datings@[j]).id),
{
    let mut j: usize = 1;
    while j < datings.len()
        invariant
            1 <= j,
            forall|a: int, b: int|
                0 <= a < b < j && b < datings@.len() ==> (#[trigger] datings@[a]).id < (
                #[trigger] datings@[b]).id,
        decreases datings.len() - j,
    {
        if datings[j - 1].id >= datings[j].id {
            return false;
        }
        assert forall|a: int, b: int| 0 <= a < b < j + 1 && b < datings@.len() implies (
        #[trigger] datings@[a]).id < (#[trigger] datings@[b]).id by {
            if b == j {
                if a < j - 1 {
                    assert(datings@[a].id < datings@[j - 1].id);
                }
            }
        }
        j += 1;
    }
    true
}

/// Whether every pairing joins two different users of `users`.
fn datings_join_users(users: &Vec<User>, datings: &Vec<Dating>) -> (ok: bool)
    ensures
        ok == (forall|i: int|
            0 <= i < datings@.len() ==> {
                &&& has_user(users@, (#[trigger] datings@[i]).initiator_id)
                &&& has_user(users@, datings@[i].partner_id)
                &&& datings@[i].initiator_id != datings@[i].partner_id
            }),
{
    let mut i: usize = 0;
    while i < datings.len()
        invariant
            i <= datings.len(),
            forall|k: int|
                0 <= k < i ==> {
                    &&& has_user(users@, (#[trigger] datings@[k]).initiator_id)
                    &&& has_user(users@, datings@[k].partner_id)
                    &&& datings@[k].initiator_id != datings@[k].partner_id
                },
        decreases datings.len() - i,
    {
        let dating = &datings[i];
        if dating.initiator_id == dating.partner_id || find_user(users, dating.initiator_id).is_none()
            || find_user(users, dating.partner_id).is_none() {
            return false;
        }
        i += 1;
    }
    true
}

/// Whether no user has two pairings waiting for their reaction.
fn one_pending_each(datings: &Vec<Dating>) -> (ok: bool)
    ensures
        ok == (forall|i: int, j: int|
            0 <= i < j < datings@.len() && (#[trigger] datings@[i]).initiator_reaction.is_none() && (
            #[trigger] datings@[j]).initiator_reaction.is_none() ==> datings@[i].initiator_id
                != datings@[j].initiator_id),
{
    let mut j: usize = 0;
    while j < datings.len()
        invariant
            j <= datings.len(),
            forall|a: int, b: int|
                0 <= a < b < j && (#[trigger] datings@[a]).initiator_reaction.is_none() && (
                #[trigger] datings@[b]).initiator_reaction.is_none() ==> datings@[a].initiator_id
                    != datings@[b].initiator_id,
        decreases datings.len() - j,
    {
        if datings[j].initiator_reaction.is_none() {
            let mut i: usize = 0;
            while i < j
                invariant
                    i <= j < datings.len(),
                    datings@[j as int].initiator_reaction.is_none(),
                    forall|a: int|
                        0 <= a < i && (#[trigger] datings@[a]).initiator_reaction.is_none()
                            ==> datings@[a].initiator_id != datings@[j as int].initiator_id,
                decreases j - i,
            {
                if datings[i].initiator_reaction.is_none() && datings[i].initiator_id
                    == datings[j].initiator_id {
                    return false;
                }
                i += 1;
            }
        }
        j += 1;
    }
    true
}

/// Whether every picture belongs to a user of `users`.
fn images_have_users(users: &Vec<User>, images: &Vec<Image>) -> (ok: bool)
    ensures
        ok == (forall|i: int|
            0 <= i < images@.len() ==> has_user(users@, (#[trigger] images@[i]).user_id)),
{
    let mut i: usize = 0;
    while i < images.len()
        invariant
            i <= images.len(),
            forall|k: int| 0 <= k < i ==> has_user(users@, (#[trigger] images@[k]).user_id),
        decreases images.len() - i,
    {
        if find_user(users, images[i].user_id).is_none() {
            return false;
        }
        i += 1;
    }
    true
}

/// The store: profiles, pairings and pictures. Its tables are well formed
/// from `new` on: every method asks for that and keeps it.
pub struct Database {
    users: Vec<User>,
    datings: Vec<Dating>,
    images: Vec<Image>,
}

impl View for Database {
    type V = Tables;

    /// The three tables.
    closed spec fn view(&self) -> Tables {
        Tables { users: self.users@, datings: self.datings@, images: self.images@ }
    }
}

impl Database {
    /// An empty store.
    pub fn new() -> (db: Database)
        ensures
            db@.users.len() == 0,
            db@.datings.len() == 0,
            db@.images.len() == 0,
            well_formed(db@),
    {
        Database { users: Vec::new(), datings: Vec::new(), images: Vec::new() }
    }

    /// A store that holds the given rows; nothing where the rows are not
    /// well formed.
    pub fn from_tables(users: Vec<User>, datings: Vec<Dating>, images: Vec<Image>) -> (db: Option<
        Database,
    >)
        ensures
            db.is_some() == well_formed(Tables { users: users@, datings: datings@, images: images@ }),
            db.is_some() ==> db.unwrap()@ == (Tables {
                users: users@,
                datings: datings@,
                images: images@,
            }),
    {
        if distinct_users(&users) && rising_datings(&datings) && datings_join_users(
            &users,
            &datings,
        ) && one_pending_each(&datings) && images_have_users(&users, &images) {
            Some(Database { users, datings, images })
        } else {
            None
        }
    }

    /// The profile of the user `id`, where there is one.
    pub fn get_user(&self, id: i64) -> (user: Option<User>)
        requires
            well_formed(self@),
        ensures
            user == spec_get_user(self@, id),
    {
        match find_user(&self.users, id) {
            Some(i) => {
                proof {
                    lemma_user_index(self@, id, i as int);
                }
                Some(self.users[i].clone())
            },
            None => None,
        }
    }

    /// Sets the last activity of the user `id` to `now`. Nothing happens
    /// where nobody has the id.
    pub fn update_last_activity_at(&mut self, id: i64, now: i64)
        requires
            well_formed(old(self)@),
        ensures
            final(self)@ == spec_update_last_activity(old(self)@, id, now),
            well_formed(final(self)@),
    {
        match find_user(&self.users, id) {
            Some(i) => {
                proof {
                    lemma_user_index(self@, id, i as int);
                    lemma_update_keeps_ids(self@.users, i as int, touched(self@.users[i as int], now));
                }
                let mut user = self.users[i].clone();
                user.last_activity = now;
                self.users.set(i, user);
            },
            None => {},
        }
    }

    /// Sets the last activity of the user `id` to the present moment,
    /// whichever the clock gives.
    pub fn update_last_activity(&mut self, id: i64)
        requires
            well_formed(old(self)@),
        ensures
            exists|now: i64| final(self)@ == #[trigger] spec_update_last_activity(old(self)@, id, now),
            well_formed(final(self)@),
    {
        let now = unix_seconds();
        self.update_last_activity_at(id, now);
    }

    /// The pairing `id`.
    pub fn get_dating(&self, id: i32) -> (dating: Result<Dating, MatchError>)
        requires
            well_formed(self@),
        ensures
            dating == spec_get_dating(self@, id),
    {
        match find_dating(&self.datings, id) {
            Some(i) => {
                proof {
                    lemma_dating_index(self@, id, i as int);
                }
                Ok(self.datings[i])
            },
            None => Err(MatchError::DatingNotFound),
        }
    }

    /// Writes `profile` at `now`: an existing profile takes the given
    /// fields, an unknown id makes a new profile, for which the patch must
    /// be complete.
    pub fn create_or_update_user_at(&mut self, profile: EditProfile, now: i64) -> (done: Result<
        (),
        MatchError,
    >)
        requires
            well_formed(old(self)@),
        ensures
            final(self)@ == spec_upsert(old(self)@, profile, now).0,
            done == spec_upsert(old(self)@, profile, now).1,
            well_formed(final(self)@),
    {
        match find_user(&self.users, profile.id) {
            Some(i) => {
                proof {
                    lemma_user_index(self@, profile.id, i as int);
                    lemma_update_keeps_ids(
                        self@.users,
                        i as int,
                        profile.spec_applied_to(self@.users[i as int]),
                    );
                }
                let patched = profile.applied_to(&self.users[i]);
                self.users.set(i, patched);
                Ok(())
            },
            None => {
                match profile.created(now) {
                    Some(user) => {
                        let ghost before = self@;
                        self.users.push(user);
                        proof {
                            assert forall|k: int| 0 <= k < before.datings.len() implies has_user(
                                self@.users,
                                (#[trigger] self@.datings[k]).initiator_id,
                            ) && has_user(self@.users, self@.datings[k].partner_id) by {
                                lemma_push_keeps_users(before.users, user, before.datings[k].initiator_id);
                                lemma_push_keeps_users(before.users, user, before.datings[k].partner_id);
                            }
                            assert forall|k: int| 0 <= k < before.images.len() implies has_user(
                                self@.users,
                                (#[trigger] self@.images[k]).user_id,
                            ) by {
                                lemma_push_keeps_users(before.users, user, before.images[k].user_id);
                            }
                        }
                        Ok(())
                    },
                    None => Err(MatchError::IncompleteProfile),
                }
            },
        }
    }

    /// Writes `profile` at the present moment, whichever the clock gives.
    pub fn create_or_update_user(&mut self, profile: EditProfile) -> (done: Result<(), MatchError>)
        requires
            well_formed(old(self)@),
        ensures
            exists|now: i64|
                (final(self)@, done) == #[trigger] spec_upsert(old(self)@, profile, now),
            well_formed(final(self)@),
    {
        let now = unix_seconds();
        let ghost before = self@;
        let done = self.create_or_update_user_at(profile, now);
        assert((self@, done) == spec_upsert(before, profile, now));
        done
    }

    /// Stores the initiator's reaction to the pairing `dating`; an earlier
    /// reaction is overwritten. Nothing happens where no pairing has the id.
    pub fn set_dating_initiator_reaction(&mut self, dating: i32, reaction: bool)
        requires
            well_formed(old(self)@),
        ensures
            final(self)@ == spec_set_initiator_reaction(old(self)@, dating, reaction),
            well_formed(final(self)@),
    {
        match find_dating(&self.datings, dating) {
            Some(i) => {
                proof {
                    lemma_dating_index(self@, dating, i as int);
                }
                let changed = self.datings[i].with_initiator_reaction(reaction);
                self.datings.set(i, changed);
            },
            None => {},
        }
    }

    /// Stores the partner's reaction to the pairing `dating`; an earlier
    /// reaction is overwritten, and the initiator's reaction is not asked
    /// for. Nothing happens where no pairing has the id.
    pub fn set_dating_partner_reaction(&mut self, dating: i32, reaction: bool)
        requires
            well_formed(old(self)@),
        ensures
            final(self)@ == spec_set_partner_reaction(old(self)@, dating, reaction),
            well_formed(final(self)@),
    {
        match find_dating(&self.datings, dating) {
            Some(i) => {
                proof {
                    lemma_dating_index(self@, dating, i as int);
                }
                let changed = self.datings[i].with_partner_reaction(reaction);
                self.datings.set(i, changed);
            },
            None => {},
        }
    }

    /// Notes the message under which the pairing `dating` was shown to its
    /// initiator. Nothing happens where no pairing has the id.
    pub fn set_dating_initiator_msg(&mut self, dating: i32, msg: i32)
        requires
            well_formed(old(self)@),
        ensures
            final(self)@ == spec_set_initiator_msg(old(self)@, dating, msg),
            well_formed(final(self)@),
    {
        match find_dating(&self.datings, dating) {
            Some(i) => {
                proof {
                    lemma_dating_index(self@, dating, i as int);
                }
                let old_row = self.datings[i];
                let changed = Dating { initiator_msg_id: Some(msg), ..old_row };
                self.datings.set(i, changed);
            },
            None => {},
        }
    }

    /// The pictures of the user `user_id`, in the order in which they came.
    pub fn get_images(&self, user_id: i64) -> (images: Vec<(String, ImageKind)>)
        requires
            well_formed(self@),
        ensures
            images@.len() == spec_get_images(self@, user_id).len(),
            forall|k: int|
                0 <= k < images@.len() ==> (#[trigger] images@[k]).0@ == spec_get_images(
                    self@,
                    user_id,
                )[k].0 && images@[k].1 == spec_get_images(self@, user_id)[k].1,
    {
        let mut images: Vec<(String, ImageKind)> = Vec::new();
        let mut i: usize = 0;
        while i < self.images.len()
            invariant
                i <= self.images.len(),
                images@.len() == images_of_upto(self@.images, user_id, i as int).len(),
                forall|k: int|
                    0 <= k < images@.len() ==> (#[trigger] images@[k]).0@ == images_of_upto(
                        self@.images,
                        user_id,
                        i as int,
                    )[k].0 && images@[k].1 == images_of_upto(self@.images, user_id, i as int)[k].1,
            decreases self.images.len() - i,
        {
            if self.images[i].user_id == user_id {
                images.push((self.images[i].telegram_id.clone(), self.images[i].kind));
            }
            i += 1;
        }
        images
    }

    /// Adds a picture for the user `user_id`.
    pub fn create_image(&mut self, user_id: i64, tg_id: String, kind: ImageKind) -> (done: Result<
        (),
        MatchError,
    >)
        requires
            well_formed(old(self)@),
        ensures
            final(self)@ == spec_create_image(
                old(self)@,
                Image { user_id, telegram_id: tg_id, kind },
            ).0,
            done == spec_create_image(old(self)@, Image { user_id, telegram_id: tg_id, kind }).1,
            well_formed(final(self)@),
    {
        match find_user(&self.users, user_id) {
            Some(_) => {
                self.images.push(Image { user_id, telegram_id: tg_id, kind });
                Ok(())
            },
            None => Err(MatchError::UserNotFound),
        }
    }

    /// Throws away the pictures of the user `user_id`.
    pub fn clean_images(&mut self, user_id: i64)
        requires
            well_formed(old(self)@),
        ensures
            final(self)@ == spec_clean_images(old(self)@, user_id),
            well_formed(final(self)@),
    {
        let mut kept: Vec<Image> = Vec::new();
        let mut i: usize = 0;
        while i < self.images.len()
            invariant
                i <= self.images.len(),
                *self == *old(self),
                well_formed(self@),
                kept@ == images_without_upto(self@.images, user_id, i as int),
                forall|k: int| 0 <= k < kept@.len() ==> has_user(self@.users, (#[trigger] kept@[k]).user_id),
            decreases self.images.len() - i,
        {
            if self.images[i].user_id != user_id {
                kept.push(
                    Image {
                        user_id: self.images[i].user_id,
                        telegram_id: self.images[i].telegram_id.clone(),
                        kind: self.images[i].kind,
                    },
                );
            }
            i += 1;
        }
        self.images = kept;
    }

    /// Finds the next partner for the user `user_id` at `now`, with the
    /// draw `pick` to choose among the candidates.
    pub fn get_partner_at(&mut self, user_id: i64, now: i64, pick: u64) -> (outcome: Result<
        MatchOutcome,
        MatchError,
    >)
        requires
            well_formed(old(self)@),
        ensures
            final(self)@ == spec_get_partner(old(self)@, user_id, now, pick).0,
            outcome == spec_get_partner(old(self)@, user_id, now, pick).1,
            well_formed(final(self)@),
    {
        let ghost before = self@;
        let i = match find_user(&self.users, user_id) {
            Some(i) => i,
            None => {
                return Err(MatchError::UserNotFound);
            },
        };
        self.update_last_activity_at(user_id, now);
        let ghost users = spec_touch(before.users, user_id, now);
        proof {
            lemma_user_index(before, user_id, i as int);
            lemma_update_keeps_ids(before.users, i as int, touched(before.users[i as int], now));
            lemma_user_index(self@, user_id, i as int);
        }
        let pending = match find_pending(&self.datings, user_id) {
            Some(p) => {
                proof {
                    lemma_pending_index(before, user_id, p as int);
                }
                Some(self.datings[p])
            },
            None => None,
        };
        match decide(&self.users[i], pending, &self.users, &self.datings, now, pick) {
            Err(e) => Err(e),
            Ok(Decision::Nobody) => Ok(MatchOutcome::NoneAvailable),
            Ok(Decision::Again(dating)) => {
                match find_user(&self.users, dating.partner_id) {
                    Some(j) => {
                        proof {
                            lemma_user_index(self@, dating.partner_id, j as int);
                        }
                        Ok(MatchOutcome::Found(dating, self.users[j].clone()))
                    },
                    None => {
                        proof {
                            assert(has_user(
                                before.users,
                                before.datings[pending_index(before.datings, user_id)].partner_id,
                            ));
                        }
                        Err(MatchError::UserNotFound)
                    },
                }
            },
            Ok(Decision::Pair(chosen)) => {
                let ghost filter = MatchFilter::of(self@.users[i as int], now);
                let id: i32 = if self.datings.len() == 0 {
                    1
                } else {
                    let last = self.datings[self.datings.len() - 1].id;
                    if last == i32::MAX {
                        return Err(MatchError::StoreFull);
                    }
                    last + 1
                };
                let partner = self.users[chosen].clone();
                let dating = Dating::created(id, user_id, partner.id, now);
                self.datings.push(dating);
                proof {
                    assert(filter.self_exclusion(partner));
                    assert(has_user(self@.users, partner.id));
                    assert forall|a: int, b: int|
                        0 <= a < b < self@.datings.len() implies (#[trigger] self@.datings[a]).id < (
                    #[trigger] self@.datings[b]).id by {
                        if b == self@.datings.len() - 1 {
                            if a < b - 1 {
                                assert(before.datings[a].id < before.datings[b - 1].id);
                            }
                        }
                    }
                    assert forall|a: int, b: int|
                        0 <= a < b < self@.datings.len() && (
                        #[trigger] self@.datings[a]).initiator_reaction.is_none() && (
                        #[trigger] self@.datings[b]).initiator_reaction.is_none() implies self@.datings[a].initiator_id
                        != self@.datings[b].initiator_id by {
                        if b == self@.datings.len() - 1 {
                            if self@.datings[a].initiator_id == user_id {
                                assert(is_pending(before.datings[a], user_id));
                            }
                        }
                    }
                }
                Ok(MatchOutcome::Found(dating, partner))
            },
        }
    }

    /// Finds the next partner for the user `user_id` at the present moment,
    /// whichever the clock gives, with the draw `pick`.
    pub fn get_partner(&mut self, user_id: i64, pick: u64) -> (outcome: Result<
        MatchOutcome,
        MatchError,
    >)
        requires
            well_formed(old(self)@),
        ensures
            exists|now: i64|
                (final(self)@, outcome) == #[trigger] spec_get_partner(old(self)@, user_id, now, pick),
            well_formed(final(self)@),
    {
        let now = unix_seconds();
        let ghost before = self@;
        let outcome = self.get_partner_at(user_id, now, pick);
        assert((self@, outcome) == spec_get_partner(before, user_id, now, pick));
        outcome
    }
}

/// A new user leaves everybody who was in the store in it.
pub proof fn lemma_push_keeps_users(users: Seq<User>, user: User, id: i64)
    requires
        has_user(users, id),
    ensures
        has_user(users.push(user), id),
{
    let k = choose|k: int| 0 <= k < users.len() && (#[trigger] users[k]).id == id;
    assert(users.push(user)[k].id == id);
}

/// Seeing a user changes that user's last activity and nothing else: who
/// is in the store, where, and every other profile stay.
pub proof fn lemma_touch(t: Tables, id: i64, now: i64)
    requires
        well_formed(t),
    ensures
        well_formed(spec_update_last_activity(t, id, now)),
        spec_touch(t.users, id, now).len() == t.users.len(),
        forall|other: i64| has_user(spec_touch(t.users, id, now), other) == has_user(t.users, other),
        forall|other: i64|
            has_user(t.users, other) ==> user_index(spec_touch(t.users, id, now), other)
                == user_index(t.users, other),
        forall|k: int|
            0 <= k < t.users.len() ==> (#[trigger] spec_touch(t.users, id, now)[k]) == (if t.users[k].id
                == id {
                touched(t.users[k], now)
            } else {
                t.users[k]
            }),
{
    let after = spec_touch(t.users, id, now);
    if has_user(t.users, id) {
        let i = user_index(t.users, id);
        lemma_update_keeps_ids(t.users, i, touched(t.users[i], now));
        assert forall|k: int| 0 <= k < t.users.len() implies (#[trigger] after[k]) == (if t.users[k].id
            == id {
            touched(t.users[k], now)
        } else {
            t.users[k]
        }) by {
            if t.users[k].id == id {
                lemma_user_index(t, id, k);
            }
        }
    }
    let seen = spec_update_last_activity(t, id, now);
    assert(well_formed(seen));
    assert forall|other: i64| has_user(t.users, other) implies user_index(after, other) == user_index(
        t.users,
        other,
    ) by {
        let k = user_index(t.users, other);
        assert(after[k].id == other);
        lemma_user_index(seen, other, k);
    }
}

/// A search leaves the tables well formed.
pub proof fn lemma_get_partner_keeps_well_formed(t: Tables, user_id: i64, now: i64, pick: u64)
    requires
        well_formed(t),
    ensures
        well_formed(spec_get_partner(t, user_id, now, pick).0),
{
    if has_user(t.users, user_id) {
        lemma_touch(t, user_id, now);
        let users = spec_touch(t.users, user_id, now);
        let seen = Tables { users, ..t };
        assert(seen == spec_update_last_activity(t, user_id, now));
        if !has_pending(t.datings, user_id) {
            let requester = users[user_index(users, user_id)];
            match MatchFilter::spec_build(requester, now) {
                Err(_) => {},
                Ok(filter) => {
                    lemma_choice_is_admitted(filter, users, t.datings, pick);
                    match spec_choose(filter, users, t.datings, pick) {
                        None => {},
                        Some(chosen) => {
                            if next_dating_id(t.datings) <= i32::MAX {
                                let dating = new_dating(t.datings, user_id, users[chosen].id, now);
                                let after = Tables { datings: t.datings.push(dating), ..seen };
                                assert(filter.self_exclusion(users[chosen]));
                                assert(has_user(users, users[chosen].id));
                                assert forall|a: int, b: int|
                                    0 <= a < b < after.datings.len() implies (
                                #[trigger] after.datings[a]).id < (#[trigger] after.datings[b]).id by {
                                    if b == after.datings.len() - 1 {
                                        if a < b - 1 {
                                            assert(t.datings[a].id < t.datings[b - 1].id);
                                        }
                                    }
                                }
                                assert forall|a: int, b: int|
                                    0 <= a < b < after.datings.len() && (
                                    #[trigger] after.datings[a]).initiator_reaction.is_none() && (
                                    #[trigger] after.datings[b]).initiator_reaction.is_none() implies after.datings[a].initiator_id
                                    != after.datings[b].initiator_id by {
                                    if b == after.datings.len() - 1 {
                                        if after.datings[a].initiator_id == user_id {
                                            assert(is_pending(t.datings[a], user_id));
                                        }
                                    }
                                }
                                assert(well_formed(after));
                            }
                        },
                    }
                },
            }
        }
    }
}

/// A pairing that a search returned is returned again by the user's next
/// search, with the same partner, as long as the user has not reacted: at
/// whatever moment and with whatever draw the next search is made, and no
/// further pairing is made by it.
pub proof fn lemma_pending_pairing_is_returned_again(
    t: Tables,
    user_id: i64,
    now: i64,
    pick: u64,
    later: i64,
    other_pick: u64,
)
    requires
        well_formed(t),
        spec_get_partner(t, user_id, now, pick).1 is Ok,
        spec_get_partner(t, user_id, now, pick).1->Ok_0 is Found,
    ensures
        spec_get_partner(spec_get_partner(t, user_id, now, pick).0, user_id, later, other_pick).1
            == spec_get_partner(t, user_id, now, pick).1,
        spec_get_partner(
            spec_get_partner(t, user_id, now, pick).0,
            user_id,
            later,
            other_pick,
        ).0.datings == spec_get_partner(t, user_id, now, pick).0.datings,
{
    let first = spec_get_partner(t, user_id, now, pick);
    let mid = first.0;
    lemma_get_partner_keeps_well_formed(t, user_id, now, pick);
    lemma_touch(t, user_id, now);
    lemma_touch(mid, user_id, later);
    let users = spec_touch(t.users, user_id, now);
    assert(mid.users == users);
    let again = spec_touch(mid.users, user_id, later);
    let (dating, partner) = match first.1->Ok_0 {
        MatchOutcome::Found(dating, partner) => (dating, partner),
        MatchOutcome::NoneAvailable => arbitrary(),
    };
    if has_pending(t.datings, user_id) {
        let p = pending_index(t.datings, user_id);
        assert(mid.datings == t.datings);
        assert(dating == t.datings[p]);
    } else {
        let filter = MatchFilter::spec_build(users[user_index(users, user_id)], now)->Ok_0;
        lemma_choice_is_admitted(filter, users, t.datings, pick);
        let chosen = spec_choose(filter, users, t.datings, pick).unwrap();
        assert(mid.datings == t.datings.push(dating));
        assert(mid.datings[t.datings.len() as int] == dating);
        assert(is_pending(dating, user_id));
        lemma_pending_index(mid, user_id, t.datings.len() as int);
        assert(partner == users[chosen]);
        lemma_user_index(mid, users[chosen].id, chosen);
    }
    assert(has_pending(mid.datings, user_id));
    assert(mid.datings[pending_index(mid.datings, user_id)] == dating);
    assert(dating.partner_id != user_id);
    assert(has_user(mid.users, dating.partner_id));
    let j = user_index(mid.users, dating.partner_id);
    assert(mid.users[j].id == dating.partner_id);
    assert(again[j] == mid.users[j]);
    assert(user_index(again, dating.partner_id) == j);
    assert(partner == mid.users[j]);
}

/// A search ends with nobody, and without a failure, exactly when the user
/// is known, has no pairing waiting, has a filter that can be built, and
/// that filter admits no user of the store. No pairing is made then.
pub proof fn lemma_nobody_available(t: Tables, user_id: i64, now: i64, pick: u64)
    requires
        well_formed(t),
    ensures
        spec_get_partner(t, user_id, now, pick).1 == Ok::<MatchOutcome, MatchError>(
            MatchOutcome::NoneAvailable,
        ) <==> {
            &&& has_user(t.users, user_id)
            &&& !has_pending(t.datings, user_id)
            &&& MatchFilter::spec_build(t.users[user_index(t.users, user_id)], now) is Ok
            &&& forall|i: int|
                0 <= i < t.users.len() ==> !MatchFilter::of(
                    t.users[user_index(t.users, user_id)],
                    now,
                ).spec_admits(#[trigger] spec_touch(t.users, user_id, now)[i], t.datings)
        },
        spec_get_partner(t, user_id, now, pick).1 == Ok::<MatchOutcome, MatchError>(
            MatchOutcome::NoneAvailable,
        ) ==> spec_get_partner(t, user_id, now, pick).0.datings == t.datings,
{
    if has_user(t.users, user_id) {
        lemma_touch(t, user_id, now);
        let users = spec_touch(t.users, user_id, now);
        let i = user_index(t.users, user_id);
        assert(users[i] == touched(t.users[i], now));
        assert(MatchFilter::spec_build(users[i], now) == MatchFilter::spec_build(t.users[i], now));
        if !has_pending(t.datings, user_id) {
            match MatchFilter::spec_build(users[i], now) {
                Err(_) => {},
                Ok(filter) => {
                    assert(filter == MatchFilter::of(t.users[i], now));
                    lemma_choice_is_admitted(filter, users, t.datings, pick);
                },
            }
        }
    }
}

/// Whoever a search newly pairs with the user is a user of the store whom
/// the user's filter admits on all twelve parts; the pairing is fresh,
/// carries the next id, and is the only change to the pairings.
pub proof fn lemma_found_is_admitted(t: Tables, user_id: i64, now: i64, pick: u64)
    requires
        well_formed(t),
        !has_pending(t.datings, user_id),
        spec_get_partner(t, user_id, now, pick).1 is Ok,
        spec_get_partner(t, user_id, now, pick).1->Ok_0 is Found,
    ensures
        ({
            let found = spec_get_partner(t, user_id, now, pick).1->Ok_0;
            let filter = MatchFilter::of(t.users[user_index(t.users, user_id)], now);
            &&& has_user(t.users, found->Found_1.id)
            &&& filter.spec_admits(found->Found_1, t.datings)
            &&& found->Found_0 == new_dating(t.datings, user_id, found->Found_1.id, now)
            &&& spec_get_partner(t, user_id, now, pick).0.datings == t.datings.push(found->Found_0)
        }),
{
    lemma_touch(t, user_id, now);
    let users = spec_touch(t.users, user_id, now);
    let i = user_index(t.users, user_id);
    assert(users[i] == touched(t.users[i], now));
    let filter = MatchFilter::spec_build(users[i], now)->Ok_0;
    assert(filter == MatchFilter::of(t.users[i], now));
    lemma_choice_is_admitted(filter, users, t.datings, pick);
    let chosen = spec_choose(filter, users, t.datings, pick).unwrap();
    assert(users[chosen].id == t.users[chosen].id);
}

/// The two reactions are stored side by side: after the initiator's and
/// then the partner's, the pairing holds both, and stands where the two
/// put it.
pub proof fn lemma_reactions_are_stored(t: Tables, id: i32, initiator: bool, partner: bool)
    requires
        well_formed(t),
        has_dating(t.datings, id),
    ensures
        spec_get_dating(spec_set_initiator_reaction(t, id, initiator), id) == Ok::<
            Dating,
            MatchError,
        >(spec_get_dating(t, id)->Ok_0.spec_with_initiator_reaction(initiator)),
        spec_get_dating(
            spec_set_partner_reaction(spec_set_initiator_reaction(t, id, initiator), id, partner),
            id,
        ) == Ok::<Dating, MatchError>(
            spec_get_dating(t, id)->Ok_0.spec_with_initiator_reaction(
                initiator,
            ).spec_with_partner_reaction(partner),
        ),
{
    let i = dating_index(t.datings, id);
    let one = spec_set_initiator_reaction(t, id, initiator);
    assert(one.datings[i].id == id);
    lemma_change_keeps_well_formed(t, id, |d: Dating| d.spec_with_initiator_reaction(initiator));
    lemma_dating_index(one, id, i);
    let two = spec_set_partner_reaction(one, id, partner);
    assert(two.datings[i].id == id);
    lemma_change_keeps_well_formed(one, id, |d: Dating| d.spec_with_partner_reaction(partner));
    lemma_dating_index(two, id, i);
}

/// A change to one pairing that keeps its id and its two users, and does
/// not take a reaction of the initiator back, keeps the tables well formed.
pub proof fn lemma_change_keeps_well_formed(t: Tables, id: i32, change: spec_fn(Dating) -> Dating)
    requires
        well_formed(t),
        forall|d: Dating|
            {
                &&& (#[trigger] change(d)).id == d.id
                &&& change(d).initiator_id == d.initiator_id
                &&& change(d).partner_id == d.partner_id
                &&& d.initiator_reaction.is_some() ==> change(d).initiator_reaction.is_some()
            },
    ensures
        well_formed(Tables { datings: spec_change_dating(t.datings, id, change), ..t }),
{
    let after = Tables { datings: spec_change_dating(t.datings, id, change), ..t };
    if has_dating(t.datings, id) {
        let i = dating_index(t.datings, id);
        assert forall|k: int| 0 <= k < t.datings.len() implies {
            &&& (#[trigger] after.datings[k]).id == t.datings[k].id
            &&& after.datings[k].initiator_id == t.datings[k].initiator_id
            &&& after.datings[k].partner_id == t.datings[k].partner_id
            &&& t.datings[k].initiator_reaction.is_some()
                ==> after.datings[k].initiator_reaction.is_some()
        } by {
            if k == i {
                assert(after.datings[k] == change(t.datings[k]));
            }
        }
        assert forall|a: int, b: int| 0 <= a < b < after.datings.len() implies (
        #[trigger] after.datings[a]).id < (#[trigger] after.datings[b]).id by {
            assert(t.datings[a].id < t.datings[b].id);
        }
        assert forall|a: int, b: int|
            0 <= a < b < after.datings.len() && (
            #[trigger] after.datings[a]).initiator_reaction.is_none() && (
            #[trigger] after.datings[b]).initiator_reaction.is_none() implies after.datings[a].initiator_id
            != after.datings[b].initiator_id by {
            assert(t.datings[a].initiator_id != t.datings[b].initiator_id);
        }
        assert forall|k: int| 0 <= k < after.datings.len() implies {
            &&& has_user(after.users, (#[trigger] after.datings[k]).initiator_id)
            &&& has_user(after.users, after.datings[k].partner_id)
            &&& after.datings[k].initiator_id != after.datings[k].partner_id
        } by {
            assert(has_user(t.users, t.datings[k].initiator_id));
        }
    }
}

/// A user who asks for no subject is kept from nobody by what they study.
/// Take a user without a waiting pairing whose filter can be built, in a
/// store that can take another pairing, and a stored user who would be
/// admitted if they studied `bits`: that user is admitted as they are, the
/// search ends with a pairing, and where nobody else is admitted it is a
/// pairing with that user.
pub proof fn lemma_empty_subject_filter_finds(
    t: Tables,
    user_id: i64,
    now: i64,
    pick: u64,
    i: int,
    bits: i32,
)
    requires
        well_formed(t),
        has_user(t.users, user_id),
        !has_pending(t.datings, user_id),
        t.users[user_index(t.users, user_id)].subjects_filter == 0,
        MatchFilter::spec_build(t.users[user_index(t.users, user_id)], now) is Ok,
        next_dating_id(t.datings) <= i32::MAX,
        0 <= i < t.users.len(),
        MatchFilter::of(t.users[user_index(t.users, user_id)], now).spec_admits(
            User { subjects: bits, ..t.users[i] },
            t.datings,
        ),
    ensures
        MatchFilter::of(t.users[user_index(t.users, user_id)], now).spec_admits(
            t.users[i],
            t.datings,
        ),
        spec_get_partner(t, user_id, now, pick).1 is Ok,
        spec_get_partner(t, user_id, now, pick).1->Ok_0 is Found,
        (forall|j: int|
            0 <= j < t.users.len() && j != i ==> !MatchFilter::of(
                t.users[user_index(t.users, user_id)],
                now,
            ).spec_admits(#[trigger] t.users[j], t.datings)) ==> spec_get_partner(
            t,
            user_id,
            now,
            pick,
        ).1->Ok_0->Found_1 == t.users[i],
{
    let r = user_index(t.users, user_id);
    let filter = MatchFilter::of(t.users[r], now);
    lemma_subjects_do_not_matter(filter, t.users[i], t.datings, bits);
    lemma_touch(t, user_id, now);
    let users = spec_touch(t.users, user_id, now);
    assert(users[r] == touched(t.users[r], now));
    assert(MatchFilter::spec_build(users[r], now) == Ok::<MatchFilter, MatchError>(filter));
    assert(filter.self_exclusion(t.users[i]));
    assert(users[i] == t.users[i]);
    lemma_choice_is_admitted(filter, users, t.datings, pick);
    assert(filter.spec_admits(users[i], t.datings));
    let chosen = spec_choose(filter, users, t.datings, pick).unwrap();
    if forall|j: int|
        0 <= j < t.users.len() && j != i ==> !filter.spec_admits(#[trigger] t.users[j], t.datings) {
        if chosen != i {
            assert(filter.self_exclusion(users[chosen]));
            assert(users[chosen] == t.users[chosen]);
            assert(!filter.spec_admits(t.users[chosen], t.datings));
        }
    }
}

} // verus!
