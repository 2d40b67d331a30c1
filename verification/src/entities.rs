//! The rows of the two tables, as plain values.

use vstd::prelude::*;

verus! {

/// Gender of a user, as it is stored.
#[derive(Clone, Copy, Debug, PartialEq, Eq, Structural)]
pub enum Gender {
    Female,
    Male,
}

/// What a stored picture is.
#[derive(Clone, Copy, Debug, PartialEq, Eq, Structural)]
pub enum ImageKind {
    Image,
    Video,
}

/// How far from their own city a user is willing to look, as it is stored.
#[derive(Clone, Copy, Debug, PartialEq, Eq, Structural)]
pub enum LocationFilter {
    SameCity,
    SameCountry,
    SameCounty,
    SameSubject,
}

/// One profile. `last_activity` counts seconds; `city` is a location code.
#[derive(Debug, PartialEq, Eq)]
pub struct User {
    pub id: i64,
    pub name: String,
    pub gender: Gender,
    pub gender_filter: Option<Gender>,
    pub about: String,
    pub active: bool,
    pub last_activity: i64,
    pub graduation_year: i16,
    pub grade_up_filter: i16,
    pub grade_down_filter: i16,
    pub subjects: i32,
    pub subjects_filter: i32,
    pub dating_purpose: i16,
    pub city: Option<i32>,
    pub location_filter: LocationFilter,
}

impl Clone for User {
    /// A copy of the row, field for field.
    fn clone(&self) -> (copy: User)
        ensures
            copy == *self,
    {
        User {
            id: self.id,
            name: self.name.clone(),
            gender: self.gender,
            gender_filter: self.gender_filter,
            about: self.about.clone(),
            active: self.active,
            last_activity: self.last_activity,
            graduation_year: self.graduation_year,
            grade_up_filter: self.grade_up_filter,
            grade_down_filter: self.grade_down_filter,
            subjects: self.subjects,
            subjects_filter: self.subjects_filter,
            dating_purpose: self.dating_purpose,
            city: self.city,
            location_filter: self.location_filter,
        }
    }
}

/// One picture or video of a user, under the name the messenger gave it.
#[derive(Debug, PartialEq, Eq)]
pub struct Image {
    pub user_id: i64,
    pub telegram_id: String,
    pub kind: ImageKind,
}

/// One pairing: `initiator_id` was shown `partner_id` at `time` (seconds).
/// A reaction is `None` while undecided, `Some(true)` for a like and
/// `Some(false)` for a dislike.
#[derive(Clone, Copy, Debug, PartialEq, Eq, Structural)]
pub struct Dating {
    pub id: i32,
    pub initiator_id: i64,
    pub partner_id: i64,
    pub initiator_msg_id: Option<i32>,
    pub time: i64,
    pub initiator_reaction: Option<bool>,
    pub partner_reaction: Option<bool>,
}

/// Where a pairing stands, read off its two reactions.
#[derive(Clone, Copy, Debug, PartialEq, Eq, Structural)]
pub enum DatingState {
    /// The initiator has not reacted.
    Created,
    /// The initiator liked; the partner has not answered.
    AwaitingPartner,
    /// Somebody disliked.
    Closed,
    /// Both liked.
    Mutual,
}

impl Dating {
    /// The state that the two reactions stand for. A dislike of the
    /// initiator closes the pairing whatever the partner's reaction holds.
    pub open spec fn spec_state(self) -> DatingState {
        match self.initiator_reaction {
            None => DatingState::Created,
            Some(false) => DatingState::Closed,
            Some(true) => match self.partner_reaction {
                None => DatingState::AwaitingPartner,
                Some(false) => DatingState::Closed,
                Some(true) => DatingState::Mutual,
            },
        }
    }

    /// The state that the two reactions stand for.
    #[verifier::when_used_as_spec(spec_state)]
    pub fn state(self) -> (state: DatingState)
        ensures
            state == self.spec_state(),
    {
        match self.initiator_reaction {
            None => DatingState::Created,
            Some(false) => DatingState::Closed,
            Some(true) => match self.partner_reaction {
                None => DatingState::AwaitingPartner,
                Some(false) => DatingState::Closed,
                Some(true) => DatingState::Mutual,
            },
        }
    }

    /// A fresh pairing, with no message and no reaction.
    pub fn created(id: i32, initiator_id: i64, partner_id: i64, time: i64) -> (dating: Dating)
        ensures
            dating == (Dating {
                id,
                initiator_id,
                partner_id,
                initiator_msg_id: None,
                time,
                initiator_reaction: None,
                partner_reaction: None,
            }),
            dating.state() == DatingState::Created,
    {
        Dating {
            id,
            initiator_id,
            partner_id,
            initiator_msg_id: None,
            time,
            initiator_reaction: None,
            partner_reaction: None,
        }
    }

    /// The pairing with the initiator's reaction set to `liked`.
    pub open spec fn spec_with_initiator_reaction(self, liked: bool) -> Dating {
        Dating { initiator_reaction: Some(liked), ..self }
    }

    /// The pairing with the partner's reaction set to `liked`.
    pub open spec fn spec_with_partner_reaction(self, liked: bool) -> Dating {
        Dating { partner_reaction: Some(liked), ..self }
    }

    /// The pairing with the initiator's reaction set to `liked`; an earlier
    /// reaction is overwritten.
    #[verifier::when_used_as_spec(spec_with_initiator_reaction)]
    pub fn with_initiator_reaction(self, liked: bool) -> (dating: Dating)
        ensures
            dating == self.spec_with_initiator_reaction(liked),
    {
        Dating { initiator_reaction: Some(liked), ..self }
    }

    /// The pairing with the partner's reaction set to `liked`; an earlier
    /// reaction is overwritten, and the initiator's reaction is not asked for.
    #[verifier::when_used_as_spec(spec_with_partner_reaction)]
    pub fn with_partner_reaction(self, liked: bool) -> (dating: Dating)
        ensures
            dating == self.spec_with_partner_reaction(liked),
    {
        Dating { partner_reaction: Some(liked), ..self }
    }
}

/// From a pairing on which nobody has reacted, a like of the initiator
/// followed by a like of the partner is mutual; a like followed by a dislike
/// is closed.
pub proof fn lemma_like_then_answer(dating: Dating, answer: bool)
    requires
        dating.initiator_reaction is None,
        dating.partner_reaction is None,
    ensures
        dating.state() == DatingState::Created,
        dating.with_initiator_reaction(true).state() == DatingState::AwaitingPartner,
        dating.with_initiator_reaction(true).with_partner_reaction(answer).state() == (if answer {
            DatingState::Mutual
        } else {
            DatingState::Closed
        }),
{
}

/// Once the initiator has disliked, the pairing is closed and stays closed
/// whatever the partner answers; the partner's reaction is stored all the
/// same, and nothing else in the row moves.
pub proof fn lemma_dislike_closes(dating: Dating, answer: bool)
    ensures
        dating.with_initiator_reaction(false).state() == DatingState::Closed,
        dating.with_initiator_reaction(false).with_partner_reaction(answer).state()
            == DatingState::Closed,
        dating.with_initiator_reaction(false).with_partner_reaction(answer).partner_reaction
            == Some(answer),
        dating.with_initiator_reaction(false).with_partner_reaction(answer).initiator_reaction
            == Some(false),
{
}

} // verus!
