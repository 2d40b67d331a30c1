//! The mutual filters between a requester and a candidate.
//!
//! A filter is built once from the requester's profile. It is a conjunction
//! of twelve named parts; a candidate is admitted when all of them hold.

use vstd::prelude::*;
use crate::cities::{county_of, subject_region_of};
use crate::entities::{Dating, Gender, LocationFilter, User};
use crate::error::MatchError;

verus! {

/// A candidate must have been active within these seconds: fourteen days.
pub const ACTIVITY_WINDOW: i64 = 1_209_600;

/// A pair is not suggested again within these seconds: one week.
pub const REPEAT_COOLDOWN: i64 = 604_800;

/// A short window of seconds that the cooldown contains: a pairing younger
/// than this is younger than the cooldown.
pub const GRACE_WINDOW: i64 = 5;

/// What a requester asks of a candidate, and what a candidate may ask of
/// the requester, at the moment `now`.
#[derive(Clone, Copy, Debug, PartialEq, Eq, Structural)]
pub struct MatchFilter {
    pub requester_id: i64,
    pub now: i64,
    pub graduation_year: i16,
    pub grade_up_filter: i16,
    pub grade_down_filter: i16,
    pub dating_purpose: i16,
    pub subjects: i32,
    pub subjects_filter: i32,
    pub gender: Gender,
    pub gender_filter: Option<Gender>,
    pub city: Option<i32>,
    pub location_filter: LocationFilter,
}

/// Whether `time` lies less than `window` seconds before `now`.
pub open spec fn within(time: i64, now: i64, window: i64) -> bool {
    time > now - window
}

/// Whether the candidate's city lies in the requester's county. A candidate
/// without a city lies nowhere; a requester without one counts as code 0.
pub open spec fn same_county(candidate_city: Option<i32>, requester_city: Option<i32>) -> bool {
    candidate_city.is_some() && county_of(candidate_city.unwrap()) == county_of(
        requester_city.unwrap_or(0),
    )
}

/// Whether the candidate's city lies in a subject numbered as the
/// requester's is. A candidate without a city lies nowhere; a requester
/// without one counts as code 0.
pub open spec fn same_subject_region(
    candidate_city: Option<i32>,
    requester_city: Option<i32>,
) -> bool {
    candidate_city.is_some() && subject_region_of(candidate_city.unwrap()) == subject_region_of(
        requester_city.unwrap_or(0),
    )
}

/// Whether the pairing stands in the way of showing `partner_id` to
/// `initiator_id` at `now`: it is theirs, in this direction, and younger
/// than the cooldown.
pub open spec fn blocks(dating: Dating, initiator_id: i64, partner_id: i64, now: i64) -> bool {
    &&& dating.initiator_id == initiator_id
    &&& dating.partner_id == partner_id
    &&& within(dating.time, now, REPEAT_COOLDOWN)
}

impl MatchFilter {
    /// The filter of `requester` at `now`, field for field.
    pub open spec fn of(requester: User, now: i64) -> MatchFilter {
        MatchFilter {
            requester_id: requester.id,
            now,
            graduation_year: requester.graduation_year,
            grade_up_filter: requester.grade_up_filter,
            grade_down_filter: requester.grade_down_filter,
            dating_purpose: requester.dating_purpose,
            subjects: requester.subjects,
            subjects_filter: requester.subjects_filter,
            gender: requester.gender,
            gender_filter: requester.gender_filter,
            city: requester.city,
            location_filter: requester.location_filter,
        }
    }

    /// What building the filter of `requester` gives: a location filter
    /// narrower than the country needs a city, and a profile needs a
    /// purpose. The missing city is reported first.
    pub open spec fn spec_build(requester: User, now: i64) -> Result<MatchFilter, MatchError> {
        if requester.location_filter != LocationFilter::SameCountry && requester.city.is_none() {
            Err(MatchError::InvalidPreferenceState)
        } else if requester.dating_purpose == 0 {
            Err(MatchError::PurposeNotSet)
        } else {
            Ok(Self::of(requester, now))
        }
    }

    /// Builds the filter of `requester` at `now`.
    pub fn build(requester: &User, now: i64) -> (filter: Result<MatchFilter, MatchError>)
        ensures
            filter == Self::spec_build(*requester, now),
    {
        if requester.location_filter != LocationFilter::SameCountry && requester.city.is_none() {
            Err(MatchError::InvalidPreferenceState)
        } else if requester.dating_purpose == 0 {
            Err(MatchError::PurposeNotSet)
        } else {
            Ok(
                MatchFilter {
                    requester_id: requester.id,
                    now,
                    graduation_year: requester.graduation_year,
                    grade_up_filter: requester.grade_up_filter,
                    grade_down_filter: requester.grade_down_filter,
                    dating_purpose: requester.dating_purpose,
                    subjects: requester.subjects,
                    subjects_filter: requester.subjects_filter,
                    gender: requester.gender,
                    gender_filter: requester.gender_filter,
                    city: requester.city,
                    location_filter: requester.location_filter,
                },
            )
        }
    }

    /// Nobody is shown to themselves.
    pub open spec fn self_exclusion(self, candidate: User) -> bool {
        candidate.id != self.requester_id
    }

    /// Only switched-on profiles are shown.
    pub open spec fn activation(self, candidate: User) -> bool {
        candidate.active
    }

    /// Only who was active within the activity window is shown.
    pub open spec fn recency(self, candidate: User) -> bool {
        within(candidate.last_activity, self.now, ACTIVITY_WINDOW)
    }

    /// The candidate's graduation year lies in the requester's window.
    pub open spec fn requester_grade_window(self, candidate: User) -> bool {
        self.graduation_year - self.grade_up_filter <= candidate.graduation_year
            <= self.graduation_year + self.grade_down_filter
    }

    /// The requester's graduation year lies in the candidate's window.
    pub open spec fn candidate_grade_window(self, candidate: User) -> bool {
        candidate.graduation_year - candidate.grade_up_filter <= self.graduation_year
            <= candidate.graduation_year + candidate.grade_down_filter
    }

    /// Each one's graduation year lies in the other's window.
    pub open spec fn grade_window(self, candidate: User) -> bool {
        self.requester_grade_window(candidate) && self.candidate_grade_window(candidate)
    }

    /// The two share a dating purpose.
    pub open spec fn purpose_overlap(self, candidate: User) -> bool {
        self.dating_purpose & candidate.dating_purpose != 0
    }

    /// Where the candidate asks for subjects, the requester studies one of
    /// them.
    pub open spec fn candidate_subjects(self, candidate: User) -> bool {
        candidate.subjects_filter != 0 ==> candidate.subjects_filter & self.subjects != 0
    }

    /// Where the requester asks for subjects, the candidate studies one of
    /// them.
    pub open spec fn requester_subjects(self, candidate: User) -> bool {
        self.subjects_filter != 0 ==> self.subjects_filter & candidate.subjects != 0
    }

    /// Where the candidate asks for a gender, it is the requester's.
    pub open spec fn candidate_gender(self, candidate: User) -> bool {
        candidate.gender_filter.is_some() ==> candidate.gender_filter == Some(self.gender)
    }

    /// Where the requester asks for a gender, it is the candidate's.
    pub open spec fn requester_gender(self, candidate: User) -> bool {
        self.gender_filter.is_some() ==> self.gender_filter == Some(candidate.gender)
    }

    /// The requester lives where the candidate is willing to look. A
    /// candidate who looks in their own city only asks nothing here: the
    /// city is compared once, on the requester's side.
    pub open spec fn candidate_location(self, candidate: User) -> bool {
        match candidate.location_filter {
            LocationFilter::SameCountry => true,
            LocationFilter::SameCounty => same_county(candidate.city, self.city),
            LocationFilter::SameSubject => same_subject_region(candidate.city, self.city),
            LocationFilter::SameCity => true,
        }
    }

    /// The candidate lives where the requester is willing to look.
    pub open spec fn requester_location(self, candidate: User) -> bool {
        match self.location_filter {
            LocationFilter::SameCountry => true,
            LocationFilter::SameCounty => same_county(candidate.city, self.city),
            LocationFilter::SameSubject => same_subject_region(candidate.city, self.city),
            LocationFilter::SameCity => candidate.city.is_some() && candidate.city == self.city,
        }
    }

    /// The requester was not shown this candidate within the cooldown.
    pub open spec fn not_repeated(self, candidate: User, datings: Seq<Dating>) -> bool {
        forall|i: int|
            0 <= i < datings.len() ==> !blocks(
                #[trigger] datings[i],
                self.requester_id,
                candidate.id,
                self.now,
            )
    }

    /// The parts that look at the two profiles only.
    pub open spec fn spec_suits(self, candidate: User) -> bool {
        &&& self.self_exclusion(candidate)
        &&& self.activation(candidate)
        &&& self.recency(candidate)
        &&& self.grade_window(candidate)
        &&& self.purpose_overlap(candidate)
        &&& self.candidate_subjects(candidate)
        &&& self.requester_subjects(candidate)
        &&& self.candidate_gender(candidate)
        &&& self.requester_gender(candidate)
        &&& self.candidate_location(candidate)
        &&& self.requester_location(candidate)
    }

    /// All twelve parts.
    pub open spec fn spec_admits(self, candidate: User, datings: Seq<Dating>) -> bool {
        self.spec_suits(candidate) && self.not_repeated(candidate, datings)
    }

    /// Whether the candidate's graduation year and the requester's lie in
    /// each other's windows.
    pub fn check_grade_window(&self, candidate: &User) -> (ok: bool)
        ensures
            ok == self.grade_window(*candidate),
    {
        let mine: i32 = self.graduation_year as i32;
        let theirs: i32 = candidate.graduation_year as i32;
        mine - self.grade_up_filter as i32 <= theirs && theirs <= mine
            + self.grade_down_filter as i32 && theirs - candidate.grade_up_filter as i32 <= mine
            && mine <= theirs + candidate.grade_down_filter as i32
    }

    /// Whether the candidate's location filter lets the requester through.
    pub fn check_candidate_location(&self, candidate: &User) -> (ok: bool)
        ensures
            ok == self.candidate_location(*candidate),
    {
        let mine: i32 = match self.city {
            Some(code) => code,
            None => 0,
        };
        match candidate.location_filter {
            LocationFilter::SameCountry => true,
            LocationFilter::SameCounty => match candidate.city {
                Some(code) => county_of(code) == county_of(mine),
                None => false,
            },
            LocationFilter::SameSubject => match candidate.city {
                Some(code) => subject_region_of(code) == subject_region_of(mine),
                None => false,
            },
            LocationFilter::SameCity => true,
        }
    }

    /// Whether the requester's location filter lets the candidate through.
    pub fn check_requester_location(&self, candidate: &User) -> (ok: bool)
        ensures
            ok == self.requester_location(*candidate),
    {
        let mine: i32 = match self.city {
            Some(code) => code,
            None => 0,
        };
        match self.location_filter {
            LocationFilter::SameCountry => true,
            LocationFilter::SameCounty => match candidate.city {
                Some(code) => county_of(code) == county_of(mine),
                None => false,
            },
            LocationFilter::SameSubject => match candidate.city {
                Some(code) => subject_region_of(code) == subject_region_of(mine),
                None => false,
            },
            LocationFilter::SameCity => match (candidate.city, self.city) {
                (Some(theirs), Some(own)) => theirs == own,
                _ => false,
            },
        }
    }

    /// Whether the requester was not shown this candidate within the
    /// cooldown.
    pub fn check_not_repeated(&self, candidate: &User, datings: &Vec<Dating>) -> (ok: bool)
        ensures
            ok == self.not_repeated(*candidate, datings@),
    {
        let mut i: usize = 0;
        while i < datings.len()
            invariant
                i <= datings.len(),
                forall|k: int|
                    0 <= k < i ==> !blocks(
                        #[trigger] datings@[k],
                        self.requester_id,
                        candidate.id,
                        self.now,
                    ),
            decreases datings.len() - i,
        {
            let dating = &datings[i];
            if dating.initiator_id == self.requester_id && dating.partner_id == candidate.id
                && is_within(dating.time, self.now, REPEAT_COOLDOWN) {
                assert(blocks(datings@[i as int], self.requester_id, candidate.id, self.now));
                return false;
            }
            i += 1;
        }
        true
    }

    /// Whether the parts that look at the two profiles only all hold.
    pub fn suits(&self, candidate: &User) -> (ok: bool)
        ensures
            ok == self.spec_suits(*candidate),
    {
        candidate.id != self.requester_id && candidate.active && is_within(
            candidate.last_activity,
            self.now,
            ACTIVITY_WINDOW,
        ) && self.check_grade_window(candidate) && (self.dating_purpose & candidate.dating_purpose)
            != 0 && (candidate.subjects_filter == 0 || (candidate.subjects_filter & self.subjects)
            != 0) && (self.subjects_filter == 0 || (self.subjects_filter & candidate.subjects) != 0)
            && (match candidate.gender_filter {
            Some(wanted) => wanted == self.gender,
            None => true,
        }) && (match self.gender_filter {
            Some(wanted) => wanted == candidate.gender,
            None => true,
        }) && self.check_candidate_location(candidate) && self.check_requester_location(candidate)
    }

    /// Whether all twelve parts hold of `candidate`, given the pairings
    /// made so far.
    pub fn admits(&self, candidate: &User, datings: &Vec<Dating>) -> (ok: bool)
        ensures
            ok == self.spec_admits(*candidate, datings@),
    {
        self.suits(candidate) && self.check_not_repeated(candidate, datings)
    }
}

/// Whether `time` lies less than `window` seconds before `now`.
#[verifier::when_used_as_spec(within)]
pub fn is_within(time: i64, now: i64, window: i64) -> (ok: bool)
    ensures
        ok == within(time, now, window),
{
    time as i128 > now as i128 - window as i128
}

/// The places in `users[..n]` of the candidates that the filter admits, in
/// order.
pub open spec fn eligible_upto(
    filter: MatchFilter,
    users: Seq<User>,
    datings: Seq<Dating>,
    n: int,
) -> Seq<int>
    decreases n,
{
    if n <= 0 {
        Seq::empty()
    } else if filter.spec_admits(users[n - 1], datings) {
        eligible_upto(filter, users, datings, n - 1).push(n - 1)
    } else {
        eligible_upto(filter, users, datings, n - 1)
    }
}

/// The places in `users` of the candidates that the filter admits, in
/// order.
pub open spec fn eligible(filter: MatchFilter, users: Seq<User>, datings: Seq<Dating>) -> Seq<int> {
    eligible_upto(filter, users, datings, users.len() as int)
}

/// The place in `users` of the candidate that the draw `pick` falls on:
/// the admitted candidates are counted in order, and `pick` is taken
/// modulo their number. Nothing where nobody is admitted.
pub open spec fn spec_choose(
    filter: MatchFilter,
    users: Seq<User>,
    datings: Seq<Dating>,
    pick: u64,
) -> Option<int> {
    let admitted = eligible(filter, users, datings);
    if admitted.len() == 0 {
        None
    } else {
        Some(admitted[pick as int % admitted.len() as int])
    }
}

/// What `eligible_upto` holds: places below `n`, rising, each of an
/// admitted candidate, and every admitted candidate's place below `n`.
pub proof fn lemma_eligible_upto(
    filter: MatchFilter,
    users: Seq<User>,
    datings: Seq<Dating>,
    n: int,
)
    requires
        0 <= n <= users.len(),
    ensures
        eligible_upto(filter, users, datings, n).len() <= n,
        forall|k: int|
            0 <= k < eligible_upto(filter, users, datings, n).len() ==> {
                &&& 0 <= (#[trigger] eligible_upto(filter, users, datings, n)[k]) < n
                &&& filter.spec_admits(users[eligible_upto(filter, users, datings, n)[k]], datings)
            },
        forall|i: int|
            0 <= i < n && filter.spec_admits(#[trigger] users[i], datings) ==> eligible_upto(
                filter,
                users,
                datings,
                n,
            ).contains(i),
    decreases n,
{
    if n > 0 {
        lemma_eligible_upto(filter, users, datings, n - 1);
        let before = eligible_upto(filter, users, datings, n - 1);
        let now = eligible_upto(filter, users, datings, n);
        if filter.spec_admits(users[n - 1], datings) {
            assert(now == before.push(n - 1));
            assert(now[before.len() as int] == n - 1);
            assert forall|i: int|
                0 <= i < n && filter.spec_admits(#[trigger] users[i], datings) implies now.contains(
                i,
            ) by {
                if i < n - 1 {
                    let k = choose|k: int| 0 <= k < before.len() && before[k] == i;
                    assert(now[k] == i);
                }
            }
        }
    }
}

/// The chosen candidate is in the pool and is admitted by every part, and
/// somebody is chosen exactly when somebody is admitted.
pub proof fn lemma_choice_is_admitted(
    filter: MatchFilter,
    users: Seq<User>,
    datings: Seq<Dating>,
    pick: u64,
)
    ensures
        spec_choose(filter, users, datings, pick).is_some() <==> exists|i: int|
            0 <= i < users.len() && filter.spec_admits(#[trigger] users[i], datings),
        spec_choose(filter, users, datings, pick).is_some() ==> {
            let chosen = spec_choose(filter, users, datings, pick).unwrap();
            &&& 0 <= chosen < users.len()
            &&& filter.spec_admits(users[chosen], datings)
        },
{
    lemma_eligible_upto(filter, users, datings, users.len() as int);
    let admitted = eligible(filter, users, datings);
    if admitted.len() > 0 {
        let k = pick as int % admitted.len() as int;
        assert(0 <= admitted[k] < users.len());
        assert(filter.spec_admits(users[admitted[k]], datings));
    } else {
        assert forall|i: int| 0 <= i < users.len() implies !filter.spec_admits(
            #[trigger] users[i],
            datings,
        ) by {
            if filter.spec_admits(users[i], datings) {
                assert(admitted.contains(i));
            }
        }
    }
}

/// Picks among the candidates of `users` that the filter admits: the one
/// that the draw `pick` falls on, by its place in `users`.
pub fn choose_candidate(
    filter: &MatchFilter,
    users: &Vec<User>,
    datings: &Vec<Dating>,
    pick: u64,
) -> (chosen: Option<usize>)
    ensures
        chosen.is_some() == spec_choose(*filter, users@, datings@, pick).is_some(),
        chosen.is_some() ==> chosen.unwrap() as int == spec_choose(
            *filter,
            users@,
            datings@,
            pick,
        ).unwrap(),
        chosen.is_some() ==> chosen.unwrap() < users.len() && filter.spec_admits(
            users@[chosen.unwrap() as int],
            datings@,
        ),
{
    let mut admitted: Vec<usize> = Vec::new();
    let mut i: usize = 0;
    while i < users.len()
        invariant
            i <= users.len(),
            admitted@.len() == eligible_upto(*filter, users@, datings@, i as int).len(),
            forall|k: int|
                0 <= k < admitted@.len() ==> (#[trigger] admitted@[k]) as int == eligible_upto(
                    *filter,
                    users@,
                    datings@,
                    i as int,
                )[k],
        decreases users.len() - i,
    {
        if filter.admits(&users[i], datings) {
            admitted.push(i);
        }
        i += 1;
    }
    proof {
        lemma_eligible_upto(*filter, users@, datings@, users.len() as int);
        lemma_choice_is_admitted(*filter, users@, datings@, pick);
    }
    if admitted.len() == 0 {
        None
    } else {
        let k: usize = (pick % (admitted.len() as u64)) as usize;
        Some(admitted[k])
    }
}

/// What a search comes to before anything is written.
#[derive(Clone, Copy, Debug, PartialEq, Eq, Structural)]
pub enum Decision {
    /// The pairing that waits for the requester's reaction is shown again.
    Again(Dating),
    /// The requester is paired with the user at this place of the pool.
    Pair(usize),
    /// Nobody is admitted.
    Nobody,
}

/// Decides a search from what was read: the requester's profile, the
/// pairing that waits for the requester's reaction if there is one, the
/// pool of users and the pairings made so far.
///
/// A waiting pairing is shown again and nothing else is looked at. Else
/// the requester's filter is built, which may fail, and the draw `pick`
/// chooses among the users that the filter admits.
pub fn decide(
    requester: &User,
    pending: Option<Dating>,
    pool: &Vec<User>,
    shown: &Vec<Dating>,
    now: i64,
    pick: u64,
) -> (decision: Result<Decision, MatchError>)
    ensures
        match decision {
            Ok(Decision::Again(dating)) => pending == Some(dating),
            Err(e) => pending.is_none() && MatchFilter::spec_build(*requester, now) == Err::<
                MatchFilter,
                MatchError,
            >(e),
            Ok(Decision::Nobody) => {
                &&& pending.is_none()
                &&& MatchFilter::spec_build(*requester, now) is Ok
                &&& spec_choose(MatchFilter::of(*requester, now), pool@, shown@, pick).is_none()
            },
            Ok(Decision::Pair(chosen)) => {
                &&& pending.is_none()
                &&& MatchFilter::spec_build(*requester, now) is Ok
                &&& spec_choose(MatchFilter::of(*requester, now), pool@, shown@, pick) == Some(
                    chosen as int,
                )
                &&& chosen < pool.len()
                &&& MatchFilter::of(*requester, now).spec_admits(pool@[chosen as int], shown@)
            },
        },
{
    match pending {
        Some(dating) => Ok(Decision::Again(dating)),
        None => {
            let filter = match MatchFilter::build(requester, now) {
                Ok(filter) => filter,
                Err(e) => {
                    return Err(e);
                },
            };
            match choose_candidate(&filter, pool, shown, pick) {
                Some(chosen) => Ok(Decision::Pair(chosen)),
                None => Ok(Decision::Nobody),
            }
        },
    }
}

/// Each one's graduation year in the other's window is one condition for
/// the two: it holds of a pair whichever of them asks.
pub proof fn lemma_grade_window_symmetric(a: User, b: User, now: i64)
    ensures
        MatchFilter::of(a, now).grade_window(b) == MatchFilter::of(b, now).grade_window(a),
{
}

/// A shared purpose is shared whichever of the two asks.
pub proof fn lemma_purpose_overlap_symmetric(a: User, b: User, now: i64)
    ensures
        MatchFilter::of(a, now).purpose_overlap(b) == MatchFilter::of(b, now).purpose_overlap(a),
{
    let x = a.dating_purpose;
    let y = b.dating_purpose;
    assert((x & y != 0) == (y & x != 0)) by (bit_vector);
}

/// What one asks of the other's subjects and gender is what the other is
/// asked when the roles are exchanged.
pub proof fn lemma_subject_and_gender_filters_mirror(a: User, b: User, now: i64)
    ensures
        MatchFilter::of(a, now).requester_subjects(b) == MatchFilter::of(b, now).candidate_subjects(
            a,
        ),
        MatchFilter::of(a, now).requester_gender(b) == MatchFilter::of(b, now).candidate_gender(a),
{
}

/// A requester who asks for no subject admits every candidate on that
/// part, whatever the candidate studies.
pub proof fn lemma_empty_subject_filter_admits(filter: MatchFilter, candidate: User)
    requires
        filter.subjects_filter == 0,
    ensures
        filter.requester_subjects(candidate),
{
}

/// For a requester who asks for no subject, what a candidate studies
/// decides nothing: the candidate is admitted or not whatever subjects are
/// put in place of its own.
pub proof fn lemma_subjects_do_not_matter(
    filter: MatchFilter,
    candidate: User,
    datings: Seq<Dating>,
    bits: i32,
)
    requires
        filter.subjects_filter == 0,
    ensures
        filter.spec_admits(User { subjects: bits, ..candidate }, datings) == filter.spec_admits(
            candidate,
            datings,
        ),
{
    let other = User { subjects: bits, ..candidate };
    assert(filter.not_repeated(other, datings) == filter.not_repeated(candidate, datings));
}

/// A requester who asks for a gender is never shown a candidate of
/// another, whatever the candidate's own filter says.
pub proof fn lemma_gender_filter_is_one_sided(
    filter: MatchFilter,
    candidate: User,
    datings: Seq<Dating>,
)
    requires
        filter.gender_filter.is_some(),
        filter.gender_filter != Some(candidate.gender),
    ensures
        !filter.requester_gender(candidate),
        !filter.spec_admits(candidate, datings),
{
}

/// A pairing within the grace window is within the cooldown: what bars a
/// doubled request also bars the pair from being shown again.
pub proof fn lemma_grace_within_cooldown(time: i64, now: i64)
    requires
        within(time, now, GRACE_WINDOW),
    ensures
        within(time, now, REPEAT_COOLDOWN),
{
}

/// The cooldown looks at the ordered pair: a pairing in which `b` was shown
/// to `a` does not bar `a` from being shown to `b`.
pub proof fn lemma_cooldown_is_directional(dating: Dating, a: i64, b: i64, now: i64)
    requires
        a != b,
        blocks(dating, a, b, now),
    ensures
        !blocks(dating, b, a, now),
{
}

} // verus!
