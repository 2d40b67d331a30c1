//! A profile in the making: the fields that were given so far.

use vstd::prelude::*;
use crate::entities::{Gender, LocationFilter, User};

verus! {

/// A patch to one profile. A field that is `None` was not given and is left
/// as it is; `gender_filter` and `city` can be given as "none".
#[derive(Debug, PartialEq, Eq)]
pub struct EditProfile {
    pub id: i64,
    pub create_new: bool,
    pub photos_count: u8,
    pub name: Option<String>,
    pub gender: Option<Gender>,
    pub gender_filter: Option<Option<Gender>>,
    pub about: Option<String>,
    pub active: Option<bool>,
    pub graduation_year: Option<i16>,
    pub grade_up_filter: Option<i16>,
    pub grade_down_filter: Option<i16>,
    pub subjects: Option<i32>,
    pub subjects_filter: Option<i32>,
    pub dating_purpose: Option<i16>,
    pub city: Option<Option<i32>>,
    pub location_filter: Option<LocationFilter>,
}

/// `given` where there is one, else `kept`.
pub open spec fn or_kept<T>(given: Option<T>, kept: T) -> T {
    match given {
        Some(value) => value,
        None => kept,
    }
}

impl Clone for EditProfile {
    /// A copy of the patch, field for field.
    fn clone(&self) -> (copy: EditProfile)
        ensures
            copy == *self,
    {
        EditProfile {
            id: self.id,
            create_new: self.create_new,
            photos_count: self.photos_count,
            name: match &self.name {
                Some(name) => Some(name.clone()),
                None => None,
            },
            gender: self.gender,
            gender_filter: self.gender_filter,
            about: match &self.about {
                Some(about) => Some(about.clone()),
                None => None,
            },
            active: self.active,
            graduation_year: self.graduation_year,
            grade_up_filter: self.grade_up_filter,
            grade_down_filter: self.grade_down_filter,
            subjects: self.subjects,
            subjects_filter: self.subjects_filter,
            dating_purpose: self.dating_purpose,
            city: self.city,
            location_filter: self.location_filter,
        }
    }
}

impl EditProfile {
    /// The patch that gives nothing.
    pub open spec fn blank(id: i64, create_new: bool) -> EditProfile {
        EditProfile {
            id,
            create_new,
            photos_count: 0,
            name: None,
            gender: None,
            gender_filter: None,
            about: None,
            active: None,
            graduation_year: None,
            grade_up_filter: None,
            grade_down_filter: None,
            subjects: None,
            subjects_filter: None,
            dating_purpose: None,
            city: None,
            location_filter: None,
        }
    }

    /// The start of a new profile: nothing given yet.
    pub fn new(id: i64) -> (profile: EditProfile)
        ensures
            profile == Self::blank(id, true),
    {
        EditProfile {
            id,
            create_new: true,
            photos_count: 0,
            name: None,
            gender: None,
            gender_filter: None,
            about: None,
            active: None,
            graduation_year: None,
            grade_up_filter: None,
            grade_down_filter: None,
            subjects: None,
            subjects_filter: None,
            dating_purpose: None,
            city: None,
            location_filter: None,
        }
    }

    /// The patch that gives every field of `user` but its last activity.
    pub open spec fn spec_from_model(user: User) -> EditProfile {
        EditProfile {
            id: user.id,
            create_new: false,
            photos_count: 0,
            name: Some(user.name),
            gender: Some(user.gender),
            gender_filter: Some(user.gender_filter),
            about: Some(user.about),
            active: Some(user.active),
            graduation_year: Some(user.graduation_year),
            grade_up_filter: Some(user.grade_up_filter),
            grade_down_filter: Some(user.grade_down_filter),
            subjects: Some(user.subjects),
            subjects_filter: Some(user.subjects_filter),
            dating_purpose: Some(user.dating_purpose),
            city: Some(user.city),
            location_filter: Some(user.location_filter),
        }
    }

    /// The stored profile, opened for editing.
    pub fn from_model(user: User) -> (profile: EditProfile)
        ensures
            profile == Self::spec_from_model(user),
    {
        EditProfile {
            id: user.id,
            create_new: false,
            photos_count: 0,
            name: Some(user.name),
            gender: Some(user.gender),
            gender_filter: Some(user.gender_filter),
            about: Some(user.about),
            active: Some(user.active),
            graduation_year: Some(user.graduation_year),
            grade_up_filter: Some(user.grade_up_filter),
            grade_down_filter: Some(user.grade_down_filter),
            subjects: Some(user.subjects),
            subjects_filter: Some(user.subjects_filter),
            dating_purpose: Some(user.dating_purpose),
            city: Some(user.city),
            location_filter: Some(user.location_filter),
        }
    }

    /// `user` with the given fields replaced. The id and the last activity
    /// stay.
    pub open spec fn spec_applied_to(self, user: User) -> User {
        User {
            id: user.id,
            name: or_kept(self.name, user.name),
            gender: or_kept(self.gender, user.gender),
            gender_filter: or_kept(self.gender_filter, user.gender_filter),
            about: or_kept(self.about, user.about),
            active: or_kept(self.active, user.active),
            last_activity: user.last_activity,
            graduation_year: or_kept(self.graduation_year, user.graduation_year),
            grade_up_filter: or_kept(self.grade_up_filter, user.grade_up_filter),
            grade_down_filter: or_kept(self.grade_down_filter, user.grade_down_filter),
            subjects: or_kept(self.subjects, user.subjects),
            subjects_filter: or_kept(self.subjects_filter, user.subjects_filter),
            dating_purpose: or_kept(self.dating_purpose, user.dating_purpose),
            city: or_kept(self.city, user.city),
            location_filter: or_kept(self.location_filter, user.location_filter),
        }
    }

    /// `user` with the given fields replaced.
    pub fn applied_to(self, user: &User) -> (patched: User)
        ensures
            patched == self.spec_applied_to(*user),
    {
        User {
            id: user.id,
            name: match self.name {
                Some(name) => name,
                None => user.name.clone(),
            },
            gender: match self.gender {
                Some(gender) => gender,
                None => user.gender,
            },
            gender_filter: match self.gender_filter {
                Some(filter) => filter,
                None => user.gender_filter,
            },
            about: match self.about {
                Some(about) => about,
                None => user.about.clone(),
            },
            active: match self.active {
                Some(active) => active,
                None => user.active,
            },
            last_activity: user.last_activity,
            graduation_year: match self.graduation_year {
                Some(year) => year,
                None => user.graduation_year,
            },
            grade_up_filter: match self.grade_up_filter {
                Some(up) => up,
                None => user.grade_up_filter,
            },
            grade_down_filter: match self.grade_down_filter {
                Some(down) => down,
                None => user.grade_down_filter,
            },
            subjects: match self.subjects {
                Some(subjects) => subjects,
                None => user.subjects,
            },
            subjects_filter: match self.subjects_filter {
                Some(filter) => filter,
                None => user.subjects_filter,
            },
            dating_purpose: match self.dating_purpose {
                Some(purpose) => purpose,
                None => user.dating_purpose,
            },
            city: match self.city {
                Some(city) => city,
                None => user.city,
            },
            location_filter: match self.location_filter {
                Some(filter) => filter,
                None => user.location_filter,
            },
        }
    }

    /// Whether every field is given that a profile cannot do without: the
    /// name, the gender, the text about oneself, the graduation year, the
    /// dating purpose and the location filter.
    pub open spec fn spec_is_complete(self) -> bool {
        &&& self.name.is_some()
        &&& self.gender.is_some()
        &&& self.about.is_some()
        &&& self.graduation_year.is_some()
        &&& self.dating_purpose.is_some()
        &&& self.location_filter.is_some()
    }

    /// Whether every field is given that a profile cannot do without.
    pub fn is_complete(&self) -> (complete: bool)
        ensures
            complete == self.spec_is_complete(),
    {
        self.name.is_some() && self.gender.is_some() && self.about.is_some()
            && self.graduation_year.is_some() && self.dating_purpose.is_some()
            && self.location_filter.is_some()
    }

    /// The profile that a complete patch creates at `now`: switched on,
    /// one grade up and one down, no subject, no subject asked for, any
    /// gender, no city, unless the patch says otherwise.
    pub open spec fn spec_created(self, now: i64) -> User
        recommends
            self.spec_is_complete(),
    {
        User {
            id: self.id,
            name: self.name.unwrap(),
            gender: self.gender.unwrap(),
            gender_filter: or_kept(self.gender_filter, None),
            about: self.about.unwrap(),
            active: or_kept(self.active, true),
            last_activity: now,
            graduation_year: self.graduation_year.unwrap(),
            grade_up_filter: or_kept(self.grade_up_filter, 1i16),
            grade_down_filter: or_kept(self.grade_down_filter, 1i16),
            subjects: or_kept(self.subjects, 0i32),
            subjects_filter: or_kept(self.subjects_filter, 0i32),
            dating_purpose: self.dating_purpose.unwrap(),
            city: or_kept(self.city, None),
            location_filter: self.location_filter.unwrap(),
        }
    }

    /// The profile that the patch creates at `now`, or nothing where a
    /// field is missing that a profile cannot do without.
    pub fn created(self, now: i64) -> (user: Option<User>)
        ensures
            user == (if self.spec_is_complete() {
                Some(self.spec_created(now))
            } else {
                None::<User>
            }),
    {
        if !self.is_complete() {
            return None;
        }
        Some(
            User {
                id: self.id,
                name: self.name.unwrap(),
                gender: self.gender.unwrap(),
                gender_filter: match self.gender_filter {
                    Some(filter) => filter,
                    None => None,
                },
                about: self.about.unwrap(),
                active: match self.active {
                    Some(active) => active,
                    None => true,
                },
                last_activity: now,
                graduation_year: self.graduation_year.unwrap(),
                grade_up_filter: match self.grade_up_filter {
                    Some(up) => up,
                    None => 1,
                },
                grade_down_filter: match self.grade_down_filter {
                    Some(down) => down,
                    None => 1,
                },
                subjects: match self.subjects {
                    Some(subjects) => subjects,
                    None => 0,
                },
                subjects_filter: match self.subjects_filter {
                    Some(filter) => filter,
                    None => 0,
                },
                dating_purpose: self.dating_purpose.unwrap(),
                city: match self.city {
                    Some(city) => city,
                    None => None,
                },
                location_filter: self.location_filter.unwrap(),
            },
        )
    }
}

/// A patch that gives nothing changes nothing.
pub proof fn lemma_blank_patch_keeps(user: User, create_new: bool)
    ensures
        EditProfile::blank(user.id, create_new).spec_applied_to(user) == user,
{
}

/// A profile opened for editing and written back unchanged is the profile.
pub proof fn lemma_from_model_keeps(user: User)
    ensures
        EditProfile::spec_from_model(user).spec_applied_to(user) == user,
        EditProfile::spec_from_model(user).spec_is_complete(),
{
}

} // verus!
