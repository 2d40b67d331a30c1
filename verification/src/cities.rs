//! Location codes and the directory of places.
//!
//! A location code packs three tiers into one integer, eight bits each:
//! the county (federal district), the subject (region) and the city.

use vstd::prelude::*;
use crate::strings::{chars_of, push_chars, push_text, same_chars};

verus! {

/// The code of a city from the three tiers' numbers.
pub open spec fn spec_location_code(county: i32, subject: i32, city: i32) -> i32 {
    (county << 16) | (subject << 8) | city
}

/// The county tier of a location code.
pub open spec fn spec_county_of(code: i32) -> i32 {
    code >> 16
}

/// The subject tier of a location code.
pub open spec fn spec_subject_region_of(code: i32) -> i32 {
    (code >> 8) & 0xff
}

/// The city tier of a location code.
pub open spec fn spec_city_of(code: i32) -> i32 {
    code & 0xff
}

/// The code of a city from the three tiers' numbers.
#[verifier::when_used_as_spec(spec_location_code)]
pub fn location_code(county: i32, subject: i32, city: i32) -> (code: i32)
    requires
        0 <= county < 256,
        0 <= subject < 256,
        0 <= city < 256,
    ensures
        code == spec_location_code(county, subject, city),
        0 <= code < 0x100_0000,
{
    assert(0 <= ((county << 16) | (subject << 8) | city) < 0x100_0000) by (bit_vector)
        requires
            0 <= county < 256,
            0 <= subject < 256,
            0 <= city < 256,
    ;
    (county << 16) | (subject << 8) | city
}

/// The county tier of a location code.
#[verifier::when_used_as_spec(spec_county_of)]
pub fn county_of(code: i32) -> (county: i32)
    ensures
        county == spec_county_of(code),
{
    code >> 16
}

/// The subject tier of a location code.
#[verifier::when_used_as_spec(spec_subject_region_of)]
pub fn subject_region_of(code: i32) -> (subject: i32)
    ensures
        subject == spec_subject_region_of(code),
{
    (code >> 8) & 0xff
}

/// The city tier of a location code.
#[verifier::when_used_as_spec(spec_city_of)]
pub fn city_of(code: i32) -> (city: i32)
    ensures
        city == spec_city_of(code),
{
    code & 0xff
}

/// Taking a code apart gives back the three numbers it was made of.
pub proof fn lemma_code_tiers(county: i32, subject: i32, city: i32)
    requires
        0 <= county < 256,
        0 <= subject < 256,
        0 <= city < 256,
    ensures
        county_of(location_code(county, subject, city)) == county,
        subject_region_of(location_code(county, subject, city)) == subject,
        city_of(location_code(county, subject, city)) == city,
{
    assert((((county << 16) | (subject << 8) | city) >> 16) == county) by (bit_vector)
        requires
            0 <= county < 256,
            0 <= subject < 256,
            0 <= city < 256,
    ;
    assert(((((county << 16) | (subject << 8) | city) >> 8) & 0xff) == subject) by (bit_vector)
        requires
            0 <= county < 256,
            0 <= subject < 256,
            0 <= city < 256,
    ;
    assert((((county << 16) | (subject << 8) | city) & 0xff) == city) by (bit_vector)
        requires
            0 <= county < 256,
            0 <= subject < 256,
            0 <= city < 256,
    ;
}

/// Two codes with the same subject and county tiers and the same city tier
/// are one code, as long as both are codes that `location_code` makes.
pub proof fn lemma_same_tiers_same_code(a: i32, b: i32)
    requires
        0 <= a < 0x100_0000,
        0 <= b < 0x100_0000,
        county_of(a) == county_of(b),
        subject_region_of(a) == subject_region_of(b),
        city_of(a) == city_of(b),
    ensures
        a == b,
{
    assert(a == b) by (bit_vector)
        requires
            0 <= a < 0x100_0000,
            0 <= b < 0x100_0000,
            a >> 16 == b >> 16,
            (a >> 8) & 0xff == (b >> 8) & 0xff,
            a & 0xff == b & 0xff,
    ;
}

/// One named place of a tier, under the number it is looked up by.
#[derive(Debug, PartialEq, Eq)]
pub struct Place {
    pub id: i32,
    pub name: String,
}

/// The name under `id` in `places`: that of the first entry with this
/// number.
pub open spec fn name_of(places: Seq<Place>, id: i32) -> Option<Seq<char>>
    decreases places.len(),
{
    if places.len() == 0 {
        None
    } else if places[0].id == id {
        Some(places[0].name@)
    } else {
        name_of(places.drop_first(), id)
    }
}

/// Whether some entry of `places` is called `name`.
pub open spec fn has_name(places: Seq<Place>, name: Seq<char>) -> bool {
    exists|i: int| 0 <= i < places.len() && (#[trigger] places[i]).name@ == name
}

/// The number of the first entry of `places` called `name`.
pub open spec fn id_of(places: Seq<Place>, name: Seq<char>) -> Option<i32>
    decreases places.len(),
{
    if places.len() == 0 {
        None
    } else if places[0].name@ == name {
        Some(places[0].id)
    } else {
        id_of(places.drop_first(), name)
    }
}

fn find_by_id(places: &Vec<Place>, id: i32) -> (found: Option<&String>)
    ensures
        found.is_some() == name_of(places@, id).is_some(),
        found.is_some() ==> found.unwrap()@ == name_of(places@, id).unwrap(),
{
    let mut i: usize = 0;
    assert(places@.skip(0) == places@);
    while i < places.len()
        invariant
            i <= places.len(),
            name_of(places@, id) == name_of(places@.skip(i as int), id),
        decreases places.len() - i,
    {
        proof {
            assert(places@.skip(i as int)[0] == places@[i as int]);
            assert(places@.skip(i as int).drop_first() == places@.skip(i + 1));
        }
        if places[i].id == id {
            return Some(&places[i].name);
        }
        i += 1;
    }
    None
}

fn find_by_name(places: &Vec<Place>, name: &str) -> (found: Option<i32>)
    ensures
        found == id_of(places@, name@),
        found.is_some() == has_name(places@, name@),
{
    let wanted = chars_of(name);
    let mut i: usize = 0;
    assert(places@.skip(0) == places@);
    while i < places.len()
        invariant
            i <= places.len(),
            wanted@ == name@,
            id_of(places@, name@) == id_of(places@.skip(i as int), name@),
            forall|k: int| 0 <= k < i ==> (#[trigger] places@[k]).name@ != name@,
        decreases places.len() - i,
    {
        proof {
            assert(places@.skip(i as int)[0] == places@[i as int]);
            assert(places@.skip(i as int).drop_first() == places@.skip(i + 1));
        }
        let candidate = chars_of(places[i].name.as_str());
        if same_chars(&candidate, &wanted) {
            assert(places@[i as int].name@ == name@);
            return Some(places[i].id);
        }
        i += 1;
    }
    None
}

/// Whether no two entries of `places` stand under one number.
pub open spec fn distinct_ids(places: Seq<Place>) -> bool {
    forall|i: int, j: int|
        0 <= i < j < places.len() ==> (#[trigger] places[i]).id != (#[trigger] places[j]).id
}

/// Whether every number of `places` is at least 0 and below `limit`.
pub open spec fn ids_below(places: Seq<Place>, limit: int) -> bool {
    forall|i: int| 0 <= i < places.len() ==> 0 <= (#[trigger] places[i]).id < limit
}

/// A number has a name exactly when an entry stands under it, and the name
/// is that of such an entry.
pub proof fn lemma_name_of(places: Seq<Place>, id: i32)
    ensures
        name_of(places, id).is_some() <==> exists|i: int|
            0 <= i < places.len() && (#[trigger] places[i]).id == id,
        name_of(places, id).is_some() ==> exists|i: int|
            0 <= i < places.len() && (#[trigger] places[i]).id == id && name_of(places, id) == Some(
                places[i].name@,
            ),
    decreases places.len(),
{
    if places.len() > 0 {
        if places[0].id == id {
            assert(places[0].id == id && name_of(places, id) == Some(places[0].name@));
        } else {
            let rest = places.drop_first();
            lemma_name_of(rest, id);
            if name_of(rest, id).is_some() {
                let k = choose|k: int|
                    0 <= k < rest.len() && (#[trigger] rest[k]).id == id && name_of(rest, id)
                        == Some(rest[k].name@);
                assert(places[k + 1] == rest[k]);
            }
            if exists|i: int| 0 <= i < places.len() && (#[trigger] places[i]).id == id {
                let i = choose|i: int| 0 <= i < places.len() && (#[trigger] places[i]).id == id;
                assert(rest[i - 1] == places[i]);
            }
        }
    }
}

/// Where no two entries share a number, every entry is found under its
/// own.
pub proof fn lemma_entry_is_found(places: Seq<Place>, i: int)
    requires
        distinct_ids(places),
        0 <= i < places.len(),
    ensures
        name_of(places, places[i].id) == Some(places[i].name@),
    decreases places.len(),
{
    if i > 0 {
        let rest = places.drop_first();
        assert(places[0].id != places[i].id);
        assert forall|a: int, b: int| 0 <= a < b < rest.len() implies (#[trigger] rest[a]).id != (
        #[trigger] rest[b]).id by {
            assert(rest[a] == places[a + 1]);
            assert(rest[b] == places[b + 1]);
        }
        assert(rest[i - 1] == places[i]);
        lemma_entry_is_found(rest, i - 1);
    }
}

/// Where no two entries share a number, the names that exist are the names
/// that the numbers lead to.
pub proof fn lemma_names_are_reached(places: Seq<Place>, name: Seq<char>)
    requires
        distinct_ids(places),
    ensures
        has_name(places, name) <==> exists|id: i32| #[trigger] name_of(places, id) == Some(name),
{
    if has_name(places, name) {
        let i = choose|i: int| 0 <= i < places.len() && (#[trigger] places[i]).name@ == name;
        lemma_entry_is_found(places, i);
        assert(name_of(places, places[i].id) == Some(name));
    }
    if exists|id: i32| #[trigger] name_of(places, id) == Some(name) {
        let id = choose|id: i32| #[trigger] name_of(places, id) == Some(name);
        lemma_name_of(places, id);
        let i = choose|i: int|
            0 <= i < places.len() && (#[trigger] places[i]).id == id && name_of(places, id) == Some(
                places[i].name@,
            );
        assert(places[i].name@ == name);
    }
}

/// Whether no two entries of `places` stand under one number.
fn has_distinct_ids(places: &Vec<Place>) -> (ok: bool)
    ensures
        ok == distinct_ids(places@),
{
    let mut j: usize = 0;
    while j < places.len()
        invariant
            j <= places.len(),
            forall|a: int, b: int|
                0 <= a < b < j ==> (#[trigger] places@[a]).id != (#[trigger] places@[b]).id,
        decreases places.len() - j,
    {
        let mut i: usize = 0;
        while i < j
            invariant
                i <= j < places.len(),
                forall|a: int| 0 <= a < i ==> (#[trigger] places@[a]).id != places@[j as int].id,
            decreases j - i,
        {
            if places[i].id == places[j].id {
                return false;
            }
            i += 1;
        }
        j += 1;
    }
    true
}

/// Whether every number of `places` is at least 0 and below `limit`.
fn has_ids_below(places: &Vec<Place>, limit: i32) -> (ok: bool)
    ensures
        ok == ids_below(places@, limit as int),
{
    let mut i: usize = 0;
    while i < places.len()
        invariant
            i <= places.len(),
            forall|k: int| 0 <= k < i ==> 0 <= (#[trigger] places@[k]).id < limit,
        decreases places.len() - i,
    {
        if places[i].id < 0 || places[i].id >= limit {
            return false;
        }
        i += 1;
    }
    true
}

/// The names of the counties, the subjects and the cities, each under its
/// number: a county and a subject under their tier's number, a city under
/// its whole location code.
#[derive(Debug, PartialEq, Eq)]
pub struct Directory {
    pub counties: Vec<Place>,
    pub subjects: Vec<Place>,
    pub cities: Vec<Place>,
}

impl Directory {
    /// A directory that knows no place.
    pub fn new() -> (directory: Directory)
        ensures
            directory.counties@.len() == 0,
            directory.subjects@.len() == 0,
            directory.cities@.len() == 0,
    {
        Directory { counties: Vec::new(), subjects: Vec::new(), cities: Vec::new() }
    }

    /// Whether every city lies in a county and a subject of the directory.
    pub open spec fn cities_are_placed(&self) -> bool {
        forall|i: int|
            0 <= i < self.cities@.len() ==> {
                &&& name_of(self.counties@, spec_county_of((#[trigger] self.cities@[i]).id)).is_some()
                &&& name_of(
                    self.subjects@,
                    spec_subject_region_of(self.cities@[i].id),
                ).is_some()
            }
    }

    /// What holds of a directory that can be used: within each table no two
    /// entries stand under one number; a county and a subject stand under
    /// a number that fits its tier of a location code, a city under a whole
    /// location code; and every city lies in a county and a subject of the
    /// directory.
    pub open spec fn spec_valid(&self) -> bool {
        &&& distinct_ids(self.counties@)
        &&& distinct_ids(self.subjects@)
        &&& distinct_ids(self.cities@)
        &&& ids_below(self.counties@, 256)
        &&& ids_below(self.subjects@, 256)
        &&& ids_below(self.cities@, 0x100_0000)
        &&& self.cities_are_placed()
    }

    /// Whether the directory can be used.
    #[verifier::when_used_as_spec(spec_valid)]
    pub fn valid(&self) -> (ok: bool)
        ensures
            ok == self.spec_valid(),
    {
        if !(has_distinct_ids(&self.counties) && has_distinct_ids(&self.subjects)
            && has_distinct_ids(&self.cities) && has_ids_below(&self.counties, 256)
            && has_ids_below(&self.subjects, 256) && has_ids_below(&self.cities, 0x100_0000)) {
            return false;
        }
        let mut i: usize = 0;
        while i < self.cities.len()
            invariant
                i <= self.cities.len(),
                forall|k: int|
                    0 <= k < i ==> {
                        &&& name_of(
                            self.counties@,
                            spec_county_of((#[trigger] self.cities@[k]).id),
                        ).is_some()
                        &&& name_of(
                            self.subjects@,
                            spec_subject_region_of(self.cities@[k].id),
                        ).is_some()
                    },
            decreases self.cities.len() - i,
        {
            let code = self.cities[i].id;
            if county_by_id(self, code).is_none() || subject_by_id(self, code).is_none() {
                return false;
            }
            i += 1;
        }
        true
    }

    /// Whether the county, the subject and the city of `code` all have a
    /// name.
    pub open spec fn spec_knows(&self, code: i32) -> bool {
        &&& name_of(self.counties@, county_of(code)).is_some()
        &&& name_of(self.subjects@, subject_region_of(code)).is_some()
        &&& name_of(self.cities@, code).is_some()
    }

    /// Whether the county, the subject and the city of `code` all have a
    /// name.
    #[verifier::when_used_as_spec(spec_knows)]
    pub fn knows(&self, code: i32) -> (known: bool)
        ensures
            known == self.spec_knows(code),
    {
        county_by_id(self, code).is_some() && subject_by_id(self, code).is_some() && city_by_id(
            self,
            code,
        ).is_some()
    }
}

/// The name of the county that the location `id` lies in.
pub fn county_by_id(directory: &Directory, id: i32) -> (name: Option<&String>)
    ensures
        name.is_some() == name_of(directory.counties@, county_of(id)).is_some(),
        name.is_some() ==> name.unwrap()@ == name_of(directory.counties@, county_of(id)).unwrap(),
{
    find_by_id(&directory.counties, county_of(id))
}

/// The name of the subject that the location `id` lies in.
pub fn subject_by_id(directory: &Directory, id: i32) -> (name: Option<&String>)
    ensures
        name.is_some() == name_of(directory.subjects@, subject_region_of(id)).is_some(),
        name.is_some() ==> name.unwrap()@ == name_of(
            directory.subjects@,
            subject_region_of(id),
        ).unwrap(),
{
    find_by_id(&directory.subjects, subject_region_of(id))
}

/// The name of the city whose location code is `id`.
pub fn city_by_id(directory: &Directory, id: i32) -> (name: Option<&String>)
    ensures
        name.is_some() == name_of(directory.cities@, id).is_some(),
        name.is_some() ==> name.unwrap()@ == name_of(directory.cities@, id).unwrap(),
{
    find_by_id(&directory.cities, id)
}

/// Whether a county is called `name`.
pub fn county_exists(directory: &Directory, name: &str) -> (exists: bool)
    ensures
        exists == has_name(directory.counties@, name@),
{
    find_by_name(&directory.counties, name).is_some()
}

/// Whether a subject is called `name`.
pub fn subject_exists(directory: &Directory, name: &str) -> (exists: bool)
    ensures
        exists == has_name(directory.subjects@, name@),
{
    find_by_name(&directory.subjects, name).is_some()
}

/// Whether a city is called `name`.
pub fn city_exists(directory: &Directory, name: &str) -> (exists: bool)
    ensures
        exists == has_name(directory.cities@, name@),
{
    find_by_name(&directory.cities, name).is_some()
}

/// Where a user lives: a location code, or nothing where they did not say.
#[derive(Clone, Copy, Debug, PartialEq, Eq, Structural)]
pub struct City(pub Option<i32>);

impl City {
    /// What is shown for a city: the county, then the subject unless it is
    /// called as the city is, then the city. For no city, a fixed sentence.
    pub open spec fn spec_text(self, directory: &Directory) -> Seq<char>
        recommends
            self.0.is_some() ==> directory.knows(self.0.unwrap()),
    {
        match self.0 {
            Some(id) => {
                let county = name_of(directory.counties@, county_of(id)).unwrap();
                let subject = name_of(directory.subjects@, subject_region_of(id)).unwrap();
                let city = name_of(directory.cities@, id).unwrap();
                if subject == city {
                    county + " ФО, "@ + city
                } else {
                    county + " ФО, "@ + subject + ", "@ + city
                }
            },
            None => "Город не указан"@,
        }
    }

    /// What is shown for a city.
    pub fn text(&self, directory: &Directory) -> (text: String)
        requires
            self.0.is_some() ==> directory.knows(self.0.unwrap()),
        ensures
            text@ == self.spec_text(directory),
    {
        let mut text = String::new();
        match self.0 {
            Some(id) => {
                let county = county_by_id(directory, id).unwrap();
                let subject = subject_by_id(directory, id).unwrap();
                let city = city_by_id(directory, id).unwrap();
                let subject_chars = chars_of(subject.as_str());
                let city_chars = chars_of(city.as_str());
                push_text(&mut text, county.as_str());
                push_text(&mut text, " ФО, ");
                if !same_chars(&subject_chars, &city_chars) {
                    push_chars(&mut text, &subject_chars, 0);
                    push_text(&mut text, ", ");
                }
                push_chars(&mut text, &city_chars, 0);
                assert(subject_chars@.skip(0) == subject_chars@);
                assert(city_chars@.skip(0) == city_chars@);
            },
            None => {
                push_text(&mut text, "Город не указан");
            },
        }
        text
    }

    /// The code, or nothing.
    pub fn code(self) -> (code: Option<i32>)
        ensures
            code == self.0,
    {
        self.0
    }
}

/// In a directory that can be used, the code of every listed city is
/// known whole: its county and its subject have a name too, so that the
/// city can be shown.
pub proof fn lemma_listed_city_is_known(directory: &Directory, code: i32)
    requires
        directory.spec_valid(),
        name_of(directory.cities@, code).is_some(),
    ensures
        directory.spec_knows(code),
{
    lemma_name_of(directory.cities@, code);
    let i = choose|i: int|
        0 <= i < directory.cities@.len() && (#[trigger] directory.cities@[i]).id == code;
    assert(name_of(directory.counties@, spec_county_of(directory.cities@[i].id)).is_some());
}

/// In a directory that can be used, the counties that exist by name are
/// the counties that the location codes lead to.
pub proof fn lemma_counties_by_name_and_by_code(directory: &Directory, name: Seq<char>)
    requires
        directory.spec_valid(),
    ensures
        has_name(directory.counties@, name) <==> exists|code: i32| #[trigger]
            name_of(directory.counties@, spec_county_of(code)) == Some(name),
{
    let counties = directory.counties@;
    lemma_names_are_reached(counties, name);
    if has_name(counties, name) {
        let i = choose|i: int| 0 <= i < counties.len() && (#[trigger] counties[i]).name@ == name;
        lemma_entry_is_found(counties, i);
        let id = counties[i].id;
        lemma_code_tiers(id, 0, 0);
        assert(name_of(counties, spec_county_of(spec_location_code(id, 0, 0))) == Some(name));
    }
    if exists|code: i32| #[trigger] name_of(counties, spec_county_of(code)) == Some(name) {
        let code = choose|code: i32| #[trigger]
            name_of(counties, spec_county_of(code)) == Some(name);
        assert(name_of(counties, spec_county_of(code)) == Some(name));
    }
}

/// In a directory that can be used, the subjects that exist by name are
/// the subjects that the location codes lead to.
pub proof fn lemma_subjects_by_name_and_by_code(directory: &Directory, name: Seq<char>)
    requires
        directory.spec_valid(),
    ensures
        has_name(directory.subjects@, name) <==> exists|code: i32| #[trigger]
            name_of(directory.subjects@, spec_subject_region_of(code)) == Some(name),
{
    let subjects = directory.subjects@;
    lemma_names_are_reached(subjects, name);
    if has_name(subjects, name) {
        let i = choose|i: int| 0 <= i < subjects.len() && (#[trigger] subjects[i]).name@ == name;
        lemma_entry_is_found(subjects, i);
        let id = subjects[i].id;
        lemma_code_tiers(0, id, 0);
        assert(name_of(subjects, spec_subject_region_of(spec_location_code(0, id, 0))) == Some(
            name,
        ));
    }
    if exists|code: i32| #[trigger] name_of(subjects, spec_subject_region_of(code)) == Some(name) {
        let code = choose|code: i32| #[trigger]
            name_of(subjects, spec_subject_region_of(code)) == Some(name);
        assert(name_of(subjects, spec_subject_region_of(code)) == Some(name));
    }
}

/// In a directory that can be used, the cities that exist by name are the
/// cities that the location codes lead to, and every listed city exists
/// by the name it is listed under.
pub proof fn lemma_cities_by_name_and_by_code(directory: &Directory, name: Seq<char>)
    requires
        directory.spec_valid(),
    ensures
        has_name(directory.cities@, name) <==> exists|code: i32| #[trigger]
            name_of(directory.cities@, code) == Some(name),
        forall|code: i32|
            name_of(directory.cities@, code).is_some() ==> has_name(
                directory.cities@,
                #[trigger] name_of(directory.cities@, code).unwrap(),
            ),
{
    lemma_names_are_reached(directory.cities@, name);
    assert forall|code: i32| name_of(directory.cities@, code).is_some() implies has_name(
        directory.cities@,
        #[trigger] name_of(directory.cities@, code).unwrap(),
    ) by {
        lemma_name_of(directory.cities@, code);
    }
}

} // verus!
