//! The typed values of a profile: gender, grade, subjects, purposes, and
//! how each is stored, read and shown.

use vstd::prelude::*;
use vstd::std_specs::convert::FromSpecImpl;
use vstd::std_specs::convert::TryFromSpecImpl;
use crate::cities::{city_exists, county_exists, has_name, subject_exists, Directory};
use crate::clock::{local_today, Today};
use crate::entities;
use crate::error::MatchError;
use crate::cities::City;
use crate::strings::{
    in_lowercase_order, join_texts, push_text, same_text, seq_views, sorted_by_lowercase, spec_join,
    spec_without_last, without_last,
};

verus! {

/// How far from their own city a user is willing to look.
#[derive(Clone, Copy, Debug, PartialEq, Eq, Structural)]
pub enum LocationFilter {
    City,
    Subject,
    County,
    Country,
}

impl From<entities::LocationFilter> for LocationFilter {
    fn from(value: entities::LocationFilter) -> (filter: Self) {
        match value {
            entities::LocationFilter::SameCity => Self::City,
            entities::LocationFilter::SameSubject => Self::Subject,
            entities::LocationFilter::SameCounty => Self::County,
            entities::LocationFilter::SameCountry => Self::Country,
        }
    }
}

impl FromSpecImpl<entities::LocationFilter> for LocationFilter {
    open spec fn obeys_from_spec() -> bool {
        true
    }

    open spec fn from_spec(value: entities::LocationFilter) -> Self {
        Self::of_stored(value)
    }
}

impl From<LocationFilter> for entities::LocationFilter {
    fn from(value: LocationFilter) -> (filter: Self) {
        match value {
            LocationFilter::City => Self::SameCity,
            LocationFilter::Subject => Self::SameSubject,
            LocationFilter::County => Self::SameCounty,
            LocationFilter::Country => Self::SameCountry,
        }
    }
}

impl FromSpecImpl<LocationFilter> for entities::LocationFilter {
    open spec fn obeys_from_spec() -> bool {
        true
    }

    open spec fn from_spec(value: LocationFilter) -> Self {
        value.spec_stored()
    }
}

impl LocationFilter {
    /// The filter that a stored one stands for.
    pub open spec fn of_stored(value: entities::LocationFilter) -> LocationFilter {
        match value {
            entities::LocationFilter::SameCity => LocationFilter::City,
            entities::LocationFilter::SameSubject => LocationFilter::Subject,
            entities::LocationFilter::SameCounty => LocationFilter::County,
            entities::LocationFilter::SameCountry => LocationFilter::Country,
        }
    }

    /// The stored form of the filter.
    pub open spec fn spec_stored(self) -> entities::LocationFilter {
        match self {
            LocationFilter::City => entities::LocationFilter::SameCity,
            LocationFilter::Subject => entities::LocationFilter::SameSubject,
            LocationFilter::County => entities::LocationFilter::SameCounty,
            LocationFilter::Country => entities::LocationFilter::SameCountry,
        }
    }

    /// The stored form of the filter.
    #[verifier::when_used_as_spec(spec_stored)]
    pub fn stored(self) -> (filter: entities::LocationFilter)
        ensures
            filter == self.spec_stored(),
    {
        match self {
            LocationFilter::City => entities::LocationFilter::SameCity,
            LocationFilter::Subject => entities::LocationFilter::SameSubject,
            LocationFilter::County => entities::LocationFilter::SameCounty,
            LocationFilter::Country => entities::LocationFilter::SameCountry,
        }
    }

    /// The filter that a button's text stands for. The whole country has a
    /// fixed text; a county is shown with three more characters after its
    /// name; a subject and a city are shown by name. Where a text fits
    /// several, the widest area wins.
    pub open spec fn spec_from_str(directory: &Directory, s: Seq<char>) -> Option<LocationFilter> {
        if s == "Вся Россия"@ {
            Some(LocationFilter::Country)
        } else if has_name(directory.counties@, spec_without_last(s, 3)) {
            Some(LocationFilter::County)
        } else if has_name(directory.subjects@, s) {
            Some(LocationFilter::Subject)
        } else if has_name(directory.cities@, s) {
            Some(LocationFilter::City)
        } else {
            None
        }
    }

    /// The filter that a button's text stands for, or nothing where the
    /// text is none of the four.
    pub fn from_str(directory: &Directory, s: &str) -> (filter: Option<LocationFilter>)
        ensures
            filter == Self::spec_from_str(directory, s@),
    {
        if same_text(s, "Вся Россия") {
            return Some(LocationFilter::Country);
        }
        let county = without_last(s, 3);
        if county_exists(directory, county.as_str()) {
            Some(LocationFilter::County)
        } else if subject_exists(directory, s) {
            Some(LocationFilter::Subject)
        } else if city_exists(directory, s) {
            Some(LocationFilter::City)
        } else {
            None
        }
    }
}

/// Gender of a user.
#[derive(Clone, Copy, Debug, PartialEq, Eq, Structural)]
pub enum UserGender {
    Female,
    Male,
}

impl From<entities::Gender> for UserGender {
    fn from(value: entities::Gender) -> (gender: Self) {
        match value {
            entities::Gender::Female => Self::Female,
            entities::Gender::Male => Self::Male,
        }
    }
}

impl FromSpecImpl<entities::Gender> for UserGender {
    open spec fn obeys_from_spec() -> bool {
        true
    }

    open spec fn from_spec(value: entities::Gender) -> Self {
        Self::of_stored(value)
    }
}

impl From<UserGender> for entities::Gender {
    fn from(value: UserGender) -> (gender: Self) {
        match value {
            UserGender::Female => Self::Female,
            UserGender::Male => Self::Male,
        }
    }
}

impl FromSpecImpl<UserGender> for entities::Gender {
    open spec fn obeys_from_spec() -> bool {
        true
    }

    open spec fn from_spec(value: UserGender) -> Self {
        match value {
            UserGender::Female => Self::Female,
            UserGender::Male => Self::Male,
        }
    }
}

impl UserGender {
    /// The gender that a stored one stands for.
    pub open spec fn of_stored(value: entities::Gender) -> UserGender {
        match value {
            entities::Gender::Female => UserGender::Female,
            entities::Gender::Male => UserGender::Male,
        }
    }

    /// The gender that an answer's text stands for.
    pub open spec fn spec_from_str(value: Seq<char>) -> Result<UserGender, ()> {
        if value == "Я парень"@ {
            Ok(UserGender::Male)
        } else if value == "Я девушка"@ {
            Ok(UserGender::Female)
        } else {
            Err(())
        }
    }

    /// The gender that an answer's text stands for; any other text is
    /// refused.
    pub fn from_str(value: &str) -> (gender: Result<UserGender, ()>)
        ensures
            gender == Self::spec_from_str(value@),
    {
        if same_text(value, "Я парень") {
            Ok(UserGender::Male)
        } else if same_text(value, "Я девушка") {
            Ok(UserGender::Female)
        } else {
            Err(())
        }
    }

    /// The sign shown for the gender.
    pub open spec fn spec_text(self) -> Seq<char> {
        match self {
            UserGender::Female => "♀️"@,
            UserGender::Male => "♂️"@,
        }
    }

    /// The sign shown for the gender.
    pub fn text(&self) -> (text: &'static str)
        ensures
            text@ == self.spec_text(),
    {
        match self {
            UserGender::Female => "♀️",
            UserGender::Male => "♂️",
        }
    }
}

/// Which gender a user wants to meet.
#[derive(Clone, Copy, Debug, PartialEq, Eq, Structural)]
pub enum GenderFilter {
    Female,
    Male,
    All,
}

impl From<Option<entities::Gender>> for GenderFilter {
    fn from(value: Option<entities::Gender>) -> (filter: Self) {
        match value {
            Some(entities::Gender::Female) => Self::Female,
            Some(entities::Gender::Male) => Self::Male,
            None => Self::All,
        }
    }
}

impl FromSpecImpl<Option<entities::Gender>> for GenderFilter {
    open spec fn obeys_from_spec() -> bool {
        true
    }

    open spec fn from_spec(value: Option<entities::Gender>) -> Self {
        Self::of_stored(value)
    }
}

impl GenderFilter {
    /// The filter that a stored one stands for.
    pub open spec fn of_stored(value: Option<entities::Gender>) -> GenderFilter {
        match value {
            Some(entities::Gender::Female) => GenderFilter::Female,
            Some(entities::Gender::Male) => GenderFilter::Male,
            None => GenderFilter::All,
        }
    }

    /// The stored form: a gender, or nothing where any will do.
    pub open spec fn spec_stored(self) -> Option<entities::Gender> {
        match self {
            GenderFilter::Female => Some(entities::Gender::Female),
            GenderFilter::Male => Some(entities::Gender::Male),
            GenderFilter::All => None,
        }
    }

    /// The stored form: a gender, or nothing where any will do.
    #[verifier::when_used_as_spec(spec_stored)]
    pub fn stored(self) -> (gender: Option<entities::Gender>)
        ensures
            gender == self.spec_stored(),
    {
        match self {
            GenderFilter::Female => Some(entities::Gender::Female),
            GenderFilter::Male => Some(entities::Gender::Male),
            GenderFilter::All => None,
        }
    }

    /// The filter that an answer's text stands for.
    pub open spec fn spec_from_str(value: Seq<char>) -> Result<GenderFilter, ()> {
        if value == "Девушку"@ {
            Ok(GenderFilter::Female)
        } else if value == "Парня"@ {
            Ok(GenderFilter::Male)
        } else if value == "Не важно"@ {
            Ok(GenderFilter::All)
        } else {
            Err(())
        }
    }

    /// The filter that an answer's text stands for; any other text is
    /// refused.
    pub fn from_str(value: &str) -> (filter: Result<GenderFilter, ()>)
        ensures
            filter == Self::spec_from_str(value@),
    {
        if same_text(value, "Девушку") {
            Ok(GenderFilter::Female)
        } else if same_text(value, "Парня") {
            Ok(GenderFilter::Male)
        } else if same_text(value, "Не важно") {
            Ok(GenderFilter::All)
        } else {
            Err(())
        }
    }

    /// The words shown for the filter.
    pub open spec fn spec_text(self) -> Seq<char> {
        match self {
            GenderFilter::Female => "Девушку"@,
            GenderFilter::Male => "Парня"@,
            GenderFilter::All => "Не важно"@,
        }
    }

    /// The words shown for the filter.
    pub fn text(&self) -> (text: &'static str)
        ensures
            text@ == self.spec_text(),
    {
        match self {
            GenderFilter::Female => "Девушку",
            GenderFilter::Male => "Парня",
            GenderFilter::All => "Не важно",
        }
    }
}

/// Reading the words of a filter gives the filter back.
pub proof fn lemma_gender_filter_text_reads_back(filter: GenderFilter)
    ensures
        GenderFilter::spec_from_str(filter.spec_text()) == Ok::<GenderFilter, ()>(filter),
{
    reveal_strlit("Девушку");
    reveal_strlit("Парня");
    reveal_strlit("Не важно");
    assert("Девушку"@.len() == 7);
    assert("Парня"@.len() == 5);
    assert("Не важно"@.len() == 8);
}

/// The calendar year in which the school year of `today` ends: the school
/// year turns over in September.
pub open spec fn school_year_end(today: Today) -> int {
    if today.month < 9 {
        today.year as int
    } else {
        today.year + 1
    }
}

/// The year in which a pupil of `grade` leaves school, seen from `today`.
pub open spec fn graduation_year_of(grade: int, today: Today) -> int {
    school_year_end(today) + (11 - grade)
}

/// The grade of a pupil who leaves school in `graduation_year`, seen from
/// `today`.
pub open spec fn grade_of(graduation_year: int, today: Today) -> int {
    11 - (graduation_year - school_year_end(today))
}

/// On one date the two conversions undo each other, whatever the grade.
pub proof fn lemma_grade_year_inverse(grade: int, today: Today)
    ensures
        grade_of(graduation_year_of(grade, today), today) == grade,
{
}

/// On one date the two conversions undo each other, whatever the year.
pub proof fn lemma_year_grade_inverse(graduation_year: int, today: Today)
    ensures
        graduation_year_of(grade_of(graduation_year, today), today) == graduation_year,
{
}

/// Two dates of one school year give one graduation year and one grade.
pub proof fn lemma_same_school_year(grade: int, graduation_year: int, a: Today, b: Today)
    requires
        school_year_end(a) == school_year_end(b),
    ensures
        graduation_year_of(grade, a) == graduation_year_of(grade, b),
        grade_of(graduation_year, a) == grade_of(graduation_year, b),
{
}

/// The year in which a user leaves school.
#[derive(Clone, Copy, Debug, PartialEq, Eq, Structural)]
pub struct GraduationYear(pub i16);

impl From<i16> for GraduationYear {
    fn from(value: i16) -> (year: Self) {
        Self(value)
    }
}

impl FromSpecImpl<i16> for GraduationYear {
    open spec fn obeys_from_spec() -> bool {
        true
    }

    open spec fn from_spec(value: i16) -> Self {
        GraduationYear(value)
    }
}

impl From<GraduationYear> for i16 {
    fn from(value: GraduationYear) -> (year: Self) {
        value.0
    }
}

impl FromSpecImpl<GraduationYear> for i16 {
    open spec fn obeys_from_spec() -> bool {
        true
    }

    open spec fn from_spec(value: GraduationYear) -> Self {
        value.0
    }
}

/// A school grade. The grades that a user can enter run from 1 to 11; one
/// computed from a graduation year may lie outside them.
#[derive(Clone, Copy, Debug, PartialEq, Eq, Structural)]
pub struct Grade(pub i8);

impl TryFrom<i8> for Grade {
    type Error = ();

    fn try_from(value: i8) -> (grade: Result<Self, ()>) {
        if 1 <= value && value <= 11 {
            Ok(Self(value))
        } else {
            Err(())
        }
    }
}

impl TryFromSpecImpl<i8> for Grade {
    open spec fn obeys_try_from_spec() -> bool {
        true
    }

    open spec fn try_from_spec(value: i8) -> Result<Self, ()> {
        if 1 <= value <= 11 {
            Ok(Grade(value))
        } else {
            Err(())
        }
    }
}

impl Grade {
    /// Whether the grade is one that a user can enter.
    pub open spec fn valid(self) -> bool {
        1 <= self.0 <= 11
    }

    /// The grade of a pupil who leaves school in `year`, seen from `today`;
    /// nothing where that number does not fit the type.
    pub open spec fn spec_at(year: GraduationYear, today: Today) -> Option<Grade> {
        if i8::MIN <= grade_of(year.0 as int, today) <= i8::MAX {
            Some(Grade(grade_of(year.0 as int, today) as i8))
        } else {
            None
        }
    }

    /// The grade of a pupil who leaves school in `year`, seen from `today`;
    /// nothing where that number does not fit the type.
    pub fn at(year: GraduationYear, today: Today) -> (grade: Option<Grade>)
        ensures
            grade == Self::spec_at(year, today),
    {
        let end: i64 = if today.month < 9 {
            today.year as i64
        } else {
            today.year as i64 + 1
        };
        let grade: i64 = 11 - (year.0 as i64 - end);
        if -128 <= grade && grade <= 127 {
            Some(Grade(grade as i8))
        } else {
            None
        }
    }

    /// The grade today of a pupil who leaves school in `year`: `at` on the
    /// local date, whichever that is.
    pub fn from_graduation_year(year: GraduationYear) -> (grade: Option<Grade>)
        ensures
            exists|today: Today| today.valid() && grade == Self::spec_at(year, today),
    {
        let today = local_today();
        Self::at(year, today)
    }

    /// What is shown for the grade: its number and the word for it.
    pub open spec fn spec_text(self) -> Seq<char> {
        crate::strings::signed_decimal(self.0 as int) + " класс"@
    }

    /// What is shown for the grade.
    pub fn text(&self) -> (text: String)
        ensures
            text@ == self.spec_text(),
    {
        let mut text = String::new();
        crate::strings::push_signed_decimal(&mut text, self.0 as i64);
        crate::strings::push_text(&mut text, " класс");
        text
    }
}

impl GraduationYear {
    /// The year in which a pupil of `grade` leaves school, seen from
    /// `today`; nothing where that year does not fit the type.
    pub open spec fn spec_at(grade: Grade, today: Today) -> Option<GraduationYear> {
        if i16::MIN <= graduation_year_of(grade.0 as int, today) <= i16::MAX {
            Some(GraduationYear(graduation_year_of(grade.0 as int, today) as i16))
        } else {
            None
        }
    }

    /// The year in which a pupil of `grade` leaves school, seen from
    /// `today`; nothing where that year does not fit the type.
    pub fn at(grade: Grade, today: Today) -> (year: Option<GraduationYear>)
        ensures
            year == Self::spec_at(grade, today),
    {
        let end: i64 = if today.month < 9 {
            today.year as i64
        } else {
            today.year as i64 + 1
        };
        let year: i64 = end + (11 - grade.0 as i64);
        if -32768 <= year && year <= 32767 {
            Some(GraduationYear(year as i16))
        } else {
            None
        }
    }

    /// The year in which a pupil who is in `grade` today leaves school:
    /// `at` on the local date, whichever that is.
    pub fn from_grade(grade: Grade) -> (year: Option<GraduationYear>)
        ensures
            exists|today: Today| today.valid() && year == Self::spec_at(grade, today),
    {
        let today = local_today();
        Self::at(grade, today)
    }
}

/// A grade that was turned into a graduation year comes back from it on the
/// same date.
pub proof fn lemma_grade_round_trip(grade: Grade, today: Today)
    requires
        GraduationYear::spec_at(grade, today).is_some(),
    ensures
        Grade::spec_at(GraduationYear::spec_at(grade, today).unwrap(), today) == Some(grade),
{
}

/// The bits of the subjects, one bit each.
pub const ART: i32 = 0x1;

pub const ASTRONOMY: i32 = 0x2;

pub const BIOLOGY: i32 = 0x4;

pub const CHEMISTRY: i32 = 0x8;

pub const CHINESE: i32 = 0x10;

pub const ECOLOGY: i32 = 0x20;

pub const ECONOMICS: i32 = 0x40;

pub const ENGLISH: i32 = 0x80;

pub const FRENCH: i32 = 0x100;

pub const GEOGRAPHY: i32 = 0x200;

pub const GERMAN: i32 = 0x400;

pub const HISTORY: i32 = 0x800;

pub const INFORMATICS: i32 = 0x1000;

pub const ITALIAN: i32 = 0x2000;

pub const LAW: i32 = 0x4000;

pub const LITERATURE: i32 = 0x8000;

pub const MATH: i32 = 0x1_0000;

pub const PHYSICS: i32 = 0x2_0000;

pub const RUSSIAN: i32 = 0x4_0000;

pub const SAFETY: i32 = 0x8_0000;

pub const SOCIAL: i32 = 0x10_0000;

pub const SPANISH: i32 = 0x20_0000;

pub const SPORT: i32 = 0x40_0000;

pub const TECHNOLOGY: i32 = 0x80_0000;

/// Every subject's bit.
pub const ALL_SUBJECTS: i32 = 0xff_ffff;

/// How many subjects there are.
pub const SUBJECT_COUNT: usize = 24;

/// The bit of the subject at `index`, counting from the lowest bit.
pub open spec fn spec_subject_flag(index: int) -> i32
    recommends
        0 <= index < SUBJECT_COUNT,
{
    if index == 0 {
        ART
    }     else if index == 1 {
        ASTRONOMY
    }     else if index == 2 {
        BIOLOGY
    }     else if index == 3 {
        CHEMISTRY
    }     else if index == 4 {
        CHINESE
    }     else if index == 5 {
        ECOLOGY
    }     else if index == 6 {
        ECONOMICS
    }     else if index == 7 {
        ENGLISH
    }     else if index == 8 {
        FRENCH
    }     else if index == 9 {
        GEOGRAPHY
    }     else if index == 10 {
        GERMAN
    }     else if index == 11 {
        HISTORY
    }     else if index == 12 {
        INFORMATICS
    }     else if index == 13 {
        ITALIAN
    }     else if index == 14 {
        LAW
    }     else if index == 15 {
        LITERATURE
    }     else if index == 16 {
        MATH
    }     else if index == 17 {
        PHYSICS
    }     else if index == 18 {
        RUSSIAN
    }     else if index == 19 {
        SAFETY
    }     else if index == 20 {
        SOCIAL
    }     else if index == 21 {
        SPANISH
    }     else if index == 22 {
        SPORT
    } else {
        TECHNOLOGY
    }
}

/// The bit of the subject at `index`, counting from the lowest bit.
pub fn subject_flag(index: usize) -> (flag: i32)
    requires
        index < SUBJECT_COUNT,
    ensures
        flag == spec_subject_flag(index as int),
        subject_name(flag).is_some(),
{
    if index == 0 {
        ART
    }     else if index == 1 {
        ASTRONOMY
    }     else if index == 2 {
        BIOLOGY
    }     else if index == 3 {
        CHEMISTRY
    }     else if index == 4 {
        CHINESE
    }     else if index == 5 {
        ECOLOGY
    }     else if index == 6 {
        ECONOMICS
    }     else if index == 7 {
        ENGLISH
    }     else if index == 8 {
        FRENCH
    }     else if index == 9 {
        GEOGRAPHY
    }     else if index == 10 {
        GERMAN
    }     else if index == 11 {
        HISTORY
    }     else if index == 12 {
        INFORMATICS
    }     else if index == 13 {
        ITALIAN
    }     else if index == 14 {
        LAW
    }     else if index == 15 {
        LITERATURE
    }     else if index == 16 {
        MATH
    }     else if index == 17 {
        PHYSICS
    }     else if index == 18 {
        RUSSIAN
    }     else if index == 19 {
        SAFETY
    }     else if index == 20 {
        SOCIAL
    }     else if index == 21 {
        SPANISH
    }     else if index == 22 {
        SPORT
    } else {
        TECHNOLOGY
    }
}

/// Whether `bits` holds the bits of subjects only.
pub open spec fn valid_subject_bits(bits: i32) -> bool {
    bits & !ALL_SUBJECTS == 0
}

/// The name shown for the one subject whose bit is `bits`; nothing for no
/// subject, several, or an unknown bit.
pub open spec fn subject_name(bits: i32) -> Option<Seq<char>> {
    if bits == ART {
        Some("Искусство 🎨"@)
    }     else if bits == ASTRONOMY {
        Some("Астрономия 🌌"@)
    }     else if bits == BIOLOGY {
        Some("Биология 🔬"@)
    }     else if bits == CHEMISTRY {
        Some("Химия 🧪"@)
    }     else if bits == CHINESE {
        Some("Китайский 🇨🇳"@)
    }     else if bits == ECOLOGY {
        Some("Экология ♻️"@)
    }     else if bits == ECONOMICS {
        Some("Экономика 💶"@)
    }     else if bits == ENGLISH {
        Some("Английский 🇬🇧"@)
    }     else if bits == FRENCH {
        Some("Французский 🇫🇷"@)
    }     else if bits == GEOGRAPHY {
        Some("География 🌎"@)
    }     else if bits == GERMAN {
        Some("Немецкий 🇩🇪"@)
    }     else if bits == HISTORY {
        Some("История 📰"@)
    }     else if bits == INFORMATICS {
        Some("Информатика 💻"@)
    }     else if bits == ITALIAN {
        Some("Итальянский 🇮🇹"@)
    }     else if bits == LAW {
        Some("Право 👨‍⚖️"@)
    }     else if bits == LITERATURE {
        Some("Литература 📖"@)
    }     else if bits == MATH {
        Some("Математика 📐"@)
    }     else if bits == PHYSICS {
        Some("Физика ☢️"@)
    }     else if bits == RUSSIAN {
        Some("Русский 🇷🇺"@)
    }     else if bits == SAFETY {
        Some("ОБЖ 🪖"@)
    }     else if bits == SOCIAL {
        Some("Обществознание 👫"@)
    }     else if bits == SPANISH {
        Some("Испанский 🇪🇸"@)
    }     else if bits == SPORT {
        Some("Физкультура 🏐"@)
    }     else if bits == TECHNOLOGY {
        Some("Технология 🚜"@)
    } else {
        None
    }
}

/// A set of subjects, held as the union of their bits.
#[derive(Clone, Copy, Debug, PartialEq, Eq, Hash, Structural)]
pub struct Subjects {
    bits: i32,
}

impl View for Subjects {
    type V = i32;

    /// The union of the bits of the subjects in the set.
    closed spec fn view(&self) -> i32 {
        self.bits
    }
}

impl Subjects {
    #[verifier::type_invariant]
    closed spec fn known_bits_only(self) -> bool {
        valid_subject_bits(self.bits)
    }

    /// The set that `bits` stands for; nothing where a bit is set that is
    /// no subject's.
    pub closed spec fn spec_from_bits(bits: i32) -> Option<Subjects> {
        if valid_subject_bits(bits) {
            Some(Subjects { bits })
        } else {
            None
        }
    }

    /// The set that `bits` stands for; nothing where a bit is set that is
    /// no subject's.
    pub fn from_bits(bits: i32) -> (subjects: Option<Subjects>)
        ensures
            subjects == Self::spec_from_bits(bits),
            subjects.is_some() == valid_subject_bits(bits),
            subjects.is_some() ==> subjects.unwrap()@ == bits,
    {
        if bits & !ALL_SUBJECTS == 0 {
            Some(Subjects { bits })
        } else {
            None
        }
    }

    /// The union of the bits of the subjects in the set.
    pub fn bits(&self) -> (bits: i32)
        ensures
            bits == self@,
            valid_subject_bits(bits),
    {
        proof {
            use_type_invariant(self);
        }
        self.bits
    }

    /// The set of no subject.
    pub closed spec fn spec_empty() -> Subjects {
        Subjects { bits: 0 }
    }

    /// The subjects that are in exactly one of the two sets.
    pub closed spec fn spec_toggled(self, other: Subjects) -> Subjects {
        Subjects { bits: self.bits ^ other.bits }
    }

    /// The set of no subject.
    pub fn empty() -> (subjects: Subjects)
        ensures
            subjects == Self::spec_empty(),
            subjects@ == 0,
    {
        assert(0i32 & !ALL_SUBJECTS == 0) by (bit_vector);
        Subjects { bits: 0 }
    }

    /// The set of every subject.
    pub fn all() -> (subjects: Subjects)
        ensures
            subjects@ == ALL_SUBJECTS,
    {
        assert(ALL_SUBJECTS & !ALL_SUBJECTS == 0) by (bit_vector);
        Subjects { bits: ALL_SUBJECTS }
    }

    /// Whether the set holds no subject.
    pub fn is_empty(&self) -> (empty: bool)
        ensures
            empty == (self@ == 0),
    {
        self.bits == 0
    }

    /// Whether every subject of `other` is in the set.
    pub fn contains(&self, other: Subjects) -> (contained: bool)
        ensures
            contained == (self@ & other@ == other@),
    {
        self.bits & other.bits == other.bits
    }

    /// Whether the two sets share a subject.
    pub fn intersects(&self, other: Subjects) -> (shared: bool)
        ensures
            shared == (self@ & other@ != 0),
    {
        self.bits & other.bits != 0
    }

    /// The subjects that are in exactly one of the two sets: what a press
    /// on the buttons of `other` makes of the set.
    pub fn toggled(&self, other: Subjects) -> (subjects: Subjects)
        ensures
            subjects == self.spec_toggled(other),
            subjects@ == self@ ^ other@,
    {
        proof {
            use_type_invariant(self);
            use_type_invariant(&other);
        }
        let a = self.bits;
        let b = other.bits;
        assert((a ^ b) & !ALL_SUBJECTS == 0) by (bit_vector)
            requires
                a & !ALL_SUBJECTS == 0,
                b & !ALL_SUBJECTS == 0,
        ;
        Subjects { bits: a ^ b }
    }

    /// The name shown for the set where it is exactly one subject.
    pub fn name(&self) -> (name: Result<&'static str, ()>)
        ensures
            name.is_ok() == subject_name(self@).is_some(),
            name.is_ok() ==> name.unwrap()@ == subject_name(self@).unwrap(),
    {
        name_of_bits(self.bits)
    }
}

/// The name shown for the one subject whose bit is `bits`.
pub fn name_of_bits(bits: i32) -> (name: Result<&'static str, ()>)
    ensures
        name.is_ok() == subject_name(bits).is_some(),
        name.is_ok() ==> name.unwrap()@ == subject_name(bits).unwrap(),
{
    if bits == ART {
        Ok("Искусство 🎨")
    }         else if bits == ASTRONOMY {
        Ok("Астрономия 🌌")
    }         else if bits == BIOLOGY {
        Ok("Биология 🔬")
    }         else if bits == CHEMISTRY {
        Ok("Химия 🧪")
    }         else if bits == CHINESE {
        Ok("Китайский 🇨🇳")
    }         else if bits == ECOLOGY {
        Ok("Экология ♻️")
    }         else if bits == ECONOMICS {
        Ok("Экономика 💶")
    }         else if bits == ENGLISH {
        Ok("Английский 🇬🇧")
    }         else if bits == FRENCH {
        Ok("Французский 🇫🇷")
    }         else if bits == GEOGRAPHY {
        Ok("География 🌎")
    }         else if bits == GERMAN {
        Ok("Немецкий 🇩🇪")
    }         else if bits == HISTORY {
        Ok("История 📰")
    }         else if bits == INFORMATICS {
        Ok("Информатика 💻")
    }         else if bits == ITALIAN {
        Ok("Итальянский 🇮🇹")
    }         else if bits == LAW {
        Ok("Право 👨‍⚖️")
    }         else if bits == LITERATURE {
        Ok("Литература 📖")
    }         else if bits == MATH {
        Ok("Математика 📐")
    }         else if bits == PHYSICS {
        Ok("Физика ☢️")
    }         else if bits == RUSSIAN {
        Ok("Русский 🇷🇺")
    }         else if bits == SAFETY {
        Ok("ОБЖ 🪖")
    }         else if bits == SOCIAL {
        Ok("Обществознание 👫")
    }         else if bits == SPANISH {
        Ok("Испанский 🇪🇸")
    }         else if bits == SPORT {
        Ok("Физкультура 🏐")
    }         else if bits == TECHNOLOGY {
        Ok("Технология 🚜")
    } else {
        Err(())
    }
}

/// Every pattern of known bits is read as a set, and the set is stored
/// under the same pattern.
pub proof fn lemma_subject_bits_round_trip(bits: i32)
    requires
        valid_subject_bits(bits),
    ensures
        Subjects::spec_from_bits(bits).is_some(),
        Subjects::spec_from_bits(bits).unwrap()@ == bits,
{
}

/// A pattern with a bit that is no subject's is read as nothing.
pub proof fn lemma_unknown_subject_bits(bits: i32)
    requires
        !valid_subject_bits(bits),
    ensures
        Subjects::spec_from_bits(bits).is_none(),
{
}

/// A set whose bits are known is what its stored bits are read as.
pub proof fn lemma_subjects_stored_and_read(subjects: Subjects)
    requires
        valid_subject_bits(subjects@),
    ensures
        Subjects::spec_from_bits(subjects@) == Some(subjects),
{
}

/// The subjects a user studies.
#[derive(Clone, Copy, Debug, PartialEq, Eq, Structural)]
pub struct UserSubjects(pub Subjects);

/// The subjects of which a partner must study at least one; empty where
/// any partner will do.
#[derive(Clone, Copy, Debug, PartialEq, Eq, Structural)]
pub struct SubjectsFilter(pub Subjects);

/// The set of subjects that stored `bits` stand for.
pub fn decode_subjects(bits: i32) -> (subjects: Result<Subjects, MatchError>)
    ensures
        subjects == (match Subjects::spec_from_bits(bits) {
            Some(read) => Ok::<Subjects, MatchError>(read),
            None => Err::<Subjects, MatchError>(MatchError::InvalidSubjectBits),
        }),
        subjects.is_ok() == valid_subject_bits(bits),
        subjects.is_ok() ==> subjects.unwrap()@ == bits,
{
    match Subjects::from_bits(bits) {
        Some(subjects) => Ok(subjects),
        None => Err(MatchError::InvalidSubjectBits),
    }
}

/// The bits under which a set of subjects is stored.
pub fn encode_subjects(subjects: Subjects) -> (bits: i32)
    ensures
        bits == subjects@,
        valid_subject_bits(bits),
{
    subjects.bits()
}

impl UserSubjects {
    /// The subjects that stored `bits` stand for.
    pub fn try_from(value: i32) -> (subjects: Result<UserSubjects, MatchError>)
        ensures
            subjects.is_ok() == valid_subject_bits(value),
            subjects.is_ok() ==> subjects.unwrap().0@ == value,
            subjects.is_err() ==> subjects.unwrap_err() == MatchError::InvalidSubjectBits,
    {
        match decode_subjects(value) {
            Ok(subjects) => Ok(UserSubjects(subjects)),
            Err(e) => Err(e),
        }
    }
}

impl SubjectsFilter {
    /// The filter that stored `bits` stand for.
    pub fn try_from(value: i32) -> (filter: Result<SubjectsFilter, MatchError>)
        ensures
            filter.is_ok() == valid_subject_bits(value),
            filter.is_ok() ==> filter.unwrap().0@ == value,
            filter.is_err() ==> filter.unwrap_err() == MatchError::InvalidSubjectBits,
    {
        match decode_subjects(value) {
            Ok(subjects) => Ok(SubjectsFilter(subjects)),
            Err(e) => Err(e),
        }
    }
}

/// The bit of the purpose of finding friends.
pub const FRIENDSHIP: i16 = 0x1;

/// The bit of the purpose of studying together.
pub const STUDIES: i16 = 0x2;

/// The bit of the purpose of a relationship.
pub const RELATIONSHIP: i16 = 0x4;

/// Every purpose's bit.
pub const ALL_PURPOSES: i16 = 7;

/// Whether `bits` holds the bits of purposes only.
pub open spec fn valid_purpose_bits(bits: i16) -> bool {
    bits & !ALL_PURPOSES == 0
}

/// The name shown for the one purpose whose bit is `bits`; nothing for no
/// purpose, several, or an unknown bit.
pub open spec fn purpose_name(bits: i16) -> Option<Seq<char>> {
    if bits == FRIENDSHIP {
        Some("Дружба 🧑‍🤝‍🧑"@)
    } else if bits == STUDIES {
        Some("Учёба 📚"@)
    } else if bits == RELATIONSHIP {
        Some("Отношения 💕"@)
    } else {
        None
    }
}

/// The names of the purposes in `bits`, lowest bit first.
pub open spec fn purpose_names(bits: i16) -> Seq<Seq<char>> {
    (if bits & FRIENDSHIP != 0 {
        seq![purpose_name(FRIENDSHIP).unwrap()]
    } else {
        Seq::empty()
    }) + (if bits & STUDIES != 0 {
        seq![purpose_name(STUDIES).unwrap()]
    } else {
        Seq::empty()
    }) + (if bits & RELATIONSHIP != 0 {
        seq![purpose_name(RELATIONSHIP).unwrap()]
    } else {
        Seq::empty()
    })
}

/// A set of dating purposes, held as the union of their bits.
#[derive(Clone, Copy, Debug, PartialEq, Eq, Hash, Structural)]
pub struct DatingPurpose {
    bits: i16,
}

impl View for DatingPurpose {
    type V = i16;

    /// The union of the bits of the purposes in the set.
    closed spec fn view(&self) -> i16 {
        self.bits
    }
}

impl DatingPurpose {
    #[verifier::type_invariant]
    closed spec fn known_bits_only(self) -> bool {
        valid_purpose_bits(self.bits)
    }

    /// The set that `bits` stands for; nothing where a bit is set that is
    /// no purpose's.
    pub closed spec fn spec_from_bits(bits: i16) -> Option<DatingPurpose> {
        if valid_purpose_bits(bits) {
            Some(DatingPurpose { bits })
        } else {
            None
        }
    }

    /// The set that `bits` stands for; nothing where a bit is set that is
    /// no purpose's.
    pub fn from_bits(bits: i16) -> (purpose: Option<DatingPurpose>)
        ensures
            purpose == Self::spec_from_bits(bits),
            purpose.is_some() == valid_purpose_bits(bits),
            purpose.is_some() ==> purpose.unwrap()@ == bits,
    {
        if bits & !ALL_PURPOSES == 0 {
            Some(DatingPurpose { bits })
        } else {
            None
        }
    }

    /// The set that stored `bits` stand for.
    pub fn try_from(value: i16) -> (purpose: Result<DatingPurpose, MatchError>)
        ensures
            purpose == (match Self::spec_from_bits(value) {
                Some(read) => Ok::<DatingPurpose, MatchError>(read),
                None => Err::<DatingPurpose, MatchError>(MatchError::InvalidPurposeBits),
            }),
            purpose.is_ok() == valid_purpose_bits(value),
            purpose.is_ok() ==> purpose.unwrap()@ == value,
    {
        match Self::from_bits(value) {
            Some(purpose) => Ok(purpose),
            None => Err(MatchError::InvalidPurposeBits),
        }
    }

    /// The union of the bits of the purposes in the set.
    pub fn bits(&self) -> (bits: i16)
        ensures
            bits == self@,
            valid_purpose_bits(bits),
    {
        proof {
            use_type_invariant(self);
        }
        self.bits
    }

    /// The set of no purpose.
    pub closed spec fn spec_empty() -> DatingPurpose {
        DatingPurpose { bits: 0 }
    }

    /// The purposes that are in exactly one of the two sets.
    pub closed spec fn spec_toggled(self, other: DatingPurpose) -> DatingPurpose {
        DatingPurpose { bits: self.bits ^ other.bits }
    }

    /// The set of no purpose.
    pub fn empty() -> (purpose: DatingPurpose)
        ensures
            purpose == Self::spec_empty(),
            purpose@ == 0,
    {
        assert(0i16 & !ALL_PURPOSES == 0) by (bit_vector);
        DatingPurpose { bits: 0 }
    }

    /// The set of every purpose.
    pub fn all() -> (purpose: DatingPurpose)
        ensures
            purpose@ == ALL_PURPOSES,
    {
        assert(ALL_PURPOSES & !ALL_PURPOSES == 0) by (bit_vector);
        DatingPurpose { bits: ALL_PURPOSES }
    }

    /// Whether the set holds no purpose.
    pub fn is_empty(&self) -> (empty: bool)
        ensures
            empty == (self@ == 0),
    {
        self.bits == 0
    }

    /// Whether every purpose of `other` is in the set.
    pub fn contains(&self, other: DatingPurpose) -> (contained: bool)
        ensures
            contained == (self@ & other@ == other@),
    {
        self.bits & other.bits == other.bits
    }

    /// Whether the two sets share a purpose.
    pub fn intersects(&self, other: DatingPurpose) -> (shared: bool)
        ensures
            shared == (self@ & other@ != 0),
    {
        self.bits & other.bits != 0
    }

    /// The purposes that are in exactly one of the two sets.
    pub fn toggled(&self, other: DatingPurpose) -> (purpose: DatingPurpose)
        ensures
            purpose == self.spec_toggled(other),
            purpose@ == self@ ^ other@,
    {
        proof {
            use_type_invariant(self);
            use_type_invariant(&other);
        }
        let a = self.bits;
        let b = other.bits;
        assert((a ^ b) & !ALL_PURPOSES == 0) by (bit_vector)
            requires
                a & !ALL_PURPOSES == 0,
                b & !ALL_PURPOSES == 0,
        ;
        DatingPurpose { bits: a ^ b }
    }

    /// The name shown for the set where it is exactly one purpose.
    pub fn name(&self) -> (name: Result<&'static str, ()>)
        ensures
            name.is_ok() == purpose_name(self@).is_some(),
            name.is_ok() ==> name.unwrap()@ == purpose_name(self@).unwrap(),
    {
        if self.bits == FRIENDSHIP {
            Ok("Дружба 🧑‍🤝‍🧑")
        } else if self.bits == STUDIES {
            Ok("Учёба 📚")
        } else if self.bits == RELATIONSHIP {
            Ok("Отношения 💕")
        } else {
            Err(())
        }
    }

    /// What is shown for the set: the names of its purposes, lowest bit
    /// first, with a comma and a space between two.
    pub open spec fn spec_text(self) -> Seq<char> {
        spec_join(purpose_names(self@), ", "@)
    }

    /// What is shown for the set.
    pub fn text(&self) -> (text: String)
        ensures
            text@ == self.spec_text(),
    {
        let mut names: Vec<&'static str> = Vec::new();
        let ghost first: Seq<Seq<char>> = if self.bits & FRIENDSHIP != 0 {
            seq![purpose_name(FRIENDSHIP).unwrap()]
        } else {
            Seq::empty()
        };
        let ghost second: Seq<Seq<char>> = if self.bits & STUDIES != 0 {
            seq![purpose_name(STUDIES).unwrap()]
        } else {
            Seq::empty()
        };
        let ghost third: Seq<Seq<char>> = if self.bits & RELATIONSHIP != 0 {
            seq![purpose_name(RELATIONSHIP).unwrap()]
        } else {
            Seq::empty()
        };
        if self.bits & FRIENDSHIP != 0 {
            names.push("Дружба 🧑‍🤝‍🧑");
        }
        assert(seq_views(names@) =~= first);
        let ghost one = names@;
        if self.bits & STUDIES != 0 {
            names.push("Учёба 📚");
            assert(seq_views(names@) =~= seq_views(one).push("Учёба 📚"@));
        }
        assert(seq_views(names@) =~= first + second);
        let ghost two = names@;
        if self.bits & RELATIONSHIP != 0 {
            names.push("Отношения 💕");
            assert(seq_views(names@) =~= seq_views(two).push("Отношения 💕"@));
        }
        assert(seq_views(names@) =~= first + second + third);
        join_texts(&names, ", ")
    }
}

/// The set of purposes that stored `bits` stand for.
pub fn decode_purpose(bits: i16) -> (purpose: Result<DatingPurpose, MatchError>)
    ensures
        purpose == (match DatingPurpose::spec_from_bits(bits) {
            Some(read) => Ok::<DatingPurpose, MatchError>(read),
            None => Err::<DatingPurpose, MatchError>(MatchError::InvalidPurposeBits),
        }),
        purpose.is_ok() == valid_purpose_bits(bits),
        purpose.is_ok() ==> purpose.unwrap()@ == bits,
{
    DatingPurpose::try_from(bits)
}

/// The bits under which a set of purposes is stored.
pub fn encode_purpose(purpose: DatingPurpose) -> (bits: i16)
    ensures
        bits == purpose@,
        valid_purpose_bits(bits),
{
    purpose.bits()
}

/// Every pattern of known bits is read as a set of purposes, and the set is
/// stored under the same pattern.
pub proof fn lemma_purpose_bits_round_trip(bits: i16)
    requires
        valid_purpose_bits(bits),
    ensures
        DatingPurpose::spec_from_bits(bits).is_some(),
        DatingPurpose::spec_from_bits(bits).unwrap()@ == bits,
{
}

/// A set of purposes whose bits are known is what its stored bits are read
/// as.
pub proof fn lemma_purpose_stored_and_read(purpose: DatingPurpose)
    requires
        valid_purpose_bits(purpose@),
    ensures
        DatingPurpose::spec_from_bits(purpose@) == Some(purpose),
{
}

/// The names of the subjects in `bits` among the first `n`, lowest bit
/// first.
pub open spec fn subject_names_upto(bits: i32, n: int) -> Seq<Seq<char>>
    decreases n,
{
    if n <= 0 {
        Seq::empty()
    } else if bits & spec_subject_flag(n - 1) == spec_subject_flag(n - 1) {
        subject_names_upto(bits, n - 1).push(subject_name(spec_subject_flag(n - 1)).unwrap())
    } else {
        subject_names_upto(bits, n - 1)
    }
}

/// The names of the subjects in `bits`, lowest bit first.
pub open spec fn subject_names(bits: i32) -> Seq<Seq<char>> {
    subject_names_upto(bits, SUBJECT_COUNT as int)
}

/// Whether `names` lists the subjects in `bits` in the order of their
/// lower-case names: each subject's name once, no other name.
pub open spec fn is_subject_listing(names: Seq<Seq<char>>, bits: i32) -> bool {
    names.to_multiset() == subject_names(bits).to_multiset() && in_lowercase_order(names)
}

/// Whether `text` shows the subjects in `bits`: their names in the order of
/// their lower-case forms, with a comma and a space between two.
pub open spec fn is_subjects_text(text: Seq<char>, bits: i32) -> bool {
    exists|names: Seq<Seq<char>>| #[trigger]
        is_subject_listing(names, bits) && text == spec_join(names, ", "@)
}

impl Subjects {
    /// The names of the subjects in the set, lowest bit first.
    pub fn names(&self) -> (names: Vec<&'static str>)
        ensures
            seq_views(names@) == subject_names(self@),
    {
        let mut names: Vec<&'static str> = Vec::new();
        let mut i: usize = 0;
        while i < SUBJECT_COUNT
            invariant
                i <= SUBJECT_COUNT,
                seq_views(names@) == subject_names_upto(self@, i as int),
            decreases SUBJECT_COUNT - i,
        {
            let flag = subject_flag(i);
            if self.bits & flag == flag {
                let ghost before = names@;
                match name_of_bits(flag) {
                    Ok(name) => {
                        names.push(name);
                        assert(seq_views(names@) =~= seq_views(before).push(name@));
                    },
                    Err(_) => {},
                }
            }
            i += 1;
        }
        names
    }

    /// The names of the subjects in the set, in the order of their
    /// lower-case forms.
    pub fn sorted_names(&self) -> (names: Vec<&'static str>)
        ensures
            is_subject_listing(seq_views(names@), self@),
    {
        sorted_by_lowercase(self.names())
    }

    /// What is shown for the set: the names of its subjects in the order of
    /// their lower-case forms, with a comma and a space between two.
    pub fn text(&self) -> (text: String)
        ensures
            is_subjects_text(text@, self@),
    {
        let names = self.sorted_names();
        let text = join_texts(&names, ", ");
        assert(is_subject_listing(seq_views(names@), self@));
        text
    }
}

impl UserSubjects {
    /// What is shown for the subjects a user studies, given the `listing`
    /// of their names.
    pub open spec fn spec_text(self, listing: Seq<char>) -> Seq<char> {
        if self.0@ != 0 {
            "Ботает: "@ + listing
        } else {
            "Ничего не ботает."@
        }
    }

    /// What is shown for the subjects a user studies.
    pub fn text(&self) -> (text: String)
        ensures
            exists|listing: Seq<char>| #[trigger]
                is_subjects_text(listing, self.0@) && text@ == self.spec_text(listing),
    {
        let listing = self.0.text();
        let text = self.text_with(listing.as_str());
        assert(is_subjects_text(listing@, self.0@));
        text
    }

    /// What is shown for the subjects a user studies, given the `listing`
    /// of their names.
    pub fn text_with(&self, listing: &str) -> (text: String)
        ensures
            text@ == self.spec_text(listing@),
    {
        let mut text = String::new();
        if self.0.bits() != 0 {
            push_text(&mut text, "Ботает: ");
            push_text(&mut text, listing);
        } else {
            push_text(&mut text, "Ничего не ботает.");
        }
        text
    }
}

impl SubjectsFilter {
    /// What is shown for the subjects a user asks for, given the `listing`
    /// of their names.
    pub open spec fn spec_text(self, listing: Seq<char>) -> Seq<char> {
        if self.0@ != 0 {
            "Другой человек должен ботать хотя-бы что-то из этого: "@ + listing
        } else {
            "Вам не важно, что ботает другой человек"@
        }
    }

    /// What is shown for the subjects a user asks for.
    pub fn text(&self) -> (text: String)
        ensures
            exists|listing: Seq<char>| #[trigger]
                is_subjects_text(listing, self.0@) && text@ == self.spec_text(listing),
    {
        let listing = self.0.text();
        let text = self.text_with(listing.as_str());
        assert(is_subjects_text(listing@, self.0@));
        text
    }

    /// What is shown for the subjects a user asks for, given the `listing`
    /// of their names.
    pub fn text_with(&self, listing: &str) -> (text: String)
        ensures
            text@ == self.spec_text(listing@),
    {
        let mut text = String::new();
        if self.0.bits() != 0 {
            push_text(&mut text, "Другой человек должен ботать хотя-бы что-то из этого: ");
            push_text(&mut text, listing);
        } else {
            push_text(&mut text, "Вам не важно, что ботает другой человек");
        }
        text
    }
}

/// What a user has set, as typed values; a field that is `None` is not
/// known.
#[derive(Debug, PartialEq, Eq)]
pub struct UserSettings {
    pub id: i64,
    pub name: Option<String>,
    pub gender: Option<UserGender>,
    pub gender_filter: Option<GenderFilter>,
    pub about: Option<String>,
    pub active: Option<bool>,
    pub grade: Option<Grade>,
    pub grade_up_filter: Option<i16>,
    pub grade_down_filter: Option<i16>,
    pub subjects: Option<UserSubjects>,
    pub subjects_filter: Option<SubjectsFilter>,
    pub dating_purpose: Option<DatingPurpose>,
    pub city: Option<City>,
    pub location_filter: Option<LocationFilter>,
}

/// Why the stored values of `user` cannot be read on `today`, if they
/// cannot: the first of a grade that does not fit, subject bits, subject
/// filter bits and purpose bits that are not known.
pub open spec fn reading_failure(user: entities::User, today: Today) -> Option<MatchError> {
    if Grade::spec_at(GraduationYear(user.graduation_year), today).is_none() {
        Some(MatchError::GradeOutOfRange)
    } else if !valid_subject_bits(user.subjects) {
        Some(MatchError::InvalidSubjectBits)
    } else if !valid_subject_bits(user.subjects_filter) {
        Some(MatchError::InvalidSubjectBits)
    } else if !valid_purpose_bits(user.dating_purpose) {
        Some(MatchError::InvalidPurposeBits)
    } else {
        None
    }
}

impl UserSettings {
    /// The settings of which only the id is known.
    pub fn new(id: i64) -> (settings: UserSettings)
        ensures
            settings == (UserSettings {
                id,
                name: None,
                gender: None,
                gender_filter: None,
                about: None,
                active: None,
                grade: None,
                grade_up_filter: None,
                grade_down_filter: None,
                subjects: None,
                subjects_filter: None,
                dating_purpose: None,
                city: None,
                location_filter: None,
            }),
    {
        UserSettings {
            id,
            name: None,
            gender: None,
            gender_filter: None,
            about: None,
            active: None,
            grade: None,
            grade_up_filter: None,
            grade_down_filter: None,
            subjects: None,
            subjects_filter: None,
            dating_purpose: None,
            city: None,
            location_filter: None,
        }
    }

    /// Whether `self` holds `user`, every field known and typed, with the
    /// grade as it is on `today`.
    pub open spec fn holds(self, user: entities::User, today: Today) -> bool {
        &&& self.id == user.id
        &&& self.name == Some(user.name)
        &&& self.gender == Some(UserGender::of_stored(user.gender))
        &&& self.gender_filter == Some(GenderFilter::of_stored(user.gender_filter))
        &&& self.about == Some(user.about)
        &&& self.active == Some(user.active)
        &&& self.grade == Grade::spec_at(GraduationYear(user.graduation_year), today)
        &&& self.grade_up_filter == Some(user.grade_up_filter)
        &&& self.grade_down_filter == Some(user.grade_down_filter)
        &&& self.subjects.is_some() && self.subjects.unwrap().0@ == user.subjects
        &&& self.subjects_filter.is_some() && self.subjects_filter.unwrap().0@
            == user.subjects_filter
        &&& self.dating_purpose.is_some() && self.dating_purpose.unwrap()@ == user.dating_purpose
        &&& self.city == Some(City(user.city))
        &&& self.location_filter == Some(LocationFilter::of_stored(user.location_filter))
    }

    /// The settings that the stored `user` stands for on `today`.
    pub fn at(user: entities::User, today: Today) -> (settings: Result<UserSettings, MatchError>)
        ensures
            settings.is_err() == reading_failure(user, today).is_some(),
            settings.is_err() ==> Some(settings.unwrap_err()) == reading_failure(user, today),
            settings.is_ok() ==> settings.unwrap().holds(user, today),
    {
        let grade = match Grade::at(GraduationYear(user.graduation_year), today) {
            Some(grade) => grade,
            None => {
                return Err(MatchError::GradeOutOfRange);
            },
        };
        let subjects = match UserSubjects::try_from(user.subjects) {
            Ok(subjects) => subjects,
            Err(e) => {
                return Err(e);
            },
        };
        let subjects_filter = match SubjectsFilter::try_from(user.subjects_filter) {
            Ok(filter) => filter,
            Err(e) => {
                return Err(e);
            },
        };
        let dating_purpose = match DatingPurpose::try_from(user.dating_purpose) {
            Ok(purpose) => purpose,
            Err(e) => {
                return Err(e);
            },
        };
        Ok(
            UserSettings {
                id: user.id,
                name: Some(user.name),
                gender: Some(UserGender::from(user.gender)),
                gender_filter: Some(GenderFilter::from(user.gender_filter)),
                about: Some(user.about),
                active: Some(user.active),
                grade: Some(grade),
                grade_up_filter: Some(user.grade_up_filter),
                grade_down_filter: Some(user.grade_down_filter),
                subjects: Some(subjects),
                subjects_filter: Some(subjects_filter),
                dating_purpose: Some(dating_purpose),
                city: Some(City(user.city)),
                location_filter: Some(LocationFilter::from(user.location_filter)),
            },
        )
    }

    /// The settings that the stored `user` stands for today: `at` on the
    /// local date, whichever that is.
    pub fn try_from(user: entities::User) -> (settings: Result<UserSettings, MatchError>)
        ensures
            exists|today: Today|
                today.valid() && settings.is_err() == reading_failure(user, today).is_some() && (
                settings.is_err() ==> Some(settings.unwrap_err()) == reading_failure(user, today))
                    && (settings.is_ok() ==> settings.unwrap().holds(user, today)),
    {
        let today = local_today();
        Self::at(user, today)
    }
}

/// What others see of a user.
#[derive(Debug, PartialEq, Eq)]
pub struct PublicProfile {
    pub name: String,
    pub gender: UserGender,
    pub grade: Grade,
    pub subjects: UserSubjects,
    pub dating_purpose: DatingPurpose,
    pub city: City,
    pub about: String,
}

/// Why the profile of `user` cannot be shown on `today`, if it cannot: the
/// first of a grade that does not fit, subject bits and purpose bits that
/// are not known.
pub open spec fn showing_failure(user: entities::User, today: Today) -> Option<MatchError> {
    if Grade::spec_at(GraduationYear(user.graduation_year), today).is_none() {
        Some(MatchError::GradeOutOfRange)
    } else if !valid_subject_bits(user.subjects) {
        Some(MatchError::InvalidSubjectBits)
    } else if !valid_purpose_bits(user.dating_purpose) {
        Some(MatchError::InvalidPurposeBits)
    } else {
        None
    }
}

impl PublicProfile {
    /// Whether `self` is what others see of `user` on `today`.
    pub open spec fn shows(self, user: entities::User, today: Today) -> bool {
        &&& self.name == user.name
        &&& self.gender == UserGender::of_stored(user.gender)
        &&& Some(self.grade) == Grade::spec_at(GraduationYear(user.graduation_year), today)
        &&& self.subjects.0@ == user.subjects
        &&& self.dating_purpose@ == user.dating_purpose
        &&& self.city == City(user.city)
        &&& self.about == user.about
    }

    /// What others see of `user` on `today`.
    pub fn at(user: entities::User, today: Today) -> (profile: Result<PublicProfile, MatchError>)
        ensures
            profile.is_err() == showing_failure(user, today).is_some(),
            profile.is_err() ==> Some(profile.unwrap_err()) == showing_failure(user, today),
            profile.is_ok() ==> profile.unwrap().shows(user, today),
    {
        let grade = match Grade::at(GraduationYear(user.graduation_year), today) {
            Some(grade) => grade,
            None => {
                return Err(MatchError::GradeOutOfRange);
            },
        };
        let subjects = match UserSubjects::try_from(user.subjects) {
            Ok(subjects) => subjects,
            Err(e) => {
                return Err(e);
            },
        };
        let dating_purpose = match DatingPurpose::try_from(user.dating_purpose) {
            Ok(purpose) => purpose,
            Err(e) => {
                return Err(e);
            },
        };
        Ok(
            PublicProfile {
                name: user.name,
                gender: UserGender::from(user.gender),
                grade,
                subjects,
                dating_purpose,
                city: City(user.city),
                about: user.about,
            },
        )
    }

    /// What others see of `user` today: `at` on the local date, whichever
    /// that is.
    pub fn try_from(user: entities::User) -> (profile: Result<PublicProfile, MatchError>)
        ensures
            exists|today: Today|
                today.valid() && profile.is_err() == showing_failure(user, today).is_some() && (
                profile.is_err() ==> Some(profile.unwrap_err()) == showing_failure(user, today))
                    && (profile.is_ok() ==> profile.unwrap().shows(user, today)),
    {
        let today = local_today();
        Self::at(user, today)
    }

    /// The text of the profile, given the `listing` of the subjects' names:
    /// the gender's sign, the name and the grade; the purposes; the
    /// subjects; the city; then the text about oneself.
    pub open spec fn spec_text(self, directory: &Directory, listing: Seq<char>) -> Seq<char> {
        self.gender.spec_text() + " "@ + self.name@ + ", "@ + self.grade.spec_text()
            + ".\n🔎 Интересует: "@ + self.dating_purpose.spec_text() + ".\n📚 "@
            + self.subjects.spec_text(listing) + "\n.🧭 "@ + self.city.spec_text(directory)
            + ".\n\n"@ + self.about@
    }

    /// The text of the profile.
    pub fn text(&self, directory: &Directory) -> (text: String)
        requires
            self.city.0.is_some() ==> directory.knows(self.city.0.unwrap()),
        ensures
            exists|listing: Seq<char>| #[trigger]
                is_subjects_text(listing, self.subjects.0@) && text@ == self.spec_text(
                    directory,
                    listing,
                ),
    {
        let listing = self.subjects.0.text();
        let mut text = String::new();
        push_text(&mut text, self.gender.text());
        push_text(&mut text, " ");
        push_text(&mut text, self.name.as_str());
        push_text(&mut text, ", ");
        push_text(&mut text, self.grade.text().as_str());
        push_text(&mut text, ".\n🔎 Интересует: ");
        push_text(&mut text, self.dating_purpose.text().as_str());
        push_text(&mut text, ".\n📚 ");
        push_text(&mut text, self.subjects.text_with(listing.as_str()).as_str());
        push_text(&mut text, "\n.🧭 ");
        push_text(&mut text, self.city.text(directory).as_str());
        push_text(&mut text, ".\n\n");
        push_text(&mut text, self.about.as_str());
        assert(is_subjects_text(listing@, self.subjects.0@));
        text
    }
}

/// The empty sets hold no bit, and switching holds the bits that are in
/// exactly one of the two.
pub proof fn lemma_set_views(a: Subjects, b: Subjects, p: DatingPurpose, q: DatingPurpose)
    ensures
        Subjects::spec_empty()@ == 0,
        a.spec_toggled(b)@ == a@ ^ b@,
        DatingPurpose::spec_empty()@ == 0,
        p.spec_toggled(q)@ == p@ ^ q@,
{
}

} // verus!
