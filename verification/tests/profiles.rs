use bvilove::cities::{location_code, City, Directory, Place};
use bvilove::clock::Today;
use bvilove::entities::{Gender, LocationFilter, User};
use bvilove::error::MatchError;
use bvilove::profile::EditProfile;
use bvilove::types;
use bvilove::types::{
    DatingPurpose, GenderFilter, Grade, PublicProfile, Subjects, SubjectsFilter, UserGender,
    UserSettings, UserSubjects, ART, ENGLISH, MATH, PHYSICS, SAFETY, SOCIAL, STUDIES,
};

const TODAY: Today = Today { year: 2024, month: 3 };

fn user() -> User {
    User {
        id: 9,
        name: "Аня".to_string(),
        gender: Gender::Female,
        gender_filter: Some(Gender::Male),
        about: "Люблю олимпиады".to_string(),
        active: true,
        last_activity: 0,
        graduation_year: 2026,
        grade_up_filter: 1,
        grade_down_filter: 2,
        subjects: MATH | ENGLISH,
        subjects_filter: PHYSICS,
        dating_purpose: STUDIES,
        city: Some(location_code(1, 50, 3)),
        location_filter: LocationFilter::SameSubject,
    }
}

fn directory() -> Directory {
    let mut directory = Directory::new();
    directory.counties.push(Place { id: 1, name: "Центральный".to_string() });
    directory.subjects.push(Place { id: 50, name: "Московская область".to_string() });
    directory.cities.push(Place { id: location_code(1, 50, 3), name: "Химки".to_string() });
    directory
}

#[test]
fn subjects_text_is_sorted_by_lowercase_name() {
    assert_eq!(Subjects::empty().text(), "");
    assert_eq!(Subjects::from_bits(MATH).unwrap().text(), "Математика 📐");
    assert_eq!(
        Subjects::from_bits(MATH | ART | ENGLISH).unwrap().text(),
        "Английский 🇬🇧, Искусство 🎨, Математика 📐"
    );
    assert_eq!(
        Subjects::from_bits(SAFETY | SOCIAL).unwrap().text(),
        "ОБЖ 🪖, Обществознание 👫"
    );
    assert_eq!(
        Subjects::from_bits(MATH | ART).unwrap().names(),
        vec!["Искусство 🎨", "Математика 📐"]
    );
    assert_eq!(
        Subjects::from_bits(MATH | ENGLISH).unwrap().names(),
        vec!["Английский 🇬🇧", "Математика 📐"]
    );
    assert_eq!(
        Subjects::from_bits(ART | ENGLISH).unwrap().names(),
        vec!["Искусство 🎨", "Английский 🇬🇧"]
    );
    assert_eq!(
        Subjects::from_bits(ART | ENGLISH).unwrap().sorted_names(),
        vec!["Английский 🇬🇧", "Искусство 🎨"]
    );
}

#[test]
fn user_subjects_text() {
    assert_eq!(UserSubjects::try_from(0).unwrap().text(), "Ничего не ботает.");
    assert_eq!(
        UserSubjects::try_from(MATH | ART).unwrap().text(),
        "Ботает: Искусство 🎨, Математика 📐"
    );
    assert_eq!(UserSubjects::try_from(MATH).unwrap().text_with("что угодно"), "Ботает: что угодно");
}

#[test]
fn subjects_filter_text() {
    assert_eq!(
        SubjectsFilter::try_from(0).unwrap().text(),
        "Вам не важно, что ботает другой человек"
    );
    assert_eq!(
        SubjectsFilter::try_from(MATH).unwrap().text(),
        "Другой человек должен ботать хотя-бы что-то из этого: Математика 📐"
    );
}

#[test]
fn public_profile_text() {
    let profile = PublicProfile::at(user(), TODAY).unwrap();
    assert_eq!(profile.city, City(Some(location_code(1, 50, 3))));
    assert_eq!(
        profile.text(&directory()),
        "♀️ Аня, 9 класс.\n🔎 Интересует: Учёба 📚.\n📚 Ботает: Английский 🇬🇧, Математика 📐\n.🧭 \
         Центральный ФО, Московская область, Химки.\n\nЛюблю олимпиады"
    );
}

#[test]
fn public_profile_without_city_and_subjects() {
    let mut plain = user();
    plain.city = None;
    plain.subjects = 0;
    plain.gender = Gender::Male;
    let profile = PublicProfile::at(plain, Today { year: 2024, month: 10 }).unwrap();
    assert_eq!(
        profile.text(&Directory::new()),
        "♂️ Аня, 10 класс.\n🔎 Интересует: Учёба 📚.\n📚 Ничего не ботает.\n.🧭 Город не \
         указан.\n\nЛюблю олимпиады"
    );
}

#[test]
fn public_profile_failures() {
    let mut broken = user();
    broken.subjects = 1 << 24;
    assert_eq!(PublicProfile::at(broken, TODAY), Err(MatchError::InvalidSubjectBits));
    let mut broken = user();
    broken.dating_purpose = 8;
    assert_eq!(PublicProfile::at(broken, TODAY), Err(MatchError::InvalidPurposeBits));
    let mut broken = user();
    broken.graduation_year = 1000;
    broken.subjects = -1;
    assert_eq!(PublicProfile::at(broken, TODAY), Err(MatchError::GradeOutOfRange));
    let mut tolerated = user();
    tolerated.subjects_filter = -1;
    assert!(PublicProfile::at(tolerated, TODAY).is_ok());
}

#[test]
fn public_profile_today() {
    let mut current = user();
    current.graduation_year = 2027;
    assert!(PublicProfile::try_from(current).is_ok());
    let mut broken = user();
    broken.dating_purpose = -1;
    assert_eq!(PublicProfile::try_from(broken), Err(MatchError::InvalidPurposeBits));
}

#[test]
fn user_settings_from_stored_values() {
    let settings = UserSettings::at(user(), TODAY).unwrap();
    assert_eq!(
        settings,
        UserSettings {
            id: 9,
            name: Some("Аня".to_string()),
            gender: Some(UserGender::Female),
            gender_filter: Some(GenderFilter::Male),
            about: Some("Люблю олимпиады".to_string()),
            active: Some(true),
            grade: Some(Grade(9)),
            grade_up_filter: Some(1),
            grade_down_filter: Some(2),
            subjects: Some(UserSubjects::try_from(MATH | ENGLISH).unwrap()),
            subjects_filter: Some(SubjectsFilter::try_from(PHYSICS).unwrap()),
            dating_purpose: Some(DatingPurpose::from_bits(STUDIES).unwrap()),
            city: Some(City(Some(location_code(1, 50, 3)))),
            location_filter: Some(types::LocationFilter::Subject),
        }
    );
}

#[test]
fn user_settings_failures() {
    let mut broken = user();
    broken.subjects_filter = 1 << 24;
    assert_eq!(UserSettings::at(broken, TODAY), Err(MatchError::InvalidSubjectBits));
    let mut broken = user();
    broken.dating_purpose = 8;
    assert_eq!(UserSettings::at(broken, TODAY), Err(MatchError::InvalidPurposeBits));
    let mut broken = user();
    broken.graduation_year = i16::MIN;
    assert_eq!(UserSettings::at(broken, TODAY), Err(MatchError::GradeOutOfRange));
    let mut broken = user();
    broken.subjects = -5;
    assert_eq!(UserSettings::try_from(broken), Err(MatchError::InvalidSubjectBits));
}

#[test]
fn user_settings_new_knows_the_id_only() {
    let settings = UserSettings::new(4);
    assert_eq!(settings.id, 4);
    assert_eq!(settings.name, None);
    assert_eq!(settings.grade, None);
    assert_eq!(settings.city, None);
    assert_eq!(settings.location_filter, None);
}

#[test]
fn edit_profile_patches() {
    let blank = EditProfile::new(9);
    assert!(blank.create_new);
    assert_eq!(blank.photos_count, 0);
    assert!(!blank.is_complete());
    assert_eq!(blank.clone().applied_to(&user()), user());
    assert_eq!(blank.created(0), None);
    let opened = EditProfile::from_model(user());
    assert_eq!(opened.clone().applied_to(&user()), user());
    let mut renamed = EditProfile::new(9);
    renamed.name = Some("Яна".to_string());
    renamed.subjects = Some(ART);
    let patched = renamed.applied_to(&user());
    assert_eq!(patched, User { name: "Яна".to_string(), subjects: ART, ..user() });
    let mut created = opened.clone();
    created.active = None;
    created.grade_up_filter = None;
    created.subjects = None;
    created.city = None;
    created.gender_filter = None;
    assert_eq!(
        created.created(77),
        Some(User {
            active: true,
            grade_up_filter: 1,
            subjects: 0,
            city: None,
            gender_filter: None,
            last_activity: 77,
            ..user()
        })
    );
}
