use bvilove::clock::Today;
use bvilove::entities;
use bvilove::error::MatchError;
use bvilove::types::{
    decode_purpose, decode_subjects, encode_purpose, encode_subjects, DatingPurpose, GenderFilter,
    Grade, GraduationYear, Subjects, SubjectsFilter, UserGender, UserSubjects, ALL_PURPOSES,
    ALL_SUBJECTS, ART, FRIENDSHIP, MATH, RELATIONSHIP, STUDIES, TECHNOLOGY,
};

#[test]
fn graduation_year_before_september() {
    let today = Today { year: 2024, month: 3 };
    let grade = Grade::try_from(9).unwrap();
    assert_eq!(GraduationYear::at(grade, today), Some(GraduationYear(2026)));
}

#[test]
fn graduation_year_from_september_on() {
    let today = Today { year: 2024, month: 9 };
    let grade = Grade::try_from(9).unwrap();
    assert_eq!(GraduationYear::at(grade, today), Some(GraduationYear(2027)));
    let december = Today { year: 2024, month: 12 };
    assert_eq!(GraduationYear::at(Grade::try_from(11).unwrap(), december), Some(GraduationYear(2025)));
}

#[test]
fn grade_from_graduation_year() {
    assert_eq!(Grade::at(GraduationYear(2026), Today { year: 2024, month: 8 }), Some(Grade(9)));
    assert_eq!(Grade::at(GraduationYear(2026), Today { year: 2024, month: 9 }), Some(Grade(10)));
}

#[test]
fn grade_and_year_are_inverse_for_every_grade() {
    for month in 1..=12u32 {
        let today = Today { year: 2023, month };
        for g in 1..=11i8 {
            let grade = Grade::try_from(g).unwrap();
            let year = GraduationYear::at(grade, today).unwrap();
            assert_eq!(Grade::at(year, today), Some(grade));
        }
    }
}

#[test]
fn grade_of_a_graduate_lies_outside_the_school() {
    let grade = Grade::at(GraduationYear(2020), Today { year: 2024, month: 5 }).unwrap();
    assert_eq!(grade, Grade(15));
    assert!(Grade::try_from(15).is_err());
}

#[test]
fn grade_that_does_not_fit_is_nothing() {
    assert_eq!(Grade::at(GraduationYear(1000), Today { year: 2024, month: 5 }), None);
    assert_eq!(GraduationYear::at(Grade(1), Today { year: 40000, month: 1 }), None);
}

#[test]
fn grade_bounds() {
    assert!(Grade::try_from(0).is_err());
    assert_eq!(Grade::try_from(1), Ok(Grade(1)));
    assert_eq!(Grade::try_from(11), Ok(Grade(11)));
    assert!(Grade::try_from(12).is_err());
    assert!(Grade::try_from(-3).is_err());
}

#[test]
fn grade_text() {
    assert_eq!(Grade(7).text(), "7 класс");
    assert_eq!(Grade(11).text(), "11 класс");
    assert_eq!(Grade(-2).text(), "-2 класс");
}

#[test]
fn graduation_year_today_matches_the_clock() {
    let grade = Grade::try_from(10).unwrap();
    let year = GraduationYear::from_grade(grade).unwrap();
    assert_eq!(Grade::from_graduation_year(year), Some(grade));
    assert!(year.0 >= 2025);
}

#[test]
fn graduation_year_converts_to_and_from_number() {
    let year = GraduationYear::from(2031i16);
    assert_eq!(year, GraduationYear(2031));
    assert_eq!(i16::from(year), 2031);
}

#[test]
fn subjects_round_trip_for_every_single_flag() {
    for i in 0..24 {
        let bits = 1i32 << i;
        let subjects = decode_subjects(bits).unwrap();
        assert_eq!(encode_subjects(subjects), bits);
        assert!(subjects.name().is_ok());
    }
}

#[test]
fn subjects_round_trip_for_mixed_patterns() {
    for bits in [0, ART | MATH, ALL_SUBJECTS, 0x00aa_aaaa, 0x0055_5555] {
        assert_eq!(encode_subjects(decode_subjects(bits).unwrap()), bits);
        assert_eq!(Subjects::from_bits(bits).unwrap().bits(), bits);
    }
}

#[test]
fn subjects_unknown_bits_are_refused() {
    assert_eq!(decode_subjects(1 << 24), Err(MatchError::InvalidSubjectBits));
    assert_eq!(decode_subjects(-1), Err(MatchError::InvalidSubjectBits));
    assert_eq!(decode_subjects(i32::MIN), Err(MatchError::InvalidSubjectBits));
    assert!(Subjects::from_bits(ALL_SUBJECTS + 1).is_none());
    assert_eq!(UserSubjects::try_from(1 << 30).unwrap_err(), MatchError::InvalidSubjectBits);
    assert_eq!(SubjectsFilter::try_from(1 << 25).unwrap_err(), MatchError::InvalidSubjectBits);
}

#[test]
fn subjects_wrappers_keep_the_bits() {
    assert_eq!(UserSubjects::try_from(MATH).unwrap().0.bits(), MATH);
    assert_eq!(SubjectsFilter::try_from(0).unwrap().0.bits(), 0);
}

#[test]
fn subject_names() {
    assert_eq!(Subjects::from_bits(ART).unwrap().name(), Ok("Искусство 🎨"));
    assert_eq!(Subjects::from_bits(MATH).unwrap().name(), Ok("Математика 📐"));
    assert_eq!(Subjects::from_bits(TECHNOLOGY).unwrap().name(), Ok("Технология 🚜"));
    assert_eq!(Subjects::from_bits(ART | MATH).unwrap().name(), Err(()));
    assert_eq!(Subjects::empty().name(), Err(()));
}

#[test]
fn subjects_set_operations() {
    let math = Subjects::from_bits(MATH).unwrap();
    let both = Subjects::from_bits(MATH | ART).unwrap();
    assert!(both.contains(math));
    assert!(!math.contains(both));
    assert!(both.intersects(math));
    assert!(!math.intersects(Subjects::from_bits(ART).unwrap()));
    assert_eq!(both.toggled(math).bits(), ART);
    assert_eq!(math.toggled(both).toggled(both), math);
    assert!(Subjects::empty().is_empty());
    assert!(!math.is_empty());
    assert_eq!(Subjects::all().bits(), ALL_SUBJECTS);
}

#[test]
fn purpose_round_trip_for_every_pattern() {
    for bits in 0..=ALL_PURPOSES {
        assert_eq!(encode_purpose(decode_purpose(bits).unwrap()), bits);
    }
}

#[test]
fn purpose_unknown_bits_are_refused() {
    assert_eq!(decode_purpose(8), Err(MatchError::InvalidPurposeBits));
    assert_eq!(DatingPurpose::try_from(-1), Err(MatchError::InvalidPurposeBits));
    assert!(DatingPurpose::from_bits(0x100).is_none());
}

#[test]
fn purpose_names_and_text() {
    assert_eq!(DatingPurpose::from_bits(FRIENDSHIP).unwrap().name(), Ok("Дружба 🧑‍🤝‍🧑"));
    assert_eq!(DatingPurpose::from_bits(STUDIES).unwrap().name(), Ok("Учёба 📚"));
    assert_eq!(DatingPurpose::from_bits(RELATIONSHIP).unwrap().name(), Ok("Отношения 💕"));
    assert_eq!(DatingPurpose::from_bits(3).unwrap().name(), Err(()));
    assert_eq!(DatingPurpose::empty().text(), "");
    assert_eq!(DatingPurpose::from_bits(STUDIES).unwrap().text(), "Учёба 📚");
    assert_eq!(
        DatingPurpose::from_bits(FRIENDSHIP | RELATIONSHIP).unwrap().text(),
        "Дружба 🧑‍🤝‍🧑, Отношения 💕"
    );
    assert_eq!(DatingPurpose::all().text(), "Дружба 🧑‍🤝‍🧑, Учёба 📚, Отношения 💕");
}

#[test]
fn purpose_set_operations() {
    let studies = DatingPurpose::from_bits(STUDIES).unwrap();
    let all = DatingPurpose::all();
    assert!(all.contains(studies));
    assert!(all.intersects(studies));
    assert!(!studies.intersects(DatingPurpose::from_bits(FRIENDSHIP).unwrap()));
    assert_eq!(all.toggled(studies).bits(), FRIENDSHIP | RELATIONSHIP);
    assert!(DatingPurpose::empty().is_empty());
}

#[test]
fn gender_from_text() {
    assert_eq!(UserGender::from_str("Я парень"), Ok(UserGender::Male));
    assert_eq!(UserGender::from_str("Я девушка"), Ok(UserGender::Female));
    assert_eq!(UserGender::from_str("я парень"), Err(()));
    assert_eq!(UserGender::from_str(""), Err(()));
    assert_eq!(UserGender::Female.text(), "♀️");
    assert_eq!(UserGender::Male.text(), "♂️");
}

#[test]
fn gender_filter_from_text_and_back() {
    for filter in [GenderFilter::Female, GenderFilter::Male, GenderFilter::All] {
        assert_eq!(GenderFilter::from_str(filter.text()), Ok(filter));
    }
    assert_eq!(GenderFilter::from_str("Девушку"), Ok(GenderFilter::Female));
    assert_eq!(GenderFilter::from_str("Парня"), Ok(GenderFilter::Male));
    assert_eq!(GenderFilter::from_str("Не важно"), Ok(GenderFilter::All));
    assert_eq!(GenderFilter::from_str("Не важно "), Err(()));
}

#[test]
fn gender_conversions() {
    assert_eq!(UserGender::from(entities::Gender::Male), UserGender::Male);
    assert_eq!(entities::Gender::from(UserGender::Female), entities::Gender::Female);
    assert_eq!(GenderFilter::from(Some(entities::Gender::Female)), GenderFilter::Female);
    assert_eq!(GenderFilter::from(None), GenderFilter::All);
    assert_eq!(GenderFilter::Male.stored(), Some(entities::Gender::Male));
    assert_eq!(GenderFilter::All.stored(), None);
}
