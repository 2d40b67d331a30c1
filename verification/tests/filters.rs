use bvilove::cities::location_code;
use bvilove::entities::{Dating, Gender, LocationFilter, User};
use bvilove::error::MatchError;
use bvilove::matching::{
    choose_candidate, decide, is_within, Decision, MatchFilter, ACTIVITY_WINDOW, GRACE_WINDOW,
    REPEAT_COOLDOWN,
};
use bvilove::types::{ART, FRIENDSHIP, MATH, RELATIONSHIP, STUDIES};

const NOW: i64 = 1_700_000_000;

fn user(id: i64) -> User {
    User {
        id,
        name: format!("user{}", id),
        gender: Gender::Male,
        gender_filter: None,
        about: "about".to_string(),
        active: true,
        last_activity: NOW - 60,
        graduation_year: 2025,
        grade_up_filter: 1,
        grade_down_filter: 1,
        subjects: 0,
        subjects_filter: 0,
        dating_purpose: STUDIES,
        city: None,
        location_filter: LocationFilter::SameCountry,
    }
}

fn filter_of(requester: &User) -> MatchFilter {
    MatchFilter::build(requester, NOW).unwrap()
}

#[test]
fn window_constants() {
    assert_eq!(ACTIVITY_WINDOW, 14 * 24 * 60 * 60);
    assert_eq!(REPEAT_COOLDOWN, 7 * 24 * 60 * 60);
    assert_eq!(GRACE_WINDOW, 5);
}

#[test]
fn within_is_strict_at_the_edge() {
    assert!(is_within(NOW, NOW, 5));
    assert!(is_within(NOW - 4, NOW, 5));
    assert!(!is_within(NOW - 5, NOW, 5));
    assert!(is_within(NOW + 100, NOW, 5));
    assert!(!is_within(i64::MIN, i64::MAX, i64::MAX));
    assert!(is_within(i64::MAX, i64::MIN, 1));
}

#[test]
fn build_copies_the_requester() {
    let mut requester = user(7);
    requester.gender_filter = Some(Gender::Female);
    requester.subjects = MATH;
    requester.subjects_filter = ART;
    requester.city = Some(66);
    requester.location_filter = LocationFilter::SameCity;
    let filter = filter_of(&requester);
    assert_eq!(
        filter,
        MatchFilter {
            requester_id: 7,
            now: NOW,
            graduation_year: 2025,
            grade_up_filter: 1,
            grade_down_filter: 1,
            dating_purpose: STUDIES,
            subjects: MATH,
            subjects_filter: ART,
            gender: Gender::Male,
            gender_filter: Some(Gender::Female),
            city: Some(66),
            location_filter: LocationFilter::SameCity,
        }
    );
}

#[test]
fn build_fails_without_a_city_for_a_narrow_location_filter() {
    for narrow in [LocationFilter::SameCity, LocationFilter::SameCounty, LocationFilter::SameSubject] {
        let mut requester = user(1);
        requester.location_filter = narrow;
        assert_eq!(MatchFilter::build(&requester, NOW), Err(MatchError::InvalidPreferenceState));
        requester.city = Some(5);
        assert!(MatchFilter::build(&requester, NOW).is_ok());
    }
}

#[test]
fn build_fails_without_a_purpose() {
    let mut requester = user(1);
    requester.dating_purpose = 0;
    assert_eq!(MatchFilter::build(&requester, NOW), Err(MatchError::PurposeNotSet));
    requester.location_filter = LocationFilter::SameCity;
    assert_eq!(MatchFilter::build(&requester, NOW), Err(MatchError::InvalidPreferenceState));
}

#[test]
fn nobody_is_shown_to_themselves() {
    let requester = user(1);
    assert!(!filter_of(&requester).suits(&user(1)));
    assert!(filter_of(&requester).suits(&user(2)));
}

#[test]
fn switched_off_profiles_are_not_shown() {
    let mut candidate = user(2);
    candidate.active = false;
    assert!(!filter_of(&user(1)).suits(&candidate));
}

#[test]
fn stale_profiles_are_not_shown() {
    let mut candidate = user(2);
    candidate.last_activity = NOW - ACTIVITY_WINDOW + 1;
    assert!(filter_of(&user(1)).suits(&candidate));
    candidate.last_activity = NOW - ACTIVITY_WINDOW;
    assert!(!filter_of(&user(1)).suits(&candidate));
    candidate.last_activity = NOW - ACTIVITY_WINDOW - 1;
    assert!(!filter_of(&user(1)).suits(&candidate));
}

#[test]
fn symmetric_grade_window() {
    let requester = user(1);
    let mut candidate = user(2);
    candidate.graduation_year = 2026;
    assert!(filter_of(&requester).check_grade_window(&candidate));
    assert!(filter_of(&candidate).check_grade_window(&requester));
    assert!(filter_of(&requester).suits(&candidate));
    candidate.graduation_year = 2028;
    assert!(!filter_of(&requester).check_grade_window(&candidate));
    assert!(!filter_of(&candidate).check_grade_window(&requester));
    assert!(!filter_of(&requester).suits(&candidate));
}

#[test]
fn grade_window_needs_both_directions() {
    let mut requester = user(1);
    requester.grade_up_filter = 3;
    requester.grade_down_filter = 3;
    let mut candidate = user(2);
    candidate.graduation_year = 2027;
    assert!(!filter_of(&requester).check_grade_window(&candidate));
    candidate.grade_up_filter = 2;
    assert!(filter_of(&requester).check_grade_window(&candidate));
    candidate.grade_up_filter = 0;
    candidate.grade_down_filter = 5;
    assert!(!filter_of(&requester).check_grade_window(&candidate));
}

#[test]
fn grade_window_is_not_centred() {
    let mut requester = user(1);
    requester.grade_up_filter = 2;
    requester.grade_down_filter = 0;
    let mut older = user(2);
    older.graduation_year = 2023;
    older.grade_up_filter = 0;
    older.grade_down_filter = 2;
    assert!(filter_of(&requester).check_grade_window(&older));
    let mut younger = user(3);
    younger.graduation_year = 2026;
    younger.grade_up_filter = 5;
    younger.grade_down_filter = 5;
    assert!(!filter_of(&requester).check_grade_window(&younger));
}

#[test]
fn grade_window_at_the_limits_of_the_type() {
    let mut requester = user(1);
    requester.graduation_year = i16::MAX;
    requester.grade_up_filter = i16::MIN;
    requester.grade_down_filter = i16::MAX;
    let mut candidate = user(2);
    candidate.graduation_year = i16::MIN;
    candidate.grade_up_filter = i16::MAX;
    candidate.grade_down_filter = i16::MAX;
    assert!(!filter_of(&requester).check_grade_window(&candidate));
}

#[test]
fn purposes_must_overlap() {
    let mut requester = user(1);
    requester.dating_purpose = FRIENDSHIP | STUDIES;
    let mut candidate = user(2);
    candidate.dating_purpose = RELATIONSHIP;
    assert!(!filter_of(&requester).suits(&candidate));
    candidate.dating_purpose = RELATIONSHIP | STUDIES;
    assert!(filter_of(&requester).suits(&candidate));
}

#[test]
fn subject_overlap() {
    let mut requester = user(1);
    requester.subjects_filter = MATH;
    let mut candidate = user(2);
    candidate.subjects = MATH | ART;
    assert!(filter_of(&requester).suits(&candidate));
    candidate.subjects = ART;
    assert!(!filter_of(&requester).suits(&candidate));
    requester.subjects_filter = 0;
    assert!(filter_of(&requester).suits(&candidate));
    candidate.subjects = 0;
    assert!(filter_of(&requester).suits(&candidate));
}

#[test]
fn candidates_subject_filter_is_respected() {
    let mut requester = user(1);
    requester.subjects = ART;
    let mut candidate = user(2);
    candidate.subjects_filter = MATH;
    assert!(!filter_of(&requester).suits(&candidate));
    requester.subjects = ART | MATH;
    assert!(filter_of(&requester).suits(&candidate));
}

#[test]
fn gender_filter_asymmetry() {
    let mut requester = user(1);
    requester.gender_filter = Some(Gender::Male);
    let mut candidate = user(2);
    candidate.gender = Gender::Female;
    candidate.gender_filter = None;
    assert!(!filter_of(&requester).suits(&candidate));
    assert!(!filter_of(&candidate).suits(&requester));
    requester.gender_filter = None;
    assert!(filter_of(&requester).suits(&candidate));
    requester.gender_filter = Some(Gender::Male);
    candidate.gender = Gender::Male;
    assert!(filter_of(&requester).suits(&candidate));
}

#[test]
fn candidates_gender_filter_is_respected() {
    let requester = user(1);
    let mut candidate = user(2);
    candidate.gender_filter = Some(Gender::Female);
    assert!(!filter_of(&requester).suits(&candidate));
    candidate.gender_filter = Some(Gender::Male);
    assert!(filter_of(&requester).suits(&candidate));
}

#[test]
fn requesters_location_filter() {
    let moscow = location_code(1, 77, 1);
    let khimki = location_code(1, 50, 3);
    let podolsk = location_code(1, 50, 9);
    let novosibirsk = location_code(2, 54, 1);
    let mut requester = user(1);
    requester.city = Some(khimki);
    let at = |city: Option<i32>| {
        let mut candidate = user(2);
        candidate.city = city;
        candidate
    };
    requester.location_filter = LocationFilter::SameCountry;
    for city in [None, Some(moscow), Some(khimki), Some(novosibirsk)] {
        assert!(filter_of(&requester).check_requester_location(&at(city)));
    }
    requester.location_filter = LocationFilter::SameCounty;
    assert!(filter_of(&requester).check_requester_location(&at(Some(moscow))));
    assert!(filter_of(&requester).check_requester_location(&at(Some(podolsk))));
    assert!(!filter_of(&requester).check_requester_location(&at(Some(novosibirsk))));
    assert!(!filter_of(&requester).check_requester_location(&at(None)));
    requester.location_filter = LocationFilter::SameSubject;
    assert!(!filter_of(&requester).check_requester_location(&at(Some(moscow))));
    assert!(filter_of(&requester).check_requester_location(&at(Some(podolsk))));
    assert!(!filter_of(&requester).check_requester_location(&at(None)));
    requester.location_filter = LocationFilter::SameCity;
    assert!(filter_of(&requester).check_requester_location(&at(Some(khimki))));
    assert!(!filter_of(&requester).check_requester_location(&at(Some(podolsk))));
    assert!(!filter_of(&requester).check_requester_location(&at(None)));
}

#[test]
fn candidates_location_filter() {
    let moscow = location_code(1, 77, 1);
    let khimki = location_code(1, 50, 3);
    let podolsk = location_code(1, 50, 9);
    let novosibirsk = location_code(2, 54, 1);
    let with = |city: Option<i32>, filter: LocationFilter| {
        let mut candidate = user(2);
        candidate.city = city;
        candidate.location_filter = filter;
        candidate
    };
    let mut requester = user(1);
    requester.city = Some(khimki);
    let filter = filter_of(&requester);
    assert!(filter.check_candidate_location(&with(Some(novosibirsk), LocationFilter::SameCountry)));
    assert!(filter.check_candidate_location(&with(Some(moscow), LocationFilter::SameCounty)));
    assert!(!filter.check_candidate_location(&with(Some(novosibirsk), LocationFilter::SameCounty)));
    assert!(filter.check_candidate_location(&with(Some(podolsk), LocationFilter::SameSubject)));
    assert!(!filter.check_candidate_location(&with(Some(moscow), LocationFilter::SameSubject)));
    assert!(!filter.check_candidate_location(&with(None, LocationFilter::SameCounty)));
    assert!(filter.check_candidate_location(&with(Some(novosibirsk), LocationFilter::SameCity)));
    let nowhere = filter_of(&user(1));
    assert!(!nowhere.check_candidate_location(&with(Some(moscow), LocationFilter::SameCounty)));
    assert!(nowhere.check_candidate_location(&with(Some(77), LocationFilter::SameCounty)));
    assert!(nowhere.check_candidate_location(&with(Some(moscow), LocationFilter::SameCountry)));
}

fn dating(id: i32, initiator_id: i64, partner_id: i64, time: i64) -> Dating {
    Dating::created(id, initiator_id, partner_id, time)
}

#[test]
fn recent_pairings_are_not_repeated() {
    let requester = user(1);
    let candidate = user(2);
    let filter = filter_of(&requester);
    assert!(filter.admits(&candidate, &vec![]));
    assert!(!filter.admits(&candidate, &vec![dating(1, 1, 2, NOW - 3)]));
    assert!(!filter.admits(&candidate, &vec![dating(1, 1, 2, NOW - REPEAT_COOLDOWN + 1)]));
    assert!(filter.admits(&candidate, &vec![dating(1, 1, 2, NOW - REPEAT_COOLDOWN)]));
    assert!(filter.admits(&candidate, &vec![dating(1, 1, 3, NOW), dating(2, 3, 2, NOW)]));
    assert!(!filter.check_not_repeated(
        &candidate,
        &vec![dating(1, 1, 3, NOW), dating(2, 1, 2, NOW - REPEAT_COOLDOWN), dating(3, 1, 2, NOW)]
    ));
}

#[test]
fn cooldown_is_directional() {
    let a = user(1);
    let b = user(2);
    let datings = vec![dating(1, 1, 2, NOW)];
    assert!(!filter_of(&a).admits(&b, &datings));
    assert!(filter_of(&b).admits(&a, &datings));
}

#[test]
fn reactions_do_not_lift_the_cooldown() {
    let datings = vec![dating(1, 1, 2, NOW).with_initiator_reaction(false)];
    assert!(!filter_of(&user(1)).admits(&user(2), &datings));
}

#[test]
fn choice_follows_the_draw() {
    let requester = user(1);
    let mut off = user(3);
    off.active = false;
    let users = vec![user(1), user(2), off, user(4), user(5)];
    let filter = filter_of(&requester);
    assert_eq!(choose_candidate(&filter, &users, &vec![], 0), Some(1));
    assert_eq!(choose_candidate(&filter, &users, &vec![], 1), Some(3));
    assert_eq!(choose_candidate(&filter, &users, &vec![], 2), Some(4));
    assert_eq!(choose_candidate(&filter, &users, &vec![], 3), Some(1));
    assert_eq!(choose_candidate(&filter, &users, &vec![], u64::MAX), Some(1));
    assert_eq!(choose_candidate(&filter, &users, &vec![], u64::MAX - 1), Some(4));
    let datings = vec![dating(1, 1, 4, NOW)];
    assert_eq!(choose_candidate(&filter, &users, &datings, 1), Some(4));
}

#[test]
fn choice_is_nothing_without_candidates() {
    let requester = user(1);
    let filter = filter_of(&requester);
    assert_eq!(choose_candidate(&filter, &vec![], &vec![], 5), None);
    assert_eq!(choose_candidate(&filter, &vec![user(1)], &vec![], 5), None);
}

#[test]
fn decision_of_a_search() {
    let requester = user(1);
    let pool = vec![user(1), user(2), user(3)];
    let waiting = dating(7, 1, 9, NOW - 100);
    assert_eq!(decide(&requester, Some(waiting), &pool, &vec![], NOW, 0), Ok(Decision::Again(waiting)));
    assert_eq!(decide(&requester, Some(waiting), &vec![], &vec![], NOW, 0), Ok(Decision::Again(waiting)));
    assert_eq!(decide(&requester, None, &pool, &vec![], NOW, 0), Ok(Decision::Pair(1)));
    assert_eq!(decide(&requester, None, &pool, &vec![], NOW, 1), Ok(Decision::Pair(2)));
    assert_eq!(decide(&requester, None, &pool, &vec![dating(1, 1, 2, NOW)], NOW, 0), Ok(Decision::Pair(2)));
    assert_eq!(decide(&requester, None, &vec![user(1)], &vec![], NOW, 0), Ok(Decision::Nobody));
    let mut aimless = user(1);
    aimless.dating_purpose = 0;
    assert_eq!(decide(&aimless, None, &pool, &vec![], NOW, 0), Err(MatchError::PurposeNotSet));
    assert_eq!(decide(&aimless, Some(waiting), &pool, &vec![], NOW, 0), Ok(Decision::Again(waiting)));
    let mut placeless = user(1);
    placeless.location_filter = LocationFilter::SameCounty;
    assert_eq!(decide(&placeless, None, &pool, &vec![], NOW, 0), Err(MatchError::InvalidPreferenceState));
}
