use bvilove::cities::location_code;
use bvilove::db::{Database, MatchOutcome};
use bvilove::entities::{Dating, DatingState, Gender, Image, ImageKind, LocationFilter, User};
use bvilove::error::MatchError;
use bvilove::matching::{ACTIVITY_WINDOW, REPEAT_COOLDOWN};
use bvilove::profile::EditProfile;
use bvilove::types::{ART, MATH, STUDIES};

const NOW: i64 = 1_700_000_000;

fn profile(id: i64) -> EditProfile {
    let mut profile = EditProfile::new(id);
    profile.name = Some(format!("user{}", id));
    profile.gender = Some(Gender::Male);
    profile.about = Some("about".to_string());
    profile.graduation_year = Some(2025);
    profile.dating_purpose = Some(STUDIES);
    profile.location_filter = Some(LocationFilter::SameCountry);
    profile
}

fn store_of(ids: &[i64]) -> Database {
    let mut db = Database::new();
    for id in ids {
        db.create_or_update_user_at(profile(*id), NOW).unwrap();
    }
    db
}

fn found(outcome: Result<MatchOutcome, MatchError>) -> (Dating, User) {
    match outcome {
        Ok(MatchOutcome::Found(dating, user)) => (dating, user),
        other => panic!("no pairing: {:?}", other),
    }
}

#[test]
fn new_store_is_empty() {
    let db = Database::new();
    assert_eq!(db.get_user(1), None);
    assert_eq!(db.get_dating(1), Err(MatchError::DatingNotFound));
    assert_eq!(db.get_images(1), vec![]);
}

#[test]
fn creating_a_profile_fills_in_the_defaults() {
    let db = store_of(&[5]);
    assert_eq!(
        db.get_user(5),
        Some(User {
            id: 5,
            name: "user5".to_string(),
            gender: Gender::Male,
            gender_filter: None,
            about: "about".to_string(),
            active: true,
            last_activity: NOW,
            graduation_year: 2025,
            grade_up_filter: 1,
            grade_down_filter: 1,
            subjects: 0,
            subjects_filter: 0,
            dating_purpose: STUDIES,
            city: None,
            location_filter: LocationFilter::SameCountry,
        })
    );
}

#[test]
fn creating_a_profile_needs_every_mandatory_field() {
    let strip: [fn(&mut EditProfile); 6] = [
        |p| p.name = None,
        |p| p.gender = None,
        |p| p.about = None,
        |p| p.graduation_year = None,
        |p| p.dating_purpose = None,
        |p| p.location_filter = None,
    ];
    for strip_one in strip {
        let mut db = Database::new();
        let mut incomplete = profile(1);
        strip_one(&mut incomplete);
        assert!(!incomplete.is_complete());
        assert_eq!(db.create_or_update_user_at(incomplete, NOW), Err(MatchError::IncompleteProfile));
        assert_eq!(db.get_user(1), None);
    }
    let mut db = Database::new();
    assert_eq!(db.create_or_update_user_at(EditProfile::new(1), NOW), Err(MatchError::IncompleteProfile));
}

#[test]
fn updating_a_profile_changes_the_given_fields_only() {
    let mut db = store_of(&[1, 2]);
    let before = db.get_user(1).unwrap();
    let mut patch = EditProfile::new(1);
    patch.active = Some(false);
    patch.city = Some(Some(77));
    patch.gender_filter = Some(Some(Gender::Female));
    assert_eq!(db.create_or_update_user_at(patch, NOW + 500), Ok(()));
    let after = db.get_user(1).unwrap();
    assert_eq!(
        after,
        User { active: false, city: Some(77), gender_filter: Some(Gender::Female), ..before }
    );
    assert_eq!(after.last_activity, NOW);
    assert_eq!(db.get_user(2).unwrap().active, true);
    let mut back = EditProfile::new(1);
    back.city = Some(None);
    back.gender_filter = Some(None);
    db.create_or_update_user_at(back, NOW).unwrap();
    assert_eq!(db.get_user(1).unwrap().city, None);
    assert_eq!(db.get_user(1).unwrap().gender_filter, None);
}

#[test]
fn writing_back_an_opened_profile_changes_nothing() {
    let mut db = store_of(&[1]);
    let user = db.get_user(1).unwrap();
    let opened = EditProfile::from_model(user.clone());
    assert!(!opened.create_new);
    assert!(opened.is_complete());
    db.create_or_update_user_at(opened, NOW + 9).unwrap();
    assert_eq!(db.get_user(1), Some(user));
}

#[test]
fn writing_with_the_clock_creates_the_profile() {
    let mut db = Database::new();
    assert_eq!(db.create_or_update_user(profile(1)), Ok(()));
    assert!(db.get_user(1).unwrap().last_activity > 1_600_000_000);
    assert_eq!(db.create_or_update_user(EditProfile::new(2)), Err(MatchError::IncompleteProfile));
}

#[test]
fn touching_activity_sets_the_time() {
    let mut db = store_of(&[1, 2]);
    db.update_last_activity_at(1, NOW + 77);
    assert_eq!(db.get_user(1).unwrap().last_activity, NOW + 77);
    assert_eq!(db.get_user(2).unwrap().last_activity, NOW);
    db.update_last_activity_at(9, NOW + 78);
    assert_eq!(db.get_user(9), None);
    db.update_last_activity(2);
    assert!(db.get_user(2).unwrap().last_activity > NOW);
}

#[test]
fn search_for_an_unknown_user_fails() {
    let mut db = store_of(&[1]);
    assert_eq!(db.get_partner_at(2, NOW, 0), Err(MatchError::UserNotFound));
    assert_eq!(db.get_partner(2, 0), Err(MatchError::UserNotFound));
}

#[test]
fn search_makes_a_pairing() {
    let mut db = store_of(&[1, 2]);
    let (dating, partner) = found(db.get_partner_at(1, NOW + 10, 0));
    assert_eq!(dating, Dating::created(1, 1, 2, NOW + 10));
    assert_eq!(partner, db.get_user(2).unwrap());
    assert_eq!(db.get_dating(1), Ok(dating));
    assert_eq!(dating.state(), DatingState::Created);
    assert_eq!(db.get_user(1).unwrap().last_activity, NOW + 10);
}

#[test]
fn search_follows_the_draw_and_counts_ids_up() {
    let mut db = store_of(&[1, 2, 3, 4]);
    let (first, partner) = found(db.get_partner_at(1, NOW, 1));
    assert_eq!(partner.id, 3);
    assert_eq!(first.id, 1);
    db.set_dating_initiator_reaction(first.id, false);
    let (second, partner) = found(db.get_partner_at(1, NOW, 1));
    assert_eq!(partner.id, 4);
    assert_eq!(second.id, 2);
    db.set_dating_initiator_reaction(second.id, true);
    let (third, partner) = found(db.get_partner_at(1, NOW, 1));
    assert_eq!(partner.id, 2);
    assert_eq!(third.id, 3);
    db.set_dating_initiator_reaction(third.id, true);
    assert_eq!(db.get_partner_at(1, NOW, 1), Ok(MatchOutcome::NoneAvailable));
}

#[test]
fn anti_repeat_window() {
    let mut db = store_of(&[1, 2, 3]);
    let (dating, partner) = found(db.get_partner_at(1, NOW, 0));
    for (later, pick) in [(NOW, 0), (NOW + 1, 1), (NOW + REPEAT_COOLDOWN * 3, 7)] {
        let (again, same_partner) = found(db.get_partner_at(1, later, pick));
        assert_eq!(again, dating);
        assert_eq!(same_partner, partner);
    }
    assert_eq!(db.get_dating(2), Err(MatchError::DatingNotFound));
}

#[test]
fn pairs_come_back_after_the_cooldown() {
    let mut db = store_of(&[1, 2]);
    let (dating, _) = found(db.get_partner_at(1, NOW, 0));
    db.set_dating_initiator_reaction(dating.id, false);
    db.update_last_activity_at(2, NOW + REPEAT_COOLDOWN);
    assert_eq!(db.get_partner_at(1, NOW + REPEAT_COOLDOWN - 1, 0), Ok(MatchOutcome::NoneAvailable));
    let (second, partner) = found(db.get_partner_at(1, NOW + REPEAT_COOLDOWN, 0));
    assert_eq!(partner.id, 2);
    assert_eq!(second, Dating::created(2, 1, 2, NOW + REPEAT_COOLDOWN));
}

#[test]
fn no_candidate_case() {
    let mut db = store_of(&[1, 2, 3]);
    let mut picky = EditProfile::new(1);
    picky.subjects_filter = Some(MATH);
    db.create_or_update_user_at(picky, NOW).unwrap();
    let mut artist = EditProfile::new(2);
    artist.subjects = Some(ART);
    db.create_or_update_user_at(artist, NOW).unwrap();
    assert_eq!(db.get_partner_at(1, NOW, 0), Ok(MatchOutcome::NoneAvailable));
    assert_eq!(db.get_dating(1), Err(MatchError::DatingNotFound));
    assert_eq!(db.get_user(1).unwrap().last_activity, NOW);
    let mut alone = store_of(&[1]);
    assert_eq!(alone.get_partner_at(1, NOW, 0), Ok(MatchOutcome::NoneAvailable));
}

#[test]
fn search_skips_stale_and_switched_off_profiles() {
    let mut db = store_of(&[1, 2, 3]);
    let mut off = EditProfile::new(2);
    off.active = Some(false);
    db.create_or_update_user_at(off, NOW).unwrap();
    let later = NOW + ACTIVITY_WINDOW;
    assert_eq!(db.get_partner_at(1, later, 0), Ok(MatchOutcome::NoneAvailable));
    db.update_last_activity_at(3, later - 1);
    assert_eq!(found(db.get_partner_at(1, later, 0)).1.id, 3);
}

#[test]
fn search_reports_a_filter_that_cannot_be_built() {
    let mut db = store_of(&[1, 2]);
    let mut patch = EditProfile::new(1);
    patch.location_filter = Some(LocationFilter::SameCity);
    db.create_or_update_user_at(patch, NOW).unwrap();
    assert_eq!(db.get_partner_at(1, NOW + 5, 0), Err(MatchError::InvalidPreferenceState));
    assert_eq!(db.get_user(1).unwrap().last_activity, NOW + 5);
    let mut patch = EditProfile::new(1);
    patch.location_filter = Some(LocationFilter::SameCountry);
    patch.dating_purpose = Some(0);
    db.create_or_update_user_at(patch, NOW).unwrap();
    assert_eq!(db.get_partner_at(1, NOW, 0), Err(MatchError::PurposeNotSet));
}

#[test]
fn mutual_like_transition() {
    let mut db = store_of(&[1, 2]);
    let (dating, _) = found(db.get_partner_at(1, NOW, 0));
    assert_eq!(db.get_dating(dating.id).unwrap().state(), DatingState::Created);
    db.set_dating_initiator_reaction(dating.id, true);
    assert_eq!(db.get_dating(dating.id).unwrap().state(), DatingState::AwaitingPartner);
    db.set_dating_partner_reaction(dating.id, true);
    let stored = db.get_dating(dating.id).unwrap();
    assert_eq!(stored.state(), DatingState::Mutual);
    assert_eq!(stored, Dating { initiator_reaction: Some(true), partner_reaction: Some(true), ..dating });
}

#[test]
fn partner_dislike_closes() {
    let mut db = store_of(&[1, 2]);
    let (dating, _) = found(db.get_partner_at(1, NOW, 0));
    db.set_dating_initiator_reaction(dating.id, true);
    db.set_dating_partner_reaction(dating.id, false);
    assert_eq!(db.get_dating(dating.id).unwrap().state(), DatingState::Closed);
}

#[test]
fn initiator_dislike_closes_and_stays_closed() {
    let mut db = store_of(&[1, 2]);
    let (dating, _) = found(db.get_partner_at(1, NOW, 0));
    db.set_dating_initiator_reaction(dating.id, false);
    assert_eq!(db.get_dating(dating.id).unwrap().state(), DatingState::Closed);
    db.set_dating_partner_reaction(dating.id, true);
    let stored = db.get_dating(dating.id).unwrap();
    assert_eq!(stored.state(), DatingState::Closed);
    assert_eq!(stored.partner_reaction, Some(true));
    assert_eq!(stored.initiator_reaction, Some(false));
    db.set_dating_partner_reaction(dating.id, false);
    assert_eq!(db.get_dating(dating.id).unwrap().partner_reaction, Some(false));
}

#[test]
fn reactions_overwrite() {
    let mut db = store_of(&[1, 2]);
    let (dating, _) = found(db.get_partner_at(1, NOW, 0));
    db.set_dating_initiator_reaction(dating.id, true);
    db.set_dating_initiator_reaction(dating.id, false);
    assert_eq!(db.get_dating(dating.id).unwrap().initiator_reaction, Some(false));
}

#[test]
fn reactions_to_an_unknown_pairing_change_nothing() {
    let mut db = store_of(&[1, 2]);
    let (dating, _) = found(db.get_partner_at(1, NOW, 0));
    db.set_dating_initiator_reaction(dating.id + 1, true);
    db.set_dating_partner_reaction(dating.id + 1, true);
    db.set_dating_initiator_msg(dating.id + 1, 3);
    assert_eq!(db.get_dating(dating.id), Ok(dating));
    assert_eq!(db.get_dating(dating.id + 1), Err(MatchError::DatingNotFound));
}

#[test]
fn message_reference_is_stored() {
    let mut db = store_of(&[1, 2]);
    let (dating, _) = found(db.get_partner_at(1, NOW, 0));
    assert_eq!(dating.initiator_msg_id, None);
    db.set_dating_initiator_msg(dating.id, 4711);
    assert_eq!(db.get_dating(dating.id), Ok(Dating { initiator_msg_id: Some(4711), ..dating }));
    let (again, _) = found(db.get_partner_at(1, NOW, 0));
    assert_eq!(again.initiator_msg_id, Some(4711));
}

#[test]
fn end_to_end_scenario() {
    let city_x = location_code(1, 77, 1);
    let mut db = Database::new();
    let mut a = profile(100);
    a.gender = Some(Gender::Male);
    a.subjects = Some(MATH);
    a.city = Some(Some(city_x));
    a.location_filter = Some(LocationFilter::SameCity);
    let mut b = profile(200);
    b.gender = Some(Gender::Female);
    b.subjects_filter = Some(MATH);
    b.city = Some(Some(city_x));
    b.location_filter = Some(LocationFilter::SameCity);
    db.create_or_update_user_at(a, NOW).unwrap();
    db.create_or_update_user_at(b, NOW).unwrap();
    let (first, candidate) = found(db.get_partner_at(100, NOW, 0));
    assert_eq!(candidate.id, 200);
    assert_eq!((first.initiator_id, first.partner_id), (100, 200));
    let (second, candidate) = found(db.get_partner_at(200, NOW, 0));
    assert_eq!(candidate.id, 100);
    assert_eq!((second.initiator_id, second.partner_id), (200, 100));
    assert_ne!(first.id, second.id);
}

#[test]
fn several_initiators_may_be_shown_one_candidate() {
    let mut db = store_of(&[1, 2, 3]);
    let (_, first) = found(db.get_partner_at(1, NOW, 0));
    let (_, second) = found(db.get_partner_at(3, NOW, 1));
    assert_eq!(first.id, 2);
    assert_eq!(second.id, 2);
}

#[test]
fn search_with_the_clock_finds_a_fresh_profile() {
    let mut db = Database::new();
    db.create_or_update_user(profile(1)).unwrap();
    db.create_or_update_user(profile(2)).unwrap();
    let (dating, partner) = found(db.get_partner(1, 0));
    assert_eq!(partner.id, 2);
    assert!(dating.time > 1_600_000_000);
}

#[test]
fn pictures_are_kept_per_user_in_order() {
    let mut db = store_of(&[1, 2]);
    assert_eq!(db.create_image(1, "a".to_string(), ImageKind::Image), Ok(()));
    assert_eq!(db.create_image(2, "b".to_string(), ImageKind::Video), Ok(()));
    assert_eq!(db.create_image(1, "c".to_string(), ImageKind::Video), Ok(()));
    assert_eq!(db.create_image(3, "d".to_string(), ImageKind::Image), Err(MatchError::UserNotFound));
    assert_eq!(
        db.get_images(1),
        vec![("a".to_string(), ImageKind::Image), ("c".to_string(), ImageKind::Video)]
    );
    assert_eq!(db.get_images(3), vec![]);
    db.clean_images(1);
    assert_eq!(db.get_images(1), vec![]);
    assert_eq!(db.get_images(2), vec![("b".to_string(), ImageKind::Video)]);
    db.clean_images(7);
    assert_eq!(db.get_images(2).len(), 1);
}

#[test]
fn pairing_states() {
    let fresh = Dating::created(1, 1, 2, NOW);
    assert_eq!(fresh.state(), DatingState::Created);
    assert_eq!(fresh.with_initiator_reaction(true).state(), DatingState::AwaitingPartner);
    assert_eq!(fresh.with_initiator_reaction(false).state(), DatingState::Closed);
    assert_eq!(
        fresh.with_initiator_reaction(true).with_partner_reaction(true).state(),
        DatingState::Mutual
    );
    assert_eq!(
        fresh.with_initiator_reaction(true).with_partner_reaction(false).state(),
        DatingState::Closed
    );
    assert_eq!(fresh.with_partner_reaction(true).state(), DatingState::Created);
}

fn row(id: i64) -> User {
    profile(id).created(NOW).unwrap()
}

#[test]
fn store_from_well_formed_rows() {
    let users = vec![row(1), row(2), row(3)];
    let datings = vec![
        Dating::created(1, 1, 2, NOW).with_initiator_reaction(true),
        Dating::created(4, 2, 1, NOW),
        Dating::created(9, 1, 3, NOW),
    ];
    let images = vec![Image { user_id: 2, telegram_id: "a".to_string(), kind: ImageKind::Image }];
    let mut db = Database::from_tables(users, datings, images).unwrap();
    assert_eq!(db.get_user(2), Some(row(2)));
    assert_eq!(db.get_dating(4), Ok(Dating::created(4, 2, 1, NOW)));
    assert_eq!(db.get_images(2), vec![("a".to_string(), ImageKind::Image)]);
    let (pending, partner) = found(db.get_partner_at(1, NOW, 0));
    assert_eq!(pending, Dating::created(9, 1, 3, NOW));
    assert_eq!(partner.id, 3);
    db.set_dating_initiator_reaction(4, false);
    db.set_dating_initiator_reaction(9, false);
    let later = NOW + REPEAT_COOLDOWN;
    db.update_last_activity_at(3, later);
    let (fresh, _) = found(db.get_partner_at(2, later, 0));
    assert_eq!(fresh.id, 10);
    assert!(Database::from_tables(vec![], vec![], vec![]).is_some());
}

#[test]
fn store_from_ill_formed_rows() {
    let users = || vec![row(1), row(2), row(3)];
    assert!(Database::from_tables(vec![row(1), row(2), row(1)], vec![], vec![]).is_none());
    let falling = vec![Dating::created(2, 1, 2, NOW), Dating::created(1, 2, 1, NOW)];
    assert!(Database::from_tables(users(), falling, vec![]).is_none());
    let twice = vec![Dating::created(1, 1, 2, NOW), Dating::created(1, 2, 1, NOW)];
    assert!(Database::from_tables(users(), twice, vec![]).is_none());
    let stranger = vec![Dating::created(1, 1, 7, NOW)];
    assert!(Database::from_tables(users(), stranger, vec![]).is_none());
    let unknown = vec![Dating::created(1, 7, 1, NOW)];
    assert!(Database::from_tables(users(), unknown, vec![]).is_none());
    let alone = vec![Dating::created(1, 1, 1, NOW)];
    assert!(Database::from_tables(users(), alone, vec![]).is_none());
    let waiting = vec![Dating::created(1, 1, 2, NOW), Dating::created(2, 1, 3, NOW)];
    assert!(Database::from_tables(users(), waiting, vec![]).is_none());
    let decided = vec![
        Dating::created(1, 1, 2, NOW).with_initiator_reaction(false),
        Dating::created(2, 1, 3, NOW),
    ];
    assert!(Database::from_tables(users(), decided, vec![]).is_some());
    let lost = vec![Image { user_id: 9, telegram_id: "a".to_string(), kind: ImageKind::Video }];
    assert!(Database::from_tables(users(), vec![], lost).is_none());
}

#[test]
fn store_that_cannot_count_further() {
    let last = Dating::created(i32::MAX, 1, 2, NOW - REPEAT_COOLDOWN).with_initiator_reaction(true);
    let mut db = Database::from_tables(vec![row(1), row(2), row(3)], vec![last], vec![]).unwrap();
    assert_eq!(db.get_partner_at(1, NOW, 0), Err(MatchError::StoreFull));
    assert_eq!(db.get_user(1).unwrap().last_activity, NOW);
    assert_eq!(db.get_dating(i32::MAX), Ok(last));
    let before = Dating::created(i32::MAX - 1, 1, 2, NOW - REPEAT_COOLDOWN).with_initiator_reaction(true);
    let mut db = Database::from_tables(vec![row(1), row(2)], vec![before], vec![]).unwrap();
    assert_eq!(found(db.get_partner_at(1, NOW, 0)).0.id, i32::MAX);
}

#[test]
fn empty_subject_filter_never_excludes() {
    for subjects in [0, ART, MATH, ART | MATH, 0xff_ffff] {
        let mut db = store_of(&[1, 2]);
        let mut studies = EditProfile::new(2);
        studies.subjects = Some(subjects);
        db.create_or_update_user_at(studies, NOW).unwrap();
        let (dating, candidate) = found(db.get_partner_at(1, NOW, 3));
        assert_eq!(candidate.id, 2);
        assert_eq!(candidate.subjects, subjects);
        assert_eq!(dating, Dating::created(1, 1, 2, NOW));
    }
}
