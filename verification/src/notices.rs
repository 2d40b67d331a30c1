//! The words and the answers that go with the steps of the conversation.

use vstd::prelude::*;
use crate::cities::{City, Directory};
use crate::dialogue::{Notice, Reply, State};
use crate::keyboard::{Button, ButtonView, SubjectsKeyboardType};
use crate::strings::{decimal, push_decimal, push_text};
use crate::text::{
    CANT_FIND_CITY, EDIT_ABOUT, EDIT_LOCATION_FILTER, EDIT_PARTNER_SUBJECTS, EDIT_SUBJECTS,
    GENDER_FEMALE, GENDER_FILTER_ANY, GENDER_FILTER_FEMALE, GENDER_FILTER_MALE, GENDER_MALE,
    NO_CITY, PLEASE_ALLOW_FORWARDING, PLEASE_CREATE_PROFILE, PROFILE_CREATION_STARTED,
    PROFILE_DISABLED, PROFILE_ENABLED, REQUEST_CITY, REQUEST_EDIT, REQUEST_GENDER,
    REQUEST_GENDER_FILTER, REQUEST_GRADE, REQUEST_NAME, REQUEST_SET_DATING_PURPOSE,
    REQUEST_SET_PHOTOS, SEND_LIKE, START, SUBSCRIBE_TEXT,
};
use crate::types::is_subjects_text;

verus! {

/// The subjects that a notice lists, by their bits; none for a notice that
/// lists none.
pub open spec fn listed_bits(notice: Notice) -> i32 {
    match notice {
        Notice::SubjectsChosen(subjects) => subjects@,
        Notice::SubjectsFilterChosen(subjects) => subjects@,
        _ => 0,
    }
}

impl Notice {
    /// The words of the notice, given the `listing` of the names of the
    /// subjects it lists.
    pub open spec fn spec_text(self, directory: &Directory, listing: Seq<char>) -> Seq<char> {
        match self {
            Notice::NoCity => NO_CITY@,
            Notice::ConfirmCity(code) => "Ваш город - "@ + City(Some(code)).spec_text(directory)
                + "?"@,
            Notice::CityNotFound => CANT_FIND_CITY@,
            Notice::TooManyPhotos => "Невозможно добавить более 10 фото/видео"@,
            Notice::PhotosAdded(count) => "Добавлено "@ + decimal(count as nat)
                + "/10 фото/видео. Добавить ещё?"@,
            Notice::LikeCancelled => "Отправка лайка отменена"@,
            Notice::LikeSent => "Лайк отправлен!"@,
            Notice::SubjectsChosen(subjects) => if subjects@ == 0 {
                "Вы ничего не ботаете."@
            } else {
                "Предметы, которые вы ботаете: "@ + listing + "."@
            },
            Notice::SubjectsFilterChosen(subjects) => if subjects@ == 0 {
                "Не важно, что ботает другой человек."@
            } else {
                "Предметы, хотя бы один из которых должен ботать тот, кого вы ищете: "@ + listing
                    + "."@
            },
            Notice::PurposeChosen(purpose) => "Вас интересует: "@ + purpose.spec_text() + "."@,
            Notice::LeaveEditingFirst => "Сначала выйдите из режима редактирования!"@,
            Notice::PleaseCreateProfile => PLEASE_CREATE_PROFILE@,
            Notice::ProfileEnabled => PROFILE_ENABLED@,
            Notice::ProfileDisabled => PROFILE_DISABLED@,
            Notice::Welcome => START@,
            Notice::Subscribe => SUBSCRIBE_TEXT@,
            Notice::AllowForwarding => PLEASE_ALLOW_FORWARDING@,
            Notice::CreationStarted => PROFILE_CREATION_STARTED@,
        }
    }

    /// Whether the directory knows the city that the notice names, where it
    /// names one.
    pub open spec fn spec_can_be_said(self, directory: &Directory) -> bool {
        match self {
            Notice::ConfirmCity(code) => directory.spec_knows(code),
            _ => true,
        }
    }

    /// Whether the directory knows the city that the notice names, where it
    /// names one.
    pub fn can_be_said(&self, directory: &Directory) -> (ok: bool)
        ensures
            ok == self.spec_can_be_said(directory),
    {
        match self {
            Notice::ConfirmCity(code) => directory.knows(*code),
            _ => true,
        }
    }

    /// The words of the notice, given the `listing` of the names of the
    /// subjects it lists.
    pub fn text_with(&self, directory: &Directory, listing: &str) -> (text: String)
        requires
            self.spec_can_be_said(directory),
        ensures
            text@ == self.spec_text(directory, listing@),
    {
        let mut text = String::new();
        match self {
            Notice::NoCity => push_text(&mut text, NO_CITY),
            Notice::ConfirmCity(code) => {
                push_text(&mut text, "Ваш город - ");
                push_text(&mut text, City(Some(*code)).text(directory).as_str());
                push_text(&mut text, "?");
            },
            Notice::CityNotFound => push_text(&mut text, CANT_FIND_CITY),
            Notice::TooManyPhotos => push_text(&mut text, "Невозможно добавить более 10 фото/видео"),
            Notice::PhotosAdded(count) => {
                push_text(&mut text, "Добавлено ");
                push_decimal(&mut text, *count as u64);
                push_text(&mut text, "/10 фото/видео. Добавить ещё?");
            },
            Notice::LikeCancelled => push_text(&mut text, "Отправка лайка отменена"),
            Notice::LikeSent => push_text(&mut text, "Лайк отправлен!"),
            Notice::SubjectsChosen(subjects) => {
                if subjects.is_empty() {
                    push_text(&mut text, "Вы ничего не ботаете.");
                } else {
                    push_text(&mut text, "Предметы, которые вы ботаете: ");
                    push_text(&mut text, listing);
                    push_text(&mut text, ".");
                }
            },
            Notice::SubjectsFilterChosen(subjects) => {
                if subjects.is_empty() {
                    push_text(&mut text, "Не важно, что ботает другой человек.");
                } else {
                    push_text(
                        &mut text,
                        "Предметы, хотя бы один из которых должен ботать тот, кого вы ищете: ",
                    );
                    push_text(&mut text, listing);
                    push_text(&mut text, ".");
                }
            },
            Notice::PurposeChosen(purpose) => {
                push_text(&mut text, "Вас интересует: ");
                push_text(&mut text, purpose.text().as_str());
                push_text(&mut text, ".");
            },
            Notice::LeaveEditingFirst => push_text(
                &mut text,
                "Сначала выйдите из режима редактирования!",
            ),
            Notice::PleaseCreateProfile => push_text(&mut text, PLEASE_CREATE_PROFILE),
            Notice::ProfileEnabled => push_text(&mut text, PROFILE_ENABLED),
            Notice::ProfileDisabled => push_text(&mut text, PROFILE_DISABLED),
            Notice::Welcome => push_text(&mut text, START),
            Notice::Subscribe => push_text(&mut text, SUBSCRIBE_TEXT),
            Notice::AllowForwarding => push_text(&mut text, PLEASE_ALLOW_FORWARDING),
            Notice::CreationStarted => push_text(&mut text, PROFILE_CREATION_STARTED),
        }
        text
    }

    /// The words of the notice. Subjects are listed by the lower-case forms
    /// of their names.
    pub fn text(&self, directory: &Directory) -> (text: String)
        requires
            self.spec_can_be_said(directory),
        ensures
            exists|listing: Seq<char>| #[trigger]
                is_subjects_text(listing, listed_bits(*self)) && text@ == self.spec_text(
                    directory,
                    listing,
                ),
    {
        let listing = match self {
            Notice::SubjectsChosen(subjects) => subjects.text(),
            Notice::SubjectsFilterChosen(subjects) => subjects.text(),
            _ => crate::types::Subjects::empty().text(),
        };
        let text = self.text_with(directory, listing.as_str());
        assert(is_subjects_text(listing@, listed_bits(*self)));
        text
    }
}

/// What is put under a message.
#[derive(Debug, PartialEq, Eq)]
pub enum Markup {
    /// Nothing new: what was offered stays.
    Keep,
    /// The answers that were offered go.
    Remove,
    /// Answers to choose from, in rows.
    Answers(Vec<Vec<&'static str>>),
    /// One button that starts the making of a profile.
    CreateButton(&'static str),
}

/// What is put under a message, with the answers as characters.
#[verifier::ext_equal]
pub enum MarkupView {
    Keep,
    Remove,
    Answers(Seq<Seq<Seq<char>>>),
    CreateButton(Seq<char>),
}

impl View for Markup {
    type V = MarkupView;

    open spec fn view(&self) -> MarkupView {
        match self {
            Markup::Keep => MarkupView::Keep,
            Markup::Remove => MarkupView::Remove,
            Markup::Answers(rows) => MarkupView::Answers(
                Seq::new(rows@.len(), |r: int| Seq::new(rows@[r]@.len(), |c: int| rows@[r]@[c]@)),
            ),
            Markup::CreateButton(label) => MarkupView::CreateButton(label@),
        }
    }
}

impl Reply {
    /// What the reply puts under a message.
    pub open spec fn spec_markup(self) -> MarkupView {
        match self {
            Reply::Keep => MarkupView::Keep,
            Reply::Remove => MarkupView::Remove,
            Reply::ConfirmCity => MarkupView::Answers(seq![seq!["Верно"@, "Не указывать"@]]),
            Reply::SkipCity => MarkupView::Answers(seq![seq!["Не указывать"@]]),
            Reply::SavePhotos => MarkupView::Answers(seq![seq!["Сохранить"@]]),
            Reply::Subscribed => MarkupView::CreateButton("Я подписался на канал"@),
            Reply::HasUsername => MarkupView::CreateButton("Я сделал юзернейм"@),
            Reply::FillProfile => MarkupView::CreateButton("Заполнить анкету ✍"@),
        }
    }

    /// What the reply puts under a message.
    pub fn markup(self) -> (markup: Markup)
        ensures
            markup@ =~~= self.spec_markup(),
    {
        match self {
            Reply::Keep => Markup::Keep,
            Reply::Remove => Markup::Remove,
            Reply::ConfirmCity => {
                let mut row: Vec<&'static str> = Vec::new();
                row.push("Верно");
                row.push("Не указывать");
                one_row(row)
            },
            Reply::SkipCity => {
                let mut row: Vec<&'static str> = Vec::new();
                row.push("Не указывать");
                one_row(row)
            },
            Reply::SavePhotos => {
                let mut row: Vec<&'static str> = Vec::new();
                row.push("Сохранить");
                one_row(row)
            },
            Reply::Subscribed => Markup::CreateButton("Я подписался на канал"),
            Reply::HasUsername => Markup::CreateButton("Я сделал юзернейм"),
            Reply::FillProfile => Markup::CreateButton("Заполнить анкету ✍"),
        }
    }
}

/// The answers of one row.
fn one_row(row: Vec<&'static str>) -> (markup: Markup)
    ensures
        markup@ =~~= MarkupView::Answers(seq![Seq::new(row@.len(), |c: int| row@[c]@)]),
{
    let mut rows: Vec<Vec<&'static str>> = Vec::new();
    rows.push(row);
    Markup::Answers(rows)
}

/// The keyboard that goes with a question.
#[derive(Clone, Copy, Debug, PartialEq, Eq, Structural)]
pub enum Asking {
    /// The user's own first name, where it is known; else nothing.
    FirstName,
    /// The answers that were offered go.
    Remove,
    /// The two genders.
    Genders,
    /// The two genders in a row, and "any" under them.
    GenderFilters,
    /// The keyboard of subjects, with the stored bits chosen.
    Subjects(Option<i32>, SubjectsKeyboardType),
    /// The keyboard of purposes, with the stored bits chosen.
    Purposes(Option<i16>),
    /// "Do not tell".
    SkipCity,
    /// The areas around the city of this code.
    Areas(Option<i32>),
    /// "Without pictures".
    NoPhotos,
    /// "Cancel".
    Cancel,
    /// The keyboard for editing.
    Editing,
}

/// The question that a state asks, and the keyboard that goes with it;
/// nothing at the start.
pub open spec fn spec_question(state: State) -> Option<(Seq<char>, Asking)> {
    match state {
        State::Start => None,
        State::SetName(_) => Some((REQUEST_NAME@, Asking::FirstName)),
        State::SetGender(_) => Some((REQUEST_GENDER@, Asking::Genders)),
        State::SetGenderFilter(_) => Some((REQUEST_GENDER_FILTER@, Asking::GenderFilters)),
        State::SetGraduationYear(_) => Some((REQUEST_GRADE@, Asking::Remove)),
        State::SetSubjects(p) => Some(
            (EDIT_SUBJECTS@, Asking::Subjects(p.subjects, SubjectsKeyboardType::User)),
        ),
        State::SetSubjectsFilter(p) => Some(
            (
                EDIT_PARTNER_SUBJECTS@,
                Asking::Subjects(p.subjects_filter, SubjectsKeyboardType::Partner),
            ),
        ),
        State::SetDatingPurpose(p) => Some(
            (REQUEST_SET_DATING_PURPOSE@, Asking::Purposes(p.dating_purpose)),
        ),
        State::SetCity(_) => Some((REQUEST_CITY@, Asking::SkipCity)),
        State::SetLocationFilter(p) => Some(
            (
                EDIT_LOCATION_FILTER@,
                Asking::Areas(
                    match p.city {
                        Some(city) => city,
                        None => None,
                    },
                ),
            ),
        ),
        State::SetAbout(_) => Some((EDIT_ABOUT@, Asking::Remove)),
        State::SetPhotos(_) => Some((REQUEST_SET_PHOTOS@, Asking::NoPhotos)),
        State::LikeWithMessage { .. } => Some((SEND_LIKE@, Asking::Cancel)),
        State::Edit => Some((REQUEST_EDIT@, Asking::Editing)),
    }
}

/// The question that a state asks, and the keyboard that goes with it.
pub fn question(state: &State) -> (asked: Option<(&'static str, Asking)>)
    ensures
        asked.is_some() == spec_question(*state).is_some(),
        asked.is_some() ==> asked.unwrap().0@ == spec_question(*state).unwrap().0
            && asked.unwrap().1 == spec_question(*state).unwrap().1,
{
    match state {
        State::Start => None,
        State::SetName(_) => Some((REQUEST_NAME, Asking::FirstName)),
        State::SetGender(_) => Some((REQUEST_GENDER, Asking::Genders)),
        State::SetGenderFilter(_) => Some((REQUEST_GENDER_FILTER, Asking::GenderFilters)),
        State::SetGraduationYear(_) => Some((REQUEST_GRADE, Asking::Remove)),
        State::SetSubjects(p) => Some(
            (EDIT_SUBJECTS, Asking::Subjects(p.subjects, SubjectsKeyboardType::User)),
        ),
        State::SetSubjectsFilter(p) => Some(
            (EDIT_PARTNER_SUBJECTS, Asking::Subjects(p.subjects_filter, SubjectsKeyboardType::Partner)),
        ),
        State::SetDatingPurpose(p) => Some(
            (REQUEST_SET_DATING_PURPOSE, Asking::Purposes(p.dating_purpose)),
        ),
        State::SetCity(_) => Some((REQUEST_CITY, Asking::SkipCity)),
        State::SetLocationFilter(p) => Some(
            (
                EDIT_LOCATION_FILTER,
                Asking::Areas(
                    match p.city {
                        Some(city) => city,
                        None => None,
                    },
                ),
            ),
        ),
        State::SetAbout(_) => Some((EDIT_ABOUT, Asking::Remove)),
        State::SetPhotos(_) => Some((REQUEST_SET_PHOTOS, Asking::NoPhotos)),
        State::LikeWithMessage { .. } => Some((SEND_LIKE, Asking::Cancel)),
        State::Edit => Some((REQUEST_EDIT, Asking::Editing)),
    }
}

impl Asking {
    /// The fixed answers of the keyboard, in rows; nothing for a keyboard
    /// that is made of something else.
    pub open spec fn spec_answers(self) -> Option<Seq<Seq<Seq<char>>>> {
        match self {
            Asking::Genders => Some(seq![seq![GENDER_MALE@, GENDER_FEMALE@]]),
            Asking::GenderFilters => Some(
                seq![seq![GENDER_FILTER_MALE@, GENDER_FILTER_FEMALE@], seq![GENDER_FILTER_ANY@]],
            ),
            Asking::SkipCity => Some(seq![seq!["Не указывать"@]]),
            Asking::NoPhotos => Some(seq![seq!["Без фото"@]]),
            Asking::Cancel => Some(seq![seq!["Отмена"@]]),
            _ => None,
        }
    }

    /// The fixed answers of the keyboard, in rows.
    pub fn answers(self) -> (rows: Option<Vec<Vec<&'static str>>>)
        ensures
            rows.is_some() == self.spec_answers().is_some(),
            rows.is_some() ==> Seq::new(
                rows.unwrap()@.len(),
                |r: int| Seq::new(rows.unwrap()@[r]@.len(), |c: int| rows.unwrap()@[r]@[c]@),
            ) == self.spec_answers().unwrap(),
    {
        let mut rows: Vec<Vec<&'static str>> = Vec::new();
        let mut row: Vec<&'static str> = Vec::new();
        match self {
            Asking::Genders => {
                row.push(GENDER_MALE);
                row.push(GENDER_FEMALE);
                rows.push(row);
            },
            Asking::GenderFilters => {
                row.push(GENDER_FILTER_MALE);
                row.push(GENDER_FILTER_FEMALE);
                rows.push(row);
                let mut any: Vec<&'static str> = Vec::new();
                any.push(GENDER_FILTER_ANY);
                rows.push(any);
            },
            Asking::SkipCity => {
                row.push("Не указывать");
                rows.push(row);
            },
            Asking::NoPhotos => {
                row.push("Без фото");
                rows.push(row);
            },
            Asking::Cancel => {
                row.push("Отмена");
                rows.push(row);
            },
            _ => {
                return None;
            },
        }
        assert(Seq::new(rows@.len(), |r: int| Seq::new(rows@[r]@.len(), |c: int| rows@[r]@[c]@))
            =~~= self.spec_answers().unwrap());
        Some(rows)
    }
}

} // verus!
