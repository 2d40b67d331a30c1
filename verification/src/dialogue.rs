//! The conversation as a machine: from where it stands and what came in to
//! where it stands next and what is to be done.
//!
//! Nothing here talks to anybody. A step names the actions; the caller
//! performs them in order and, where all went well, keeps the new state.

use vstd::prelude::*;
use crate::callbacks::{Callback, CallbackError, RateCode, UpdateBitflags};
use crate::cities::Directory;
use crate::clock::Today;
use crate::entities;
use crate::entities::{Dating, Gender, ImageKind, User};
use crate::keyboard::SubjectsKeyboardType;
use crate::profile::EditProfile;
use crate::strings::{chars_are, chars_of, parse_bounded, parse_within, same_text};
use crate::text::{
    GENDER_FEMALE, GENDER_FILTER_ANY, GENDER_FILTER_FEMALE, GENDER_FILTER_MALE, GENDER_MALE,
};
use crate::types::{DatingPurpose, GraduationYear, Grade, LocationFilter, Subjects};

verus! {

/// Where the conversation with one user stands.
#[derive(Debug, PartialEq, Eq)]
pub enum State {
    Start,
    SetName(EditProfile),
    SetGender(EditProfile),
    SetGenderFilter(EditProfile),
    SetGraduationYear(EditProfile),
    SetSubjects(EditProfile),
    SetSubjectsFilter(EditProfile),
    SetDatingPurpose(EditProfile),
    SetCity(EditProfile),
    SetLocationFilter(EditProfile),
    SetAbout(EditProfile),
    SetPhotos(EditProfile),
    /// Waiting for the message that goes with a like.
    LikeWithMessage { dating: Dating },
    Edit,
}

impl Default for State {
    /// A conversation begins at the start.
    fn default() -> (state: State)
        ensures
            state == State::Start,
    {
        State::Start
    }
}

impl Clone for State {
    fn clone(&self) -> (copy: State)
        ensures
            copy == *self,
    {
        match self {
            State::Start => State::Start,
            State::SetName(p) => State::SetName(p.clone()),
            State::SetGender(p) => State::SetGender(p.clone()),
            State::SetGenderFilter(p) => State::SetGenderFilter(p.clone()),
            State::SetGraduationYear(p) => State::SetGraduationYear(p.clone()),
            State::SetSubjects(p) => State::SetSubjects(p.clone()),
            State::SetSubjectsFilter(p) => State::SetSubjectsFilter(p.clone()),
            State::SetDatingPurpose(p) => State::SetDatingPurpose(p.clone()),
            State::SetCity(p) => State::SetCity(p.clone()),
            State::SetLocationFilter(p) => State::SetLocationFilter(p.clone()),
            State::SetAbout(p) => State::SetAbout(p.clone()),
            State::SetPhotos(p) => State::SetPhotos(p.clone()),
            State::LikeWithMessage { dating } => State::LikeWithMessage { dating: *dating },
            State::Edit => State::Edit,
        }
    }
}

/// A fixed thing to say, or one that is made of a value.
#[derive(Clone, Copy, Debug, PartialEq, Eq, Structural)]
pub enum Notice {
    /// Without a city the whole country is searched.
    NoCity,
    /// Is this your city?
    ConfirmCity(i32),
    /// No city is called like that.
    CityNotFound,
    /// No more than ten pictures.
    TooManyPhotos,
    /// So many of ten pictures were added.
    PhotosAdded(u8),
    /// The like was taken back.
    LikeCancelled,
    /// The like is on its way.
    LikeSent,
    /// The subjects that were chosen.
    SubjectsChosen(Subjects),
    /// The subjects that a partner should study.
    SubjectsFilterChosen(Subjects),
    /// The purposes that were chosen.
    PurposeChosen(DatingPurpose),
    /// Reactions have to wait until the editing is over.
    LeaveEditingFirst,
    /// A profile is needed first.
    PleaseCreateProfile,
    /// The profile is switched on.
    ProfileEnabled,
    /// The profile is switched off.
    ProfileDisabled,
    /// The greeting.
    Welcome,
    /// Please join the channel.
    Subscribe,
    /// Please allow to be linked.
    AllowForwarding,
    /// The making of the profile begins.
    CreationStarted,
}

/// The answers offered under a message.
#[derive(Clone, Copy, Debug, PartialEq, Eq, Structural)]
pub enum Reply {
    /// What was offered stays.
    Keep,
    /// Nothing is offered any more.
    Remove,
    /// "Right" and "Do not tell".
    ConfirmCity,
    /// "Do not tell".
    SkipCity,
    /// "Save".
    SavePhotos,
    /// One button that starts the making of a profile: "I have joined".
    Subscribed,
    /// One button that starts the making of a profile: "I have a name now".
    HasUsername,
    /// One button that starts the making of a profile: "Fill in".
    FillProfile,
}

/// The buttons to put under a message in place of those it has.
#[derive(Clone, Copy, Debug, PartialEq, Eq, Structural)]
pub enum Buttons {
    Subjects(Subjects, SubjectsKeyboardType),
    Purpose(DatingPurpose),
}

/// One thing for the caller to do.
#[derive(Debug, PartialEq, Eq)]
pub enum Action {
    /// Ask what the new state asks.
    Prompt,
    /// List the commands.
    SendCommands,
    /// Say something, with answers offered under it.
    Send(Notice, Reply),
    /// Take the buttons off the message that was pressed.
    RemoveButtons,
    /// Put other words into the message that was pressed.
    EditText(Notice),
    /// Put other buttons under the message that was pressed.
    EditButtons(Buttons),
    /// Tell the one who pressed, in a window of its own.
    Alert(Notice),
    /// Write the profile.
    SaveProfile(EditProfile),
    /// Throw the user's pictures away.
    CleanImages,
    /// Keep the picture or video of the message.
    SaveMedia(ImageKind),
    /// Show the user their own profile.
    SendProfile(i64),
    /// Store the initiator's reaction.
    SetInitiatorReaction { dating_id: i32, liked: bool },
    /// Store the partner's reaction.
    SetPartnerReaction { dating_id: i32, liked: bool },
    /// Tell the partner of the like, with the words that go with it.
    SendLike { dating: Dating, message: Option<String> },
    /// Show the next profile to the user.
    SendRecommendation(i64),
    /// Tell both that they like each other.
    MutualLike(Dating),
    /// Begin the making of a profile.
    StartProfileCreation,
    /// Offer what can be edited.
    OfferEditing,
}

/// Why a step failed.
#[derive(Clone, Copy, Debug, PartialEq, Eq, Structural)]
pub enum DialogueError {
    /// The button's data could not be read.
    Callback(CallbackError),
    /// The button does not belong to where the conversation stands.
    WrongCallback,
    /// The stored bits of the profile in the making are not known ones.
    UnknownBits,
    /// Going on without a purpose.
    PurposeNotSet,
    /// The one who pressed has no profile.
    UserNotFound,
    /// The pairing of the button is not in the store.
    DatingNotFound,
    /// The button for editing names nothing that can be edited.
    UnknownEditData,
    /// A second reaction to one pairing.
    AlreadyReacted,
    /// An empty message where words were asked for.
    EmptyText,
}

/// What a step comes to.
#[derive(Debug, PartialEq, Eq)]
pub struct Step {
    pub state: State,
    pub actions: Vec<Action>,
    pub error: Option<DialogueError>,
}

/// What a step comes to, with the actions as a sequence.
#[verifier::ext_equal]
pub struct Outcome {
    pub state: State,
    pub actions: Seq<Action>,
    pub error: Option<DialogueError>,
}

impl View for Step {
    type V = Outcome;

    open spec fn view(&self) -> Outcome {
        Outcome { state: self.state, actions: self.actions@, error: self.error }
    }
}

/// What came in with a message.
#[derive(Debug, PartialEq, Eq)]
pub struct Incoming {
    /// The words, where the message has any.
    pub text: Option<String>,
    /// The picture or video, where the message has one.
    pub media: Option<ImageKind>,
    /// The city that the words were taken for, where they were asked for
    /// one and one was found.
    pub city: Option<i32>,
}

/// The state after a field was set: the next question for a profile in the
/// making, the start for one that is edited.
pub open spec fn after(profile: EditProfile, next: State) -> State {
    if profile.create_new {
        next
    } else {
        State::Start
    }
}

/// A step that ends at `state` and asks what that state asks: the next
/// question after a good answer, the same question after a bad one.
pub open spec fn asking(state: State) -> Outcome {
    Outcome { state, actions: seq![Action::Prompt], error: None }
}

/// A step that does nothing.
pub open spec fn stay(state: State) -> Outcome {
    Outcome { state, actions: Seq::empty(), error: None }
}

/// A step that fails after `actions`.
pub open spec fn fail(state: State, actions: Seq<Action>, error: DialogueError) -> Outcome {
    Outcome { state, actions, error: Some(error) }
}

/// The gender that an answer names.
pub open spec fn gender_named(text: Seq<char>) -> Option<Gender> {
    if text == GENDER_MALE@ {
        Some(Gender::Male)
    } else if text == GENDER_FEMALE@ {
        Some(Gender::Female)
    } else {
        None
    }
}

/// The gender filter that an answer names.
pub open spec fn gender_filter_named(text: Seq<char>) -> Option<Option<Gender>> {
    if text == GENDER_FILTER_MALE@ {
        Some(Some(Gender::Male))
    } else if text == GENDER_FILTER_FEMALE@ {
        Some(Some(Gender::Female))
    } else if text == GENDER_FILTER_ANY@ {
        Some(None)
    } else {
        None
    }
}

/// The graduation year that an answer names on `today`: the answer is a
/// grade from 1 to 11, and the year fits.
pub open spec fn year_named(text: Seq<char>, today: Today) -> Option<i16> {
    match parse_within(text, i8::MIN as int, i8::MAX as int) {
        Some(grade) => if 1 <= grade <= 11 {
            match GraduationYear::spec_at(Grade(grade as i8), today) {
                Some(year) => Some(year.0),
                None => None,
            }
        } else {
            None
        },
        None => None,
    }
}

/// What a message comes to where the conversation stands at `state`.
pub open spec fn spec_on_message(
    state: State,
    incoming: Incoming,
    directory: &Directory,
    today: Today,
) -> Outcome {
    match state {
        State::Start => Outcome { state, actions: seq![Action::SendCommands], error: None },
        State::SetName(p) => match incoming.text {
            Some(t) => if 3 <= t@.len() <= 16 {
                asking(after(p, State::SetGender(EditProfile { name: Some(t), ..p })))
            } else {
                asking(state)
            },
            None => asking(state),
        },
        State::SetGender(p) => match incoming.text {
            Some(t) => match gender_named(t@) {
                Some(gender) => asking(
                    after(p, State::SetGenderFilter(EditProfile { gender: Some(gender), ..p })),
                ),
                None => asking(state),
            },
            None => asking(state),
        },
        State::SetGenderFilter(p) => match incoming.text {
            Some(t) => match gender_filter_named(t@) {
                Some(filter) => asking(
                    after(
                        p,
                        State::SetGraduationYear(EditProfile { gender_filter: Some(filter), ..p }),
                    ),
                ),
                None => asking(state),
            },
            None => asking(state),
        },
        State::SetGraduationYear(p) => match incoming.text {
            Some(t) => match year_named(t@, today) {
                Some(year) => asking(
                    after(p, State::SetSubjects(EditProfile { graduation_year: Some(year), ..p })),
                ),
                None => asking(state),
            },
            None => asking(state),
        },
        State::SetCity(p) => match incoming.text {
            Some(t) => if t@ == "Верно"@ && p.city.is_some() {
                asking(State::SetLocationFilter(p))
            } else if t@ == "Не указывать"@ {
                let set = EditProfile {
                    city: Some(None),
                    location_filter: Some(entities::LocationFilter::SameCountry),
                    ..p
                };
                Outcome {
                    state: after(p, State::SetAbout(set)),
                    actions: seq![Action::Send(Notice::NoCity, Reply::Remove), Action::Prompt],
                    error: None,
                }
            } else {
                match incoming.city {
                    Some(code) => Outcome {
                        state: State::SetCity(EditProfile { city: Some(Some(code)), ..p }),
                        actions: seq![Action::Send(Notice::ConfirmCity(code), Reply::ConfirmCity)],
                        error: None,
                    },
                    None => Outcome {
                        state,
                        actions: seq![Action::Send(Notice::CityNotFound, Reply::SkipCity)],
                        error: None,
                    },
                }
            },
            None => asking(state),
        },
        State::SetLocationFilter(p) => match incoming.text {
            Some(t) => match LocationFilter::spec_from_str(directory, t@) {
                Some(filter) => asking(
                    after(
                        p,
                        State::SetAbout(
                            EditProfile { location_filter: Some(filter.spec_stored()), ..p },
                        ),
                    ),
                ),
                None => asking(state),
            },
            None => asking(state),
        },
        State::SetAbout(p) => match incoming.text {
            Some(t) => if 1 <= t@.len() <= 1024 {
                let set = EditProfile { about: Some(t), ..p };
                Outcome {
                    state: after(p, State::SetPhotos(set)),
                    actions: seq![Action::SaveProfile(set), Action::Prompt],
                    error: None,
                }
            } else {
                asking(state)
            },
            None => asking(state),
        },
        State::SetPhotos(p) => if incoming.text.is_some() && incoming.text.unwrap()@
            == "Без фото"@ {
            Outcome {
                state: State::Start,
                actions: seq![Action::CleanImages, Action::SendProfile(p.id), Action::Prompt],
                error: None,
            }
        } else if incoming.text.is_some() && incoming.text.unwrap()@ == "Сохранить"@ {
            Outcome {
                state: State::Start,
                actions: seq![Action::SendProfile(p.id), Action::Prompt],
                error: None,
            }
        } else if p.photos_count >= 10 {
            Outcome {
                state,
                actions: seq![Action::Send(Notice::TooManyPhotos, Reply::SavePhotos)],
                error: None,
            }
        } else {
            let cleaned: Seq<Action> = if p.photos_count == 0 {
                seq![Action::CleanImages]
            } else {
                Seq::empty()
            };
            match incoming.media {
                Some(kind) => Outcome {
                    state: State::SetPhotos(
                        EditProfile { photos_count: (p.photos_count + 1) as u8, ..p },
                    ),
                    actions: cleaned + seq![
                        Action::SaveMedia(kind),
                        Action::Send(
                            Notice::PhotosAdded((p.photos_count + 1) as u8),
                            Reply::SavePhotos,
                        ),
                    ],
                    error: None,
                },
                None => Outcome { state, actions: cleaned.push(Action::Prompt), error: None },
            }
        },
        State::LikeWithMessage { dating } => match incoming.text {
            Some(t) => if t@.len() == 0 {
                fail(state, Seq::empty(), DialogueError::EmptyText)
            } else if t@ == "Отмена"@ || t@[0] == '/' {
                Outcome {
                    state: State::Start,
                    actions: seq![
                        Action::SetInitiatorReaction { dating_id: dating.id, liked: false },
                        Action::Send(Notice::LikeCancelled, Reply::Remove),
                        Action::SendRecommendation(dating.initiator_id),
                        Action::Prompt,
                    ],
                    error: None,
                }
            } else {
                Outcome {
                    state: State::Start,
                    actions: seq![
                        Action::SetInitiatorReaction { dating_id: dating.id, liked: true },
                        Action::SendLike { dating, message: Some(t) },
                        Action::Send(Notice::LikeSent, Reply::Remove),
                        Action::SendRecommendation(dating.initiator_id),
                        Action::Prompt,
                    ],
                    error: None,
                }
            },
            None => asking(state),
        },
        State::SetSubjects(_) => stay(state),
        State::SetSubjectsFilter(_) => stay(state),
        State::SetDatingPurpose(_) => stay(state),
        State::Edit => stay(state),
    }
}

/// A step that ends at `state` and asks what that state asks.
fn ask(state: State) -> (step: Step)
    ensures
        step@ == asking(state),
{
    let mut actions: Vec<Action> = Vec::new();
    actions.push(Action::Prompt);
    Step { state, actions, error: None }
}

/// A step that ends at `state` with the given actions.
fn done(state: State, actions: Vec<Action>) -> (step: Step)
    ensures
        step@ == (Outcome { state, actions: actions@, error: None }),
        step.state == state,
        step.actions@ == actions@,
        step.error.is_none(),
{
    Step { state, actions, error: None }
}

/// The state after a field was set.
fn next_after(create_new: bool, next: State) -> (state: State)
    ensures
        state == (if create_new {
            next
        } else {
            State::Start
        }),
{
    if create_new {
        next
    } else {
        State::Start
    }
}

/// The graduation year that an answer names on `today`.
fn read_year(text: &str, today: Today) -> (year: Option<i16>)
    ensures
        year == year_named(text@, today),
{
    match parse_bounded(text, -128, 127) {
        Some(number) => {
            if 1 <= number && number <= 11 {
                match GraduationYear::at(Grade(number as i8), today) {
                    Some(year) => Some(year.0),
                    None => None,
                }
            } else {
                None
            }
        },
        None => None,
    }
}

/// What a message comes to where the conversation stands at `state`.
/// `today` is the date by which a grade becomes a graduation year.
pub fn on_message(state: State, incoming: Incoming, directory: &Directory, today: Today) -> (step:
    Step)
    ensures
        step@ =~~= spec_on_message(state, incoming, directory, today),
{
    match state {
        State::Start => {
            let mut actions: Vec<Action> = Vec::new();
            actions.push(Action::SendCommands);
            done(State::Start, actions)
        },
        State::SetName(p) => match incoming.text {
            Some(t) => {
                let length = chars_of(t.as_str()).len();
                if 3 <= length && length <= 16 {
                    let create_new = p.create_new;
                    let mut set = p;
                    set.name = Some(t);
                    ask(next_after(create_new, State::SetGender(set)))
                } else {
                    ask(State::SetName(p))
                }
            },
            None => ask(State::SetName(p)),
        },
        State::SetGender(p) => match incoming.text {
            Some(t) => {
                let gender = if same_text(t.as_str(), GENDER_MALE) {
                    Some(Gender::Male)
                } else if same_text(t.as_str(), GENDER_FEMALE) {
                    Some(Gender::Female)
                } else {
                    None
                };
                match gender {
                    Some(gender) => {
                        let create_new = p.create_new;
                        let mut set = p;
                        set.gender = Some(gender);
                        ask(next_after(create_new, State::SetGenderFilter(set)))
                    },
                    None => ask(State::SetGender(p)),
                }
            },
            None => ask(State::SetGender(p)),
        },
        State::SetGenderFilter(p) => match incoming.text {
            Some(t) => {
                let filter = if same_text(t.as_str(), GENDER_FILTER_MALE) {
                    Some(Some(Gender::Male))
                } else if same_text(t.as_str(), GENDER_FILTER_FEMALE) {
                    Some(Some(Gender::Female))
                } else if same_text(t.as_str(), GENDER_FILTER_ANY) {
                    Some(None)
                } else {
                    None
                };
                match filter {
                    Some(filter) => {
                        let create_new = p.create_new;
                        let mut set = p;
                        set.gender_filter = Some(filter);
                        ask(next_after(create_new, State::SetGraduationYear(set)))
                    },
                    None => ask(State::SetGenderFilter(p)),
                }
            },
            None => ask(State::SetGenderFilter(p)),
        },
        State::SetGraduationYear(p) => match incoming.text {
            Some(t) => match read_year(t.as_str(), today) {
                Some(year) => {
                    let create_new = p.create_new;
                    let mut set = p;
                    set.graduation_year = Some(year);
                    ask(next_after(create_new, State::SetSubjects(set)))
                },
                None => ask(State::SetGraduationYear(p)),
            },
            None => ask(State::SetGraduationYear(p)),
        },
        State::SetCity(p) => match incoming.text {
            Some(t) => {
                if same_text(t.as_str(), "Верно") && p.city.is_some() {
                    ask(State::SetLocationFilter(p))
                } else if same_text(t.as_str(), "Не указывать") {
                    let create_new = p.create_new;
                    let mut set = p;
                    set.city = Some(None);
                    set.location_filter = Some(entities::LocationFilter::SameCountry);
                    let mut actions: Vec<Action> = Vec::new();
                    actions.push(Action::Send(Notice::NoCity, Reply::Remove));
                    actions.push(Action::Prompt);
                    done(next_after(create_new, State::SetAbout(set)), actions)
                } else {
                    let mut actions: Vec<Action> = Vec::new();
                    match incoming.city {
                        Some(code) => {
                            let mut set = p;
                            set.city = Some(Some(code));
                            actions.push(
                                Action::Send(Notice::ConfirmCity(code), Reply::ConfirmCity),
                            );
                            done(State::SetCity(set), actions)
                        },
                        None => {
                            actions.push(Action::Send(Notice::CityNotFound, Reply::SkipCity));
                            done(State::SetCity(p), actions)
                        },
                    }
                }
            },
            None => ask(State::SetCity(p)),
        },
        State::SetLocationFilter(p) => match incoming.text {
            Some(t) => match LocationFilter::from_str(directory, t.as_str()) {
                Some(filter) => {
                    let create_new = p.create_new;
                    let mut set = p;
                    set.location_filter = Some(filter.stored());
                    ask(next_after(create_new, State::SetAbout(set)))
                },
                None => ask(State::SetLocationFilter(p)),
            },
            None => ask(State::SetLocationFilter(p)),
        },
        State::SetAbout(p) => match incoming.text {
            Some(t) => {
                let length = chars_of(t.as_str()).len();
                if 1 <= length && length <= 1024 {
                    let create_new = p.create_new;
                    let mut set = p;
                    set.about = Some(t);
                    let mut actions: Vec<Action> = Vec::new();
                    actions.push(Action::SaveProfile(set.clone()));
                    actions.push(Action::Prompt);
                    done(next_after(create_new, State::SetPhotos(set)), actions)
                } else {
                    ask(State::SetAbout(p))
                }
            },
            None => ask(State::SetAbout(p)),
        },
        State::SetPhotos(p) => {
            let (without, save) = match &incoming.text {
                Some(t) => (same_text(t.as_str(), "Без фото"), same_text(t.as_str(), "Сохранить")),
                None => (false, false),
            };
            let mut actions: Vec<Action> = Vec::new();
            if without {
                actions.push(Action::CleanImages);
                actions.push(Action::SendProfile(p.id));
                actions.push(Action::Prompt);
                done(State::Start, actions)
            } else if save {
                actions.push(Action::SendProfile(p.id));
                actions.push(Action::Prompt);
                done(State::Start, actions)
            } else if p.photos_count >= 10 {
                actions.push(Action::Send(Notice::TooManyPhotos, Reply::SavePhotos));
                done(State::SetPhotos(p), actions)
            } else {
                if p.photos_count == 0 {
                    actions.push(Action::CleanImages);
                }
                match incoming.media {
                    Some(kind) => {
                        let count: u8 = p.photos_count + 1;
                        let mut set = p;
                        set.photos_count = count;
                        let ghost before = actions@;
                        actions.push(Action::SaveMedia(kind));
                        actions.push(Action::Send(Notice::PhotosAdded(count), Reply::SavePhotos));
                        assert(actions@ =~= before + seq![
                            Action::SaveMedia(kind),
                            Action::Send(Notice::PhotosAdded(count), Reply::SavePhotos),
                        ]);
                        done(State::SetPhotos(set), actions)
                    },
                    None => {
                        actions.push(Action::Prompt);
                        done(State::SetPhotos(p), actions)
                    },
                }
            }
        },
        State::LikeWithMessage { dating } => match incoming.text {
            Some(t) => {
                let chars = chars_of(t.as_str());
                if chars.len() == 0 {
                    return Step {
                        state: State::LikeWithMessage { dating },
                        actions: Vec::new(),
                        error: Some(DialogueError::EmptyText),
                    };
                }
                let mut actions: Vec<Action> = Vec::new();
                proof {
                    assert(chars@.skip(0) == chars@);
                }
                if chars_are(&chars, 0, "Отмена") || chars[0] == '/' {
                    actions.push(
                        Action::SetInitiatorReaction { dating_id: dating.id, liked: false },
                    );
                    actions.push(Action::Send(Notice::LikeCancelled, Reply::Remove));
                    actions.push(Action::SendRecommendation(dating.initiator_id));
                    actions.push(Action::Prompt);
                } else {
                    actions.push(
                        Action::SetInitiatorReaction { dating_id: dating.id, liked: true },
                    );
                    actions.push(Action::SendLike { dating, message: Some(t) });
                    actions.push(Action::Send(Notice::LikeSent, Reply::Remove));
                    actions.push(Action::SendRecommendation(dating.initiator_id));
                    actions.push(Action::Prompt);
                }
                done(State::Start, actions)
            },
            None => ask(State::LikeWithMessage { dating }),
        },
        State::SetSubjects(p) => done(State::SetSubjects(p), Vec::new()),
        State::SetSubjectsFilter(p) => done(State::SetSubjectsFilter(p), Vec::new()),
        State::SetDatingPurpose(p) => done(State::SetDatingPurpose(p), Vec::new()),
        State::Edit => done(State::Edit, Vec::new()),
    }
}

/// The subjects of a profile in the making: those it stores, none where it
/// stores nothing yet; nothing where the stored bits are not known ones.
pub open spec fn subjects_so_far(stored: Option<i32>) -> Option<Subjects> {
    match stored {
        Some(bits) => Subjects::spec_from_bits(bits),
        None => Some(Subjects::spec_empty()),
    }
}

/// The purposes of a profile in the making: those it stores, none where it
/// stores nothing yet; nothing where the stored bits are not known ones.
pub open spec fn purpose_so_far(stored: Option<i16>) -> Option<DatingPurpose> {
    match stored {
        Some(bits) => DatingPurpose::spec_from_bits(bits),
        None => Some(DatingPurpose::spec_empty()),
    }
}

/// The state that a choice of what to edit leads to.
pub open spec fn edit_target(choice: Seq<char>, profile: EditProfile) -> Option<State> {
    if choice == "Имя"@ {
        Some(State::SetName(profile))
    } else if choice == "Предметы"@ {
        Some(State::SetSubjects(profile))
    } else if choice == "О себе"@ {
        Some(State::SetAbout(profile))
    } else if choice == "Город"@ {
        Some(State::SetCity(profile))
    } else if choice == "Фото"@ {
        Some(State::SetPhotos(profile))
    } else if choice == "Отмена"@ {
        Some(State::Start)
    } else {
        None
    }
}

/// What a press in the keyboard of the user's subjects comes to.
pub open spec fn spec_press_subjects(p: EditProfile, callback: Callback) -> Outcome {
    let state = State::SetSubjects(p);
    match callback {
        Callback::SetSubjects(update) => match subjects_so_far(p.subjects) {
            None => fail(state, Seq::empty(), DialogueError::UnknownBits),
            Some(current) => match update {
                UpdateBitflags::Continue => Outcome {
                    state: State::SetSubjectsFilter(EditProfile { subjects: Some(current@), ..p }),
                    actions: seq![
                        Action::RemoveButtons,
                        Action::EditText(Notice::SubjectsChosen(current)),
                        Action::Prompt,
                    ],
                    error: None,
                },
                UpdateBitflags::Update(changed) => Outcome {
                    state: State::SetSubjects(
                        EditProfile { subjects: Some(current.spec_toggled(changed)@), ..p },
                    ),
                    actions: seq![
                        Action::EditButtons(
                            Buttons::Subjects(
                                current.spec_toggled(changed),
                                SubjectsKeyboardType::User,
                            ),
                        ),
                    ],
                    error: None,
                },
            },
        },
        _ => fail(state, Seq::empty(), DialogueError::WrongCallback),
    }
}

/// What a press in the keyboard of a partner's subjects comes to.
pub open spec fn spec_press_subjects_filter(p: EditProfile, callback: Callback) -> Outcome {
    let state = State::SetSubjectsFilter(p);
    match callback {
        Callback::SetSubjectsFilter(update) => match subjects_so_far(p.subjects_filter) {
            None => fail(state, Seq::empty(), DialogueError::UnknownBits),
            Some(current) => match update {
                UpdateBitflags::Continue => Outcome {
                    state: after(
                        p,
                        State::SetDatingPurpose(
                            EditProfile { subjects_filter: Some(current@), ..p },
                        ),
                    ),
                    actions: seq![
                        Action::RemoveButtons,
                        Action::EditText(Notice::SubjectsFilterChosen(current)),
                        Action::Prompt,
                    ],
                    error: None,
                },
                UpdateBitflags::Update(changed) => Outcome {
                    state: State::SetSubjectsFilter(
                        EditProfile { subjects_filter: Some(current.spec_toggled(changed)@), ..p },
                    ),
                    actions: seq![
                        Action::EditButtons(
                            Buttons::Subjects(
                                current.spec_toggled(changed),
                                SubjectsKeyboardType::Partner,
                            ),
                        ),
                    ],
                    error: None,
                },
            },
        },
        _ => fail(state, Seq::empty(), DialogueError::WrongCallback),
    }
}

/// What a press in the keyboard of purposes comes to. Going on needs a
/// purpose.
pub open spec fn spec_press_purpose(p: EditProfile, callback: Callback) -> Outcome {
    let state = State::SetDatingPurpose(p);
    match callback {
        Callback::SetDatingPurpose(update) => match purpose_so_far(p.dating_purpose) {
            None => fail(state, Seq::empty(), DialogueError::UnknownBits),
            Some(current) => match update {
                UpdateBitflags::Continue => if current@ == 0 {
                    fail(state, Seq::empty(), DialogueError::PurposeNotSet)
                } else {
                    Outcome {
                        state: after(
                            p,
                            State::SetCity(EditProfile { dating_purpose: Some(current@), ..p }),
                        ),
                        actions: seq![
                            Action::RemoveButtons,
                            Action::EditText(Notice::PurposeChosen(current)),
                            Action::Prompt,
                        ],
                        error: None,
                    }
                },
                UpdateBitflags::Update(changed) => Outcome {
                    state: State::SetDatingPurpose(
                        EditProfile { dating_purpose: Some(current.spec_toggled(changed)@), ..p },
                    ),
                    actions: seq![
                        Action::EditButtons(Buttons::Purpose(current.spec_toggled(changed))),
                    ],
                    error: None,
                },
            },
        },
        _ => fail(state, Seq::empty(), DialogueError::WrongCallback),
    }
}

/// What a press of a button for editing comes to: `choice` is what the
/// button carries after its first character, `user` the stored profile of
/// the one who pressed.
pub open spec fn spec_press_edit(callback: Callback, choice: Seq<char>, user: Option<User>) -> Outcome {
    match callback {
        Callback::Edit => match user {
            None => fail(State::Edit, Seq::empty(), DialogueError::UserNotFound),
            Some(user) => match edit_target(choice, EditProfile::spec_from_model(user)) {
                Some(state) => Outcome {
                    state,
                    actions: seq![Action::RemoveButtons, Action::Prompt],
                    error: None,
                },
                None => fail(
                    State::Edit,
                    seq![Action::RemoveButtons],
                    DialogueError::UnknownEditData,
                ),
            },
        },
        _ => fail(State::Edit, Seq::empty(), DialogueError::WrongCallback),
    }
}

/// What a reaction to the pairing `dating` comes to, from the start. A
/// pairing takes one reaction of each side: a second one fails, after the
/// buttons were taken off where the first one would have taken them off.
pub open spec fn spec_react(code: RateCode, dating: Dating) -> Outcome {
    let shown = seq![Action::RemoveButtons];
    match code {
        RateCode::Dislike => if dating.initiator_reaction.is_none() {
            Outcome {
                state: State::Start,
                actions: seq![
                    Action::RemoveButtons,
                    Action::SetInitiatorReaction { dating_id: dating.id, liked: false },
                    Action::SendRecommendation(dating.initiator_id),
                ],
                error: None,
            }
        } else {
            fail(State::Start, shown, DialogueError::AlreadyReacted)
        },
        RateCode::LikeWithMsg => if dating.initiator_reaction.is_none() {
            Outcome {
                state: State::LikeWithMessage { dating },
                actions: seq![Action::RemoveButtons, Action::Prompt],
                error: None,
            }
        } else {
            fail(State::Start, shown, DialogueError::AlreadyReacted)
        },
        RateCode::Like => if dating.initiator_reaction.is_none() {
            Outcome {
                state: State::Start,
                actions: seq![
                    Action::RemoveButtons,
                    Action::SetInitiatorReaction { dating_id: dating.id, liked: true },
                    Action::SendRecommendation(dating.initiator_id),
                    Action::SendLike { dating, message: None },
                ],
                error: None,
            }
        } else {
            fail(State::Start, shown, DialogueError::AlreadyReacted)
        },
        RateCode::ResponseDislike => if dating.partner_reaction.is_none() {
            Outcome {
                state: State::Start,
                actions: seq![
                    Action::RemoveButtons,
                    Action::SetPartnerReaction { dating_id: dating.id, liked: false },
                ],
                error: None,
            }
        } else {
            fail(State::Start, shown, DialogueError::AlreadyReacted)
        },
        RateCode::ResponseLike => if dating.partner_reaction.is_none() {
            Outcome { state: State::Start, actions: seq![Action::MutualLike(dating)], error: None }
        } else {
            fail(State::Start, Seq::empty(), DialogueError::AlreadyReacted)
        },
    }
}

/// What a press of a button comes to from the start: `dating` is the
/// stored pairing that the button names, where it names one.
pub open spec fn spec_press_at_start(callback: Callback, dating: Option<Dating>, chat_id: i64) -> Outcome {
    match callback {
        Callback::Dating { dating_id, code } => match dating {
            Some(row) => if row.id == dating_id {
                spec_react(code, row)
            } else {
                fail(State::Start, Seq::empty(), DialogueError::DatingNotFound)
            },
            None => fail(State::Start, Seq::empty(), DialogueError::DatingNotFound),
        },
        Callback::CreateProfile => Outcome {
            state: State::Start,
            actions: seq![Action::StartProfileCreation],
            error: None,
        },
        Callback::FindPartner => Outcome {
            state: State::Start,
            actions: seq![Action::RemoveButtons, Action::SendRecommendation(chat_id)],
            error: None,
        },
        _ => fail(State::Start, Seq::empty(), DialogueError::WrongCallback),
    }
}

/// What a press of the button that carries `data` comes to where the
/// conversation stands at `state`. `user` is the stored profile of the one
/// who pressed and `dating` the stored pairing that the button names, each
/// where there is one; `chat_id` is the chat of the press.
///
/// Data that cannot be read fail the step. A reaction anywhere but at the
/// start is answered with a warning and changes nothing.
pub open spec fn spec_on_callback(
    state: State,
    data: Seq<char>,
    user: Option<User>,
    dating: Option<Dating>,
    chat_id: i64,
) -> Outcome {
    match Callback::spec_from_str(data) {
        Err(e) => fail(state, Seq::empty(), DialogueError::Callback(e)),
        Ok(callback) => if callback is Dating && !(state is Start) {
            Outcome {
                state,
                actions: seq![Action::Alert(Notice::LeaveEditingFirst)],
                error: None,
            }
        } else {
            match state {
                State::SetSubjects(p) => spec_press_subjects(p, callback),
                State::SetSubjectsFilter(p) => spec_press_subjects_filter(p, callback),
                State::SetDatingPurpose(p) => spec_press_purpose(p, callback),
                State::Edit => spec_press_edit(callback, data.skip(1), user),
                State::Start => spec_press_at_start(callback, dating, chat_id),
                _ => stay(state),
            }
        },
    }
}

/// A step that fails at `state` after `actions`.
fn failed(state: State, actions: Vec<Action>, error: DialogueError) -> (step: Step)
    ensures
        step@ == fail(state, actions@, error),
{
    Step { state, actions, error: Some(error) }
}

/// The subjects of a profile in the making.
fn read_subjects(stored: Option<i32>) -> (subjects: Option<Subjects>)
    ensures
        subjects == subjects_so_far(stored),
{
    match stored {
        Some(bits) => Subjects::from_bits(bits),
        None => Some(Subjects::empty()),
    }
}

/// The purposes of a profile in the making.
fn read_purpose(stored: Option<i16>) -> (purpose: Option<DatingPurpose>)
    ensures
        purpose == purpose_so_far(stored),
{
    match stored {
        Some(bits) => DatingPurpose::from_bits(bits),
        None => Some(DatingPurpose::empty()),
    }
}

fn press_subjects(p: EditProfile, callback: Callback) -> (step: Step)
    ensures
        step@ =~~= spec_press_subjects(p, callback),
{
    let update = match callback {
        Callback::SetSubjects(update) => update,
        _ => {
            return failed(State::SetSubjects(p), Vec::new(), DialogueError::WrongCallback);
        },
    };
    let current = match read_subjects(p.subjects) {
        Some(current) => current,
        None => {
            return failed(State::SetSubjects(p), Vec::new(), DialogueError::UnknownBits);
        },
    };
    let mut actions: Vec<Action> = Vec::new();
    let mut set = p;
    match update {
        UpdateBitflags::Continue => {
            set.subjects = Some(current.bits());
            actions.push(Action::RemoveButtons);
            actions.push(Action::EditText(Notice::SubjectsChosen(current)));
            actions.push(Action::Prompt);
            done(State::SetSubjectsFilter(set), actions)
        },
        UpdateBitflags::Update(changed) => {
            let toggled = current.toggled(changed);
            set.subjects = Some(toggled.bits());
            actions.push(
                Action::EditButtons(Buttons::Subjects(toggled, SubjectsKeyboardType::User)),
            );
            done(State::SetSubjects(set), actions)
        },
    }
}

fn press_subjects_filter(p: EditProfile, callback: Callback) -> (step: Step)
    ensures
        step@ =~~= spec_press_subjects_filter(p, callback),
{
    let update = match callback {
        Callback::SetSubjectsFilter(update) => update,
        _ => {
            return failed(State::SetSubjectsFilter(p), Vec::new(), DialogueError::WrongCallback);
        },
    };
    let current = match read_subjects(p.subjects_filter) {
        Some(current) => current,
        None => {
            return failed(State::SetSubjectsFilter(p), Vec::new(), DialogueError::UnknownBits);
        },
    };
    let mut actions: Vec<Action> = Vec::new();
    let create_new = p.create_new;
    let mut set = p;
    match update {
        UpdateBitflags::Continue => {
            set.subjects_filter = Some(current.bits());
            actions.push(Action::RemoveButtons);
            actions.push(Action::EditText(Notice::SubjectsFilterChosen(current)));
            actions.push(Action::Prompt);
            done(next_after(create_new, State::SetDatingPurpose(set)), actions)
        },
        UpdateBitflags::Update(changed) => {
            let toggled = current.toggled(changed);
            set.subjects_filter = Some(toggled.bits());
            actions.push(
                Action::EditButtons(Buttons::Subjects(toggled, SubjectsKeyboardType::Partner)),
            );
            done(State::SetSubjectsFilter(set), actions)
        },
    }
}

fn press_purpose(p: EditProfile, callback: Callback) -> (step: Step)
    ensures
        step@ =~~= spec_press_purpose(p, callback),
{
    let update = match callback {
        Callback::SetDatingPurpose(update) => update,
        _ => {
            return failed(State::SetDatingPurpose(p), Vec::new(), DialogueError::WrongCallback);
        },
    };
    let current = match read_purpose(p.dating_purpose) {
        Some(current) => current,
        None => {
            return failed(State::SetDatingPurpose(p), Vec::new(), DialogueError::UnknownBits);
        },
    };
    let mut actions: Vec<Action> = Vec::new();
    let create_new = p.create_new;
    match update {
        UpdateBitflags::Continue => {
            if current.is_empty() {
                return failed(State::SetDatingPurpose(p), actions, DialogueError::PurposeNotSet);
            }
            let mut set = p;
            set.dating_purpose = Some(current.bits());
            actions.push(Action::RemoveButtons);
            actions.push(Action::EditText(Notice::PurposeChosen(current)));
            actions.push(Action::Prompt);
            done(next_after(create_new, State::SetCity(set)), actions)
        },
        UpdateBitflags::Update(changed) => {
            let toggled = current.toggled(changed);
            let mut set = p;
            set.dating_purpose = Some(toggled.bits());
            actions.push(Action::EditButtons(Buttons::Purpose(toggled)));
            done(State::SetDatingPurpose(set), actions)
        },
    }
}

/// The state that a choice of what to edit leads to.
fn target_of(chars: &Vec<char>, profile: EditProfile) -> (state: Option<State>)
    requires
        chars.len() >= 1,
    ensures
        state == edit_target(chars@.skip(1), profile),
{
    if chars_are(chars, 1, "Имя") {
        Some(State::SetName(profile))
    } else if chars_are(chars, 1, "Предметы") {
        Some(State::SetSubjects(profile))
    } else if chars_are(chars, 1, "О себе") {
        Some(State::SetAbout(profile))
    } else if chars_are(chars, 1, "Город") {
        Some(State::SetCity(profile))
    } else if chars_are(chars, 1, "Фото") {
        Some(State::SetPhotos(profile))
    } else if chars_are(chars, 1, "Отмена") {
        Some(State::Start)
    } else {
        None
    }
}

fn press_edit(callback: Callback, chars: &Vec<char>, user: Option<User>) -> (step: Step)
    requires
        chars.len() >= 1,
    ensures
        step@ =~~= spec_press_edit(callback, chars@.skip(1), user),
{
    match callback {
        Callback::Edit => {},
        _ => {
            return failed(State::Edit, Vec::new(), DialogueError::WrongCallback);
        },
    }
    let user = match user {
        Some(user) => user,
        None => {
            return failed(State::Edit, Vec::new(), DialogueError::UserNotFound);
        },
    };
    let mut actions: Vec<Action> = Vec::new();
    actions.push(Action::RemoveButtons);
    match target_of(chars, EditProfile::from_model(user)) {
        Some(state) => {
            actions.push(Action::Prompt);
            done(state, actions)
        },
        None => failed(State::Edit, actions, DialogueError::UnknownEditData),
    }
}

fn react(code: RateCode, dating: Dating) -> (step: Step)
    ensures
        step@ =~~= spec_react(code, dating),
{
    let mut actions: Vec<Action> = Vec::new();
    match code {
        RateCode::Dislike => {
            actions.push(Action::RemoveButtons);
            if dating.initiator_reaction.is_some() {
                return failed(State::Start, actions, DialogueError::AlreadyReacted);
            }
            actions.push(Action::SetInitiatorReaction { dating_id: dating.id, liked: false });
            actions.push(Action::SendRecommendation(dating.initiator_id));
            done(State::Start, actions)
        },
        RateCode::LikeWithMsg => {
            actions.push(Action::RemoveButtons);
            if dating.initiator_reaction.is_some() {
                return failed(State::Start, actions, DialogueError::AlreadyReacted);
            }
            actions.push(Action::Prompt);
            done(State::LikeWithMessage { dating }, actions)
        },
        RateCode::Like => {
            actions.push(Action::RemoveButtons);
            if dating.initiator_reaction.is_some() {
                return failed(State::Start, actions, DialogueError::AlreadyReacted);
            }
            actions.push(Action::SetInitiatorReaction { dating_id: dating.id, liked: true });
            actions.push(Action::SendRecommendation(dating.initiator_id));
            actions.push(Action::SendLike { dating, message: None });
            done(State::Start, actions)
        },
        RateCode::ResponseDislike => {
            actions.push(Action::RemoveButtons);
            if dating.partner_reaction.is_some() {
                return failed(State::Start, actions, DialogueError::AlreadyReacted);
            }
            actions.push(Action::SetPartnerReaction { dating_id: dating.id, liked: false });
            done(State::Start, actions)
        },
        RateCode::ResponseLike => {
            if dating.partner_reaction.is_some() {
                return failed(State::Start, actions, DialogueError::AlreadyReacted);
            }
            actions.push(Action::MutualLike(dating));
            done(State::Start, actions)
        },
    }
}

fn press_at_start(callback: Callback, dating: Option<Dating>, chat_id: i64) -> (step: Step)
    ensures
        step@ =~~= spec_press_at_start(callback, dating, chat_id),
{
    let mut actions: Vec<Action> = Vec::new();
    match callback {
        Callback::Dating { dating_id, code } => match dating {
            Some(row) => {
                if row.id == dating_id {
                    react(code, row)
                } else {
                    failed(State::Start, actions, DialogueError::DatingNotFound)
                }
            },
            None => failed(State::Start, actions, DialogueError::DatingNotFound),
        },
        Callback::CreateProfile => {
            actions.push(Action::StartProfileCreation);
            done(State::Start, actions)
        },
        Callback::FindPartner => {
            actions.push(Action::RemoveButtons);
            actions.push(Action::SendRecommendation(chat_id));
            done(State::Start, actions)
        },
        _ => failed(State::Start, actions, DialogueError::WrongCallback),
    }
}

/// What a press of the button that carries `data` comes to where the
/// conversation stands at `state`.
pub fn on_callback(
    state: State,
    data: &str,
    user: Option<User>,
    dating: Option<Dating>,
    chat_id: i64,
) -> (step: Step)
    ensures
        step@ =~~= spec_on_callback(state, data@, user, dating, chat_id),
{
    let callback = match Callback::from_str(data) {
        Ok(callback) => callback,
        Err(e) => {
            return failed(state, Vec::new(), DialogueError::Callback(e));
        },
    };
    let reaction = match callback {
        Callback::Dating { .. } => true,
        _ => false,
    };
    let at_start = match &state {
        State::Start => true,
        _ => false,
    };
    if reaction && !at_start {
        let mut actions: Vec<Action> = Vec::new();
        actions.push(Action::Alert(Notice::LeaveEditingFirst));
        return done(state, actions);
    }
    match state {
        State::SetSubjects(p) => press_subjects(p, callback),
        State::SetSubjectsFilter(p) => press_subjects_filter(p, callback),
        State::SetDatingPurpose(p) => press_purpose(p, callback),
        State::Edit => {
            let chars = chars_of(data);
            press_edit(callback, &chars, user)
        },
        State::Start => press_at_start(callback, dating, chat_id),
        other => done(other, Vec::new()),
    }
}

/// What the user can ask for by a command.
#[derive(Clone, Copy, Debug, PartialEq, Eq, Structural)]
pub enum Command {
    Create,
    Profile,
    Edit,
    Date,
    Enable,
    Disable,
    Start,
    Help,
}

/// The patch that switches the profile of `id` on or off.
pub open spec fn switching(id: i64, active: bool) -> EditProfile {
    EditProfile { active: Some(active), ..EditProfile::blank(id, true) }
}

/// What a command comes to. Without a profile, the commands that need one
/// ask for it and do nothing else.
pub open spec fn spec_on_command(state: State, command: Command, has_profile: bool, chat_id: i64) -> Outcome {
    let needs_profile = match command {
        Command::Create => false,
        Command::Help => false,
        Command::Start => false,
        _ => true,
    };
    if needs_profile && !has_profile {
        Outcome {
            state,
            actions: seq![Action::Send(Notice::PleaseCreateProfile, Reply::Keep)],
            error: None,
        }
    } else {
        match command {
            Command::Create => Outcome {
                state,
                actions: seq![Action::StartProfileCreation],
                error: None,
            },
            Command::Edit => Outcome {
                state: State::Edit,
                actions: seq![Action::OfferEditing],
                error: None,
            },
            Command::Help => Outcome { state, actions: seq![Action::SendCommands], error: None },
            Command::Date => Outcome {
                state,
                actions: seq![Action::SendRecommendation(chat_id)],
                error: None,
            },
            Command::Profile => Outcome {
                state,
                actions: seq![Action::SendProfile(chat_id)],
                error: None,
            },
            Command::Enable => Outcome {
                state,
                actions: seq![
                    Action::SaveProfile(switching(chat_id, true)),
                    Action::Send(Notice::ProfileEnabled, Reply::Keep),
                ],
                error: None,
            },
            Command::Disable => Outcome {
                state,
                actions: seq![
                    Action::SaveProfile(switching(chat_id, false)),
                    Action::Send(Notice::ProfileDisabled, Reply::Keep),
                ],
                error: None,
            },
            Command::Start => Outcome {
                state,
                actions: seq![Action::Send(Notice::Welcome, Reply::FillProfile)],
                error: None,
            },
        }
    }
}

/// What a command comes to, for a user who has or has not a profile.
pub fn on_command(state: State, command: Command, has_profile: bool, chat_id: i64) -> (step: Step)
    ensures
        step@ =~~= spec_on_command(state, command, has_profile, chat_id),
{
    let needs_profile = match command {
        Command::Create => false,
        Command::Help => false,
        Command::Start => false,
        _ => true,
    };
    let mut actions: Vec<Action> = Vec::new();
    if needs_profile && !has_profile {
        actions.push(Action::Send(Notice::PleaseCreateProfile, Reply::Keep));
        return done(state, actions);
    }
    match command {
        Command::Create => {
            actions.push(Action::StartProfileCreation);
            done(state, actions)
        },
        Command::Edit => {
            actions.push(Action::OfferEditing);
            done(State::Edit, actions)
        },
        Command::Help => {
            actions.push(Action::SendCommands);
            done(state, actions)
        },
        Command::Date => {
            actions.push(Action::SendRecommendation(chat_id));
            done(state, actions)
        },
        Command::Profile => {
            actions.push(Action::SendProfile(chat_id));
            done(state, actions)
        },
        Command::Enable => {
            let mut patch = EditProfile::new(chat_id);
            patch.active = Some(true);
            actions.push(Action::SaveProfile(patch));
            actions.push(Action::Send(Notice::ProfileEnabled, Reply::Keep));
            done(state, actions)
        },
        Command::Disable => {
            let mut patch = EditProfile::new(chat_id);
            patch.active = Some(false);
            actions.push(Action::SaveProfile(patch));
            actions.push(Action::Send(Notice::ProfileDisabled, Reply::Keep));
            done(state, actions)
        },
        Command::Start => {
            actions.push(Action::Send(Notice::Welcome, Reply::FillProfile));
            done(state, actions)
        },
    }
}

/// What the wish to make a profile comes to: the buttons go; who has not
/// joined the channel is asked to; who cannot be linked is asked to allow
/// it; everybody else is asked for the name of a new profile.
pub open spec fn spec_start_profile_creation(
    state: State,
    subscribed: bool,
    has_link: bool,
    chat_id: i64,
) -> Outcome {
    if !subscribed {
        Outcome {
            state,
            actions: seq![
                Action::RemoveButtons,
                Action::Send(Notice::Subscribe, Reply::Subscribed),
            ],
            error: None,
        }
    } else if !has_link {
        Outcome {
            state,
            actions: seq![
                Action::RemoveButtons,
                Action::Send(Notice::AllowForwarding, Reply::HasUsername),
            ],
            error: None,
        }
    } else {
        Outcome {
            state: State::SetName(EditProfile::blank(chat_id, true)),
            actions: seq![
                Action::RemoveButtons,
                Action::Send(Notice::CreationStarted, Reply::Keep),
                Action::Prompt,
            ],
            error: None,
        }
    }
}

/// What the wish to make a profile comes to.
pub fn start_profile_creation(state: State, subscribed: bool, has_link: bool, chat_id: i64) -> (step:
    Step)
    ensures
        step@ =~~= spec_start_profile_creation(state, subscribed, has_link, chat_id),
{
    let mut actions: Vec<Action> = Vec::new();
    actions.push(Action::RemoveButtons);
    if !subscribed {
        actions.push(Action::Send(Notice::Subscribe, Reply::Subscribed));
        done(state, actions)
    } else if !has_link {
        actions.push(Action::Send(Notice::AllowForwarding, Reply::HasUsername));
        done(state, actions)
    } else {
        actions.push(Action::Send(Notice::CreationStarted, Reply::Keep));
        actions.push(Action::Prompt);
        done(State::SetName(EditProfile::new(chat_id)), actions)
    }
}

/// The profile that a state carries, where it carries one.
pub open spec fn profile_of(state: State) -> Option<EditProfile> {
    match state {
        State::SetName(p) => Some(p),
        State::SetGender(p) => Some(p),
        State::SetGenderFilter(p) => Some(p),
        State::SetGraduationYear(p) => Some(p),
        State::SetSubjects(p) => Some(p),
        State::SetSubjectsFilter(p) => Some(p),
        State::SetDatingPurpose(p) => Some(p),
        State::SetCity(p) => Some(p),
        State::SetLocationFilter(p) => Some(p),
        State::SetAbout(p) => Some(p),
        State::SetPhotos(p) => Some(p),
        _ => None,
    }
}

/// A message never changes whose profile is in the making, nor whether it
/// is a new one: where a profile is carried before and after, the id and
/// the mark of a new profile are the same.
pub proof fn lemma_message_keeps_the_profile(
    state: State,
    incoming: Incoming,
    directory: &Directory,
    today: Today,
)
    requires
        profile_of(state).is_some(),
        profile_of(spec_on_message(state, incoming, directory, today).state).is_some(),
    ensures
        profile_of(spec_on_message(state, incoming, directory, today).state).unwrap().id
            == profile_of(state).unwrap().id,
        profile_of(spec_on_message(state, incoming, directory, today).state).unwrap().create_new
            == profile_of(state).unwrap().create_new,
{
}

/// A message never fails while a profile is in the making, and a message
/// without words leaves a question that asks for words as it stands and
/// asks it again.
pub proof fn lemma_wordless_message_asks_again(
    state: State,
    incoming: Incoming,
    directory: &Directory,
    today: Today,
)
    requires
        profile_of(state).is_some(),
    ensures
        spec_on_message(state, incoming, directory, today).error.is_none(),
        incoming.text.is_none() && !(state is SetPhotos) && !(state is SetSubjects) && !(state
            is SetSubjectsFilter) && !(state is SetDatingPurpose) ==> spec_on_message(
            state,
            incoming,
            directory,
            today,
        ) == asking(state),
{
}

/// While a stored profile is edited, one good answer ends the editing: a
/// message leads to the start, or leaves the conversation at the question
/// it stands at. The one way on is from the city to the location filter.
pub proof fn lemma_editing_ends_after_one_answer(
    state: State,
    incoming: Incoming,
    directory: &Directory,
    today: Today,
)
    requires
        profile_of(state).is_some(),
        !profile_of(state).unwrap().create_new,
    ensures
        ({
            let next = spec_on_message(state, incoming, directory, today).state;
            ||| next is Start
            ||| (next is SetName && state is SetName)
            ||| (next is SetGender && state is SetGender)
            ||| (next is SetGenderFilter && state is SetGenderFilter)
            ||| (next is SetGraduationYear && state is SetGraduationYear)
            ||| (next is SetSubjects && state is SetSubjects)
            ||| (next is SetSubjectsFilter && state is SetSubjectsFilter)
            ||| (next is SetDatingPurpose && state is SetDatingPurpose)
            ||| (next is SetCity && state is SetCity)
            ||| (next is SetLocationFilter && (state is SetLocationFilter || state is SetCity))
            ||| (next is SetAbout && state is SetAbout)
            ||| (next is SetPhotos && state is SetPhotos)
        }),
{
}

/// A reaction is taken at the start only: anywhere else the press of a
/// reaction's button changes nothing and is answered with a warning.
pub proof fn lemma_reactions_wait_for_the_start(
    state: State,
    data: Seq<char>,
    user: Option<User>,
    dating: Option<Dating>,
    chat_id: i64,
)
    requires
        !(state is Start),
        Callback::spec_from_str(data) is Ok,
        Callback::spec_from_str(data)->Ok_0 is Dating,
    ensures
        spec_on_callback(state, data, user, dating, chat_id) == (Outcome {
            state,
            actions: seq![Action::Alert(Notice::LeaveEditingFirst)],
            error: None,
        }),
{
}

/// No step stores a second reaction of one side: where a step asks to
/// store a reaction of the initiator, the pairing had none of the
/// initiator; and so for the partner.
pub proof fn lemma_one_reaction_each(code: RateCode, dating: Dating, i: int)
    requires
        0 <= i < spec_react(code, dating).actions.len(),
    ensures
        spec_react(code, dating).actions[i] is SetInitiatorReaction
            ==> dating.initiator_reaction.is_none(),
        spec_react(code, dating).actions[i] is SetPartnerReaction
            ==> dating.partner_reaction.is_none(),
        spec_react(code, dating).error.is_some() ==> spec_react(code, dating).state is Start,
{
}

} // verus!
