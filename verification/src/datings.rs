//! Showing a profile to a user and passing reactions on: what is decided
//! before and after the messages go out.

use vstd::prelude::*;
use crate::callbacks::{Callback, RateCode};
use crate::db::MatchOutcome;
use crate::entities::Dating;
use crate::keyboard::{Button, ButtonView};
use crate::profile::EditProfile;
use crate::strings::push_text;

verus! {

/// What stands between a user and the next profile.
#[derive(Clone, Copy, Debug, PartialEq, Eq, Structural)]
pub enum Gate {
    /// The user has not joined the channel.
    Subscribe,
    /// The user cannot be linked to.
    AllowForwarding,
    /// Nothing: the search can begin.
    Open,
}

/// What stands between a user and the next profile: the channel comes
/// first, then the link.
pub open spec fn spec_gate(subscribed: bool, has_link: bool) -> Gate {
    if !subscribed {
        Gate::Subscribe
    } else if !has_link {
        Gate::AllowForwarding
    } else {
        Gate::Open
    }
}

/// What stands between a user and the next profile.
#[verifier::when_used_as_spec(spec_gate)]
pub fn gate(subscribed: bool, has_link: bool) -> (gate: Gate)
    ensures
        gate == spec_gate(subscribed, has_link),
{
    if !subscribed {
        Gate::Subscribe
    } else if !has_link {
        Gate::AllowForwarding
    } else {
        Gate::Open
    }
}

/// A button that shows `label` and carries `callback`.
pub fn callback_button(label: &str, callback: Callback) -> (button: Button)
    ensures
        button@ == (ButtonView { text: label@, data: callback.spec_text() }),
{
    let mut text = String::new();
    push_text(&mut text, label);
    Button { text, data: callback.text() }
}

/// The button of a reaction to the pairing `dating_id`: it shows the
/// reaction's sign and carries the sign and the pairing's number.
pub open spec fn rate_button(dating_id: i32, code: RateCode) -> ButtonView {
    ButtonView {
        text: seq![code.spec_char()],
        data: (Callback::Dating { dating_id, code }).spec_text(),
    }
}

/// The button of a reaction to the pairing `dating_id`.
fn make_rate_button(dating_id: i32, code: RateCode) -> (button: Button)
    ensures
        button@ == rate_button(dating_id, code),
{
    let mut text = String::new();
    text.push(code.char());
    Button { text, data: (Callback::Dating { dating_id, code }).text() }
}

/// The reactions offered to the one who is shown a profile: dislike, like
/// with a message, like.
pub fn rate_keyboard(dating_id: i32) -> (row: Vec<Button>)
    ensures
        row@.len() == 3,
        row@[0]@ == rate_button(dating_id, RateCode::Dislike),
        row@[1]@ == rate_button(dating_id, RateCode::LikeWithMsg),
        row@[2]@ == rate_button(dating_id, RateCode::Like),
{
    let mut row: Vec<Button> = Vec::new();
    row.push(make_rate_button(dating_id, RateCode::Dislike));
    row.push(make_rate_button(dating_id, RateCode::LikeWithMsg));
    row.push(make_rate_button(dating_id, RateCode::Like));
    row
}

/// The reactions offered to the one who was liked: dislike, like.
pub fn response_keyboard(dating_id: i32) -> (row: Vec<Button>)
    ensures
        row@.len() == 2,
        row@[0]@ == rate_button(dating_id, RateCode::ResponseDislike),
        row@[1]@ == rate_button(dating_id, RateCode::ResponseLike),
{
    let mut row: Vec<Button> = Vec::new();
    row.push(make_rate_button(dating_id, RateCode::ResponseDislike));
    row.push(make_rate_button(dating_id, RateCode::ResponseLike));
    row
}

/// What the one who was liked is told: that somebody liked them, the words
/// that came with the like where there are any, and the profile of the one
/// who liked.
pub open spec fn spec_like_message(profile: Seq<char>, message: Option<Seq<char>>) -> Seq<char> {
    match message {
        None => "Кому-то понравилась ваша анкета:\n\n"@ + profile,
        Some(words) => "Кому-то понравилась ваша анкета и он оставил вам сообщение:\n"@ + words
            + "\n\n"@ + profile,
    }
}

/// What the one who was liked is told.
pub fn like_message(profile: &str, message: Option<&str>) -> (text: String)
    ensures
        text@ == spec_like_message(
            profile@,
            match message {
                Some(words) => Some(words@),
                None => None,
            },
        ),
{
    let mut text = String::new();
    match message {
        None => {
            push_text(&mut text, "Кому-то понравилась ваша анкета:\n\n");
        },
        Some(words) => {
            push_text(&mut text, "Кому-то понравилась ваша анкета и он оставил вам сообщение:\n");
            push_text(&mut text, words);
            push_text(&mut text, "\n\n");
        },
    }
    push_text(&mut text, profile);
    text
}

/// What a user is told with their own profile.
pub fn own_profile_message(profile: &str) -> (text: String)
    ensures
        text@ == "Так выглядит ваша анкета:\n\n"@ + profile@,
{
    let mut text = String::new();
    push_text(&mut text, "Так выглядит ваша анкета:\n\n");
    push_text(&mut text, profile);
    text
}

/// What the initiator is told when the partner likes back.
pub fn mutual_like_message(profile: &str) -> (text: String)
    ensures
        text@ == "Взаимный лайк!\n\n"@ + profile@,
{
    let mut text = String::new();
    push_text(&mut text, "Взаимный лайк!\n\n");
    push_text(&mut text, profile);
    text
}

/// The patch that switches off the profile of a partner who cannot be
/// reached any more.
pub fn unreachable_partner(dating: &Dating) -> (patch: EditProfile)
    ensures
        patch == (EditProfile { active: Some(false), ..EditProfile::blank(dating.partner_id, true) }),
{
    let mut patch = EditProfile::new(dating.partner_id);
    patch.active = Some(false);
    patch
}

/// One thing to do when the outcome of a search is shown to the user.
#[derive(Clone, Copy, Debug, PartialEq, Eq, Structural)]
pub enum Showing {
    /// Take the buttons off the message under which the pairing was shown
    /// before; it does not matter if that fails.
    ClearButtons(i32),
    /// Send the pictures of this user.
    Photos(i64),
    /// Send the profile of the partner with the reactions to this pairing
    /// under it.
    Profile { partner_id: i64, dating_id: i32 },
    /// Note, for this pairing, the message that the profile was sent as.
    NoteMessage(i32),
    /// Say that nobody was found, and offer to try again.
    Nobody,
}

/// What is done, in order, to show the outcome of a search: for a pairing,
/// the buttons of its earlier message go where there was one, then come
/// the partner's pictures, the partner's profile, and the note of the new
/// message; for nobody, the one sentence.
pub open spec fn spec_showing(outcome: MatchOutcome) -> Seq<Showing> {
    match outcome {
        MatchOutcome::Found(dating, partner) => (match dating.initiator_msg_id {
            Some(message) => seq![Showing::ClearButtons(message)],
            None => Seq::empty(),
        }) + seq![
            Showing::Photos(partner.id),
            Showing::Profile { partner_id: partner.id, dating_id: dating.id },
            Showing::NoteMessage(dating.id),
        ],
        MatchOutcome::NoneAvailable => seq![Showing::Nobody],
    }
}

/// What is done, in order, to show the outcome of a search.
pub fn showing(outcome: &MatchOutcome) -> (steps: Vec<Showing>)
    ensures
        steps@ == spec_showing(*outcome),
{
    let mut steps: Vec<Showing> = Vec::new();
    match outcome {
        MatchOutcome::Found(dating, partner) => {
            match dating.initiator_msg_id {
                Some(message) => {
                    steps.push(Showing::ClearButtons(message));
                },
                None => {},
            }
            let ghost cleared = steps@;
            steps.push(Showing::Photos(partner.id));
            steps.push(Showing::Profile { partner_id: partner.id, dating_id: dating.id });
            steps.push(Showing::NoteMessage(dating.id));
            assert(steps@ =~= cleared + seq![
                Showing::Photos(partner.id),
                Showing::Profile { partner_id: partner.id, dating_id: dating.id },
                Showing::NoteMessage(dating.id),
            ]);
        },
        MatchOutcome::NoneAvailable => {
            steps.push(Showing::Nobody);
        },
    }
    steps
}

/// Why a message to a partner did not go out.
#[derive(Clone, Copy, Debug, PartialEq, Eq, Structural)]
pub enum SendFailure {
    /// The partner has blocked the bot.
    BotBlocked,
    /// The partner's account is gone.
    UserDeactivated,
    /// Anything else.
    Other,
}

/// Whether a failure means that the partner cannot be reached any more: a
/// partner who blocked the bot or whose account is gone is switched off
/// and told nothing further; any other failure is noted and passed over.
pub open spec fn spec_partner_is_gone(failure: SendFailure) -> bool {
    failure == SendFailure::BotBlocked || failure == SendFailure::UserDeactivated
}

/// Whether a failure means that the partner cannot be reached any more.
#[verifier::when_used_as_spec(spec_partner_is_gone)]
pub fn partner_is_gone(failure: SendFailure) -> (gone: bool)
    ensures
        gone == spec_partner_is_gone(failure),
{
    match failure {
        SendFailure::BotBlocked => true,
        SendFailure::UserDeactivated => true,
        SendFailure::Other => false,
    }
}

} // verus!
