//! What a button of the chat carries: one character that says what was
//! pressed, then the number or the word that goes with it.

use vstd::prelude::*;
use vstd::std_specs::convert::TryFromSpecImpl;
use crate::strings::{
    chars_are, chars_of, lemma_decimal_reads_back, lemma_parse_signed_decimal, parse_chars,
    parse_int, parse_within, push_signed_decimal, push_text, signed_decimal,
};
use crate::types::{
    lemma_purpose_stored_and_read, lemma_subjects_stored_and_read, valid_purpose_bits,
    valid_subject_bits, DatingPurpose, Subjects,
};

verus! {

/// Why a button's text could not be read.
#[derive(Clone, Copy, Debug, PartialEq, Eq, Structural)]
pub enum CallbackError {
    /// The text is empty.
    NoCode,
    /// The first character is none of the known ones.
    UnknownCode,
    /// What follows the first character is no number that fits.
    InvalidNumber,
    /// The number holds a bit that stands for nothing.
    UnknownBits,
}

/// The five reactions to a profile: three of the one who was shown it, two
/// of the one who was liked.
#[derive(Clone, Copy, Debug, PartialEq, Eq, Structural)]
pub enum RateCode {
    Dislike,
    LikeWithMsg,
    Like,
    ResponseDislike,
    ResponseLike,
}

impl RateCode {
    /// The character that stands for the reaction.
    pub open spec fn spec_char(self) -> char {
        match self {
            RateCode::Dislike => '👎',
            RateCode::LikeWithMsg => '💌',
            RateCode::Like => '👍',
            RateCode::ResponseDislike => '💔',
            RateCode::ResponseLike => '❤',
        }
    }

    /// The reaction that a character stands for.
    pub open spec fn spec_from_char(c: char) -> Result<RateCode, CallbackError> {
        if c == '👎' {
            Ok(RateCode::Dislike)
        } else if c == '💌' {
            Ok(RateCode::LikeWithMsg)
        } else if c == '👍' {
            Ok(RateCode::Like)
        } else if c == '💔' {
            Ok(RateCode::ResponseDislike)
        } else if c == '❤' {
            Ok(RateCode::ResponseLike)
        } else {
            Err(CallbackError::UnknownCode)
        }
    }

    /// The character that stands for the reaction.
    #[verifier::when_used_as_spec(spec_char)]
    pub fn char(self) -> (c: char)
        ensures
            c == self.spec_char(),
    {
        match self {
            RateCode::Dislike => '👎',
            RateCode::LikeWithMsg => '💌',
            RateCode::Like => '👍',
            RateCode::ResponseDislike => '💔',
            RateCode::ResponseLike => '❤',
        }
    }
}

impl TryFrom<char> for RateCode {
    type Error = CallbackError;

    fn try_from(c: char) -> (code: Result<Self, CallbackError>) {
        if c == '👎' {
            Ok(Self::Dislike)
        } else if c == '💌' {
            Ok(Self::LikeWithMsg)
        } else if c == '👍' {
            Ok(Self::Like)
        } else if c == '💔' {
            Ok(Self::ResponseDislike)
        } else if c == '❤' {
            Ok(Self::ResponseLike)
        } else {
            Err(CallbackError::UnknownCode)
        }
    }
}

impl TryFromSpecImpl<char> for RateCode {
    open spec fn obeys_try_from_spec() -> bool {
        true
    }

    open spec fn try_from_spec(c: char) -> Result<Self, CallbackError> {
        Self::spec_from_char(c)
    }
}

/// A press in a keyboard of flags: the flags to switch, or the end of the
/// choosing.
#[derive(Debug, PartialEq, Eq, Structural)]
pub enum UpdateBitflags<T> {
    Update(T),
    Continue,
}

impl<T: Copy> Clone for UpdateBitflags<T> {
    fn clone(&self) -> (copy: Self)
        ensures
            copy == *self,
    {
        *self
    }
}

impl<T: Copy> Copy for UpdateBitflags<T> {

}

/// What a button carries.
#[derive(Clone, Copy, Debug, PartialEq, Eq, Structural)]
pub enum Callback {
    SetSubjects(UpdateBitflags<Subjects>),
    SetSubjectsFilter(UpdateBitflags<Subjects>),
    SetDatingPurpose(UpdateBitflags<DatingPurpose>),
    Edit,
    Dating { dating_id: i32, code: RateCode },
    CreateProfile,
    FindPartner,
}

/// The press that `data` stands for in a keyboard of subjects.
pub open spec fn spec_parse_subjects(data: Seq<char>) -> Result<
    UpdateBitflags<Subjects>,
    CallbackError,
> {
    if data == "continue"@ {
        Ok(UpdateBitflags::Continue)
    } else {
        match parse_within(data, i32::MIN as int, i32::MAX as int) {
            None => Err(CallbackError::InvalidNumber),
            Some(bits) => match Subjects::spec_from_bits(bits as i32) {
                None => Err(CallbackError::UnknownBits),
                Some(subjects) => Ok(UpdateBitflags::Update(subjects)),
            },
        }
    }
}

/// The press that `data` stands for in the keyboard of purposes.
pub open spec fn spec_parse_purpose(data: Seq<char>) -> Result<
    UpdateBitflags<DatingPurpose>,
    CallbackError,
> {
    if data == "continue"@ {
        Ok(UpdateBitflags::Continue)
    } else {
        match parse_within(data, i16::MIN as int, i16::MAX as int) {
            None => Err(CallbackError::InvalidNumber),
            Some(bits) => match DatingPurpose::spec_from_bits(bits as i16) {
                None => Err(CallbackError::UnknownBits),
                Some(purpose) => Ok(UpdateBitflags::Update(purpose)),
            },
        }
    }
}

impl Callback {
    /// The character that a button's text begins with.
    pub open spec fn spec_char_id(&self) -> char {
        match self {
            Callback::SetSubjects(_) => 's',
            Callback::SetSubjectsFilter(_) => 'd',
            Callback::SetDatingPurpose(_) => 'p',
            Callback::Edit => 'e',
            Callback::Dating { code, .. } => code.spec_char(),
            Callback::CreateProfile => '✍',
            Callback::FindPartner => '🚀',
        }
    }

    /// The character that a button's text begins with.
    #[verifier::when_used_as_spec(spec_char_id)]
    pub fn char_id(&self) -> (c: char)
        ensures
            c == self.spec_char_id(),
    {
        match self {
            Callback::SetSubjects(_) => 's',
            Callback::SetSubjectsFilter(_) => 'd',
            Callback::SetDatingPurpose(_) => 'p',
            Callback::Edit => 'e',
            Callback::Dating { code, .. } => code.char(),
            Callback::CreateProfile => '✍',
            Callback::FindPartner => '🚀',
        }
    }

    /// What follows the first character: the bits of the flags or the word
    /// for the end of the choosing, the pairing's number, or nothing.
    pub open spec fn spec_data(self) -> Seq<char> {
        match self {
            Callback::SetSubjects(UpdateBitflags::Update(s)) => signed_decimal(s@ as int),
            Callback::SetSubjectsFilter(UpdateBitflags::Update(s)) => signed_decimal(s@ as int),
            Callback::SetDatingPurpose(UpdateBitflags::Update(p)) => signed_decimal(p@ as int),
            Callback::SetSubjects(UpdateBitflags::Continue) => "continue"@,
            Callback::SetSubjectsFilter(UpdateBitflags::Continue) => "continue"@,
            Callback::SetDatingPurpose(UpdateBitflags::Continue) => "continue"@,
            Callback::Dating { dating_id, .. } => signed_decimal(dating_id as int),
            Callback::Edit => Seq::empty(),
            Callback::CreateProfile => Seq::empty(),
            Callback::FindPartner => Seq::empty(),
        }
    }

    /// The text of the button: the first character, then the data.
    pub open spec fn spec_text(self) -> Seq<char> {
        seq![self.spec_char_id()] + self.spec_data()
    }

    /// The text of the button.
    pub fn text(&self) -> (text: String)
        ensures
            text@ == self.spec_text(),
    {
        let mut text = String::new();
        text.push(self.char_id());
        match self {
            Callback::SetSubjects(UpdateBitflags::Update(s)) => {
                push_signed_decimal(&mut text, s.bits() as i64);
            },
            Callback::SetSubjectsFilter(UpdateBitflags::Update(s)) => {
                push_signed_decimal(&mut text, s.bits() as i64);
            },
            Callback::SetDatingPurpose(UpdateBitflags::Update(p)) => {
                push_signed_decimal(&mut text, p.bits() as i64);
            },
            Callback::SetSubjects(UpdateBitflags::Continue) => {
                push_text(&mut text, "continue");
            },
            Callback::SetSubjectsFilter(UpdateBitflags::Continue) => {
                push_text(&mut text, "continue");
            },
            Callback::SetDatingPurpose(UpdateBitflags::Continue) => {
                push_text(&mut text, "continue");
            },
            Callback::Dating { dating_id, .. } => {
                push_signed_decimal(&mut text, *dating_id as i64);
            },
            Callback::Edit => {},
            Callback::CreateProfile => {},
            Callback::FindPartner => {},
        }
        assert(text@ =~= self.spec_text());
        text
    }

    /// What a button's text stands for. The first character decides; what
    /// follows it is read as that character asks, and is not looked at
    /// where it asks for nothing.
    pub open spec fn spec_from_str(s: Seq<char>) -> Result<Callback, CallbackError> {
        if s.len() == 0 {
            Err(CallbackError::NoCode)
        } else {
            let data = s.skip(1);
            if s[0] == 's' {
                match spec_parse_subjects(data) {
                    Ok(update) => Ok(Callback::SetSubjects(update)),
                    Err(e) => Err(e),
                }
            } else if s[0] == 'd' {
                match spec_parse_subjects(data) {
                    Ok(update) => Ok(Callback::SetSubjectsFilter(update)),
                    Err(e) => Err(e),
                }
            } else if s[0] == 'p' {
                match spec_parse_purpose(data) {
                    Ok(update) => Ok(Callback::SetDatingPurpose(update)),
                    Err(e) => Err(e),
                }
            } else if s[0] == 'e' {
                Ok(Callback::Edit)
            } else if s[0] == '✍' {
                Ok(Callback::CreateProfile)
            } else if s[0] == '🚀' {
                Ok(Callback::FindPartner)
            } else {
                match RateCode::spec_from_char(s[0]) {
                    Err(e) => Err(e),
                    Ok(code) => match parse_within(data, i32::MIN as int, i32::MAX as int) {
                        None => Err(CallbackError::InvalidNumber),
                        Some(id) => Ok(Callback::Dating { dating_id: id as i32, code }),
                    },
                }
            }
        }
    }

    /// Reads a button's text.
    pub fn from_str(s: &str) -> (callback: Result<Callback, CallbackError>)
        ensures
            callback == Self::spec_from_str(s@),
    {
        let chars = chars_of(s);
        if chars.len() == 0 {
            return Err(CallbackError::NoCode);
        }
        let first = chars[0];
        if first == 's' {
            match parse_subjects(&chars) {
                Ok(update) => Ok(Callback::SetSubjects(update)),
                Err(e) => Err(e),
            }
        } else if first == 'd' {
            match parse_subjects(&chars) {
                Ok(update) => Ok(Callback::SetSubjectsFilter(update)),
                Err(e) => Err(e),
            }
        } else if first == 'p' {
            match parse_purpose(&chars) {
                Ok(update) => Ok(Callback::SetDatingPurpose(update)),
                Err(e) => Err(e),
            }
        } else if first == 'e' {
            Ok(Callback::Edit)
        } else if first == '✍' {
            Ok(Callback::CreateProfile)
        } else if first == '🚀' {
            Ok(Callback::FindPartner)
        } else {
            match RateCode::try_from(first) {
                Err(e) => Err(e),
                Ok(code) => match parse_chars(&chars, 1, -0x8000_0000, 0x7fff_ffff) {
                    None => Err(CallbackError::InvalidNumber),
                    Some(id) => Ok(Callback::Dating { dating_id: id as i32, code }),
                },
            }
        }
    }
}

/// Reads what follows the first character of a press in a keyboard of
/// subjects.
fn parse_subjects(chars: &Vec<char>) -> (update: Result<UpdateBitflags<Subjects>, CallbackError>)
    requires
        chars.len() >= 1,
    ensures
        update == spec_parse_subjects(chars@.skip(1)),
{
    if chars_are(chars, 1, "continue") {
        return Ok(UpdateBitflags::Continue);
    }
    match parse_chars(chars, 1, -0x8000_0000, 0x7fff_ffff) {
        None => Err(CallbackError::InvalidNumber),
        Some(bits) => match Subjects::from_bits(bits as i32) {
            None => Err(CallbackError::UnknownBits),
            Some(subjects) => Ok(UpdateBitflags::Update(subjects)),
        },
    }
}

/// Reads what follows the first character of a press in the keyboard of
/// purposes.
fn parse_purpose(chars: &Vec<char>) -> (update: Result<UpdateBitflags<DatingPurpose>, CallbackError>)
    requires
        chars.len() >= 1,
    ensures
        update == spec_parse_purpose(chars@.skip(1)),
{
    if chars_are(chars, 1, "continue") {
        return Ok(UpdateBitflags::Continue);
    }
    match parse_chars(chars, 1, -0x8000, 0x7fff) {
        None => Err(CallbackError::InvalidNumber),
        Some(bits) => match DatingPurpose::from_bits(bits as i16) {
            None => Err(CallbackError::UnknownBits),
            Some(purpose) => Ok(UpdateBitflags::Update(purpose)),
        },
    }
}

/// Whether the flags that the button carries are known ones.
pub open spec fn carries_known_bits(callback: Callback) -> bool {
    match callback {
        Callback::SetSubjects(UpdateBitflags::Update(s)) => valid_subject_bits(s@),
        Callback::SetSubjectsFilter(UpdateBitflags::Update(s)) => valid_subject_bits(s@),
        Callback::SetDatingPurpose(UpdateBitflags::Update(p)) => valid_purpose_bits(p@),
        _ => true,
    }
}

/// A number in writing is not the word for the end of the choosing, and
/// reads back as itself.
proof fn lemma_number_is_no_word(v: int)
    ensures
        signed_decimal(v) != "continue"@,
        parse_int(signed_decimal(v)) == Some(v),
{
    reveal_strlit("continue");
    lemma_parse_signed_decimal(v);
    if v < 0 {
        assert(signed_decimal(v)[0] == '-');
    } else {
        lemma_decimal_reads_back(v as nat);
    }
    assert("continue"@[0] == 'c');
}

/// Reading the text of a button gives the button back.
pub proof fn lemma_callback_text_reads_back(callback: Callback)
    requires
        carries_known_bits(callback),
    ensures
        Callback::spec_from_str(callback.spec_text()) == Ok::<Callback, CallbackError>(callback),
{
    let text = callback.spec_text();
    let data = callback.spec_data();
    assert(text[0] == callback.spec_char_id());
    assert(text.skip(1) == data);
    match callback {
        Callback::SetSubjects(UpdateBitflags::Update(s)) => {
            lemma_number_is_no_word(s@ as int);
            lemma_subjects_stored_and_read(s);
        },
        Callback::SetSubjectsFilter(UpdateBitflags::Update(s)) => {
            lemma_number_is_no_word(s@ as int);
            lemma_subjects_stored_and_read(s);
        },
        Callback::SetDatingPurpose(UpdateBitflags::Update(p)) => {
            lemma_number_is_no_word(p@ as int);
            lemma_purpose_stored_and_read(p);
        },
        Callback::Dating { dating_id, code } => {
            lemma_number_is_no_word(dating_id as int);
        },
        _ => {},
    }
}

} // verus!
