use bvilove::callbacks::{Callback, CallbackError, RateCode, UpdateBitflags};
use bvilove::strings::parse_bounded;
use bvilove::types::{DatingPurpose, Subjects, ART, MATH, STUDIES};

fn all_rate_codes() -> [RateCode; 5] {
    [
        RateCode::Dislike,
        RateCode::LikeWithMsg,
        RateCode::Like,
        RateCode::ResponseDislike,
        RateCode::ResponseLike,
    ]
}

#[test]
fn callback_char_ids() {
    let subjects = Subjects::from_bits(MATH).unwrap();
    assert_eq!(Callback::SetSubjects(UpdateBitflags::Update(subjects)).char_id(), 's');
    assert_eq!(Callback::SetSubjectsFilter(UpdateBitflags::Continue).char_id(), 'd');
    assert_eq!(Callback::SetDatingPurpose(UpdateBitflags::Continue).char_id(), 'p');
    assert_eq!(Callback::Edit.char_id(), 'e');
    assert_eq!(Callback::CreateProfile.char_id(), '✍');
    assert_eq!(Callback::FindPartner.char_id(), '🚀');
    assert_eq!(Callback::Dating { dating_id: 1, code: RateCode::Dislike }.char_id(), '👎');
    assert_eq!(Callback::Dating { dating_id: 1, code: RateCode::LikeWithMsg }.char_id(), '💌');
    assert_eq!(Callback::Dating { dating_id: 1, code: RateCode::Like }.char_id(), '👍');
    assert_eq!(Callback::Dating { dating_id: 1, code: RateCode::ResponseDislike }.char_id(), '💔');
    assert_eq!(Callback::Dating { dating_id: 1, code: RateCode::ResponseLike }.char_id(), '❤');
}

#[test]
fn rate_code_characters_read_back() {
    for code in all_rate_codes() {
        assert_eq!(RateCode::try_from(code.char()), Ok(code));
    }
    assert_eq!(RateCode::try_from('x'), Err(CallbackError::UnknownCode));
}

#[test]
fn callback_texts() {
    let subjects = Subjects::from_bits(MATH | ART).unwrap();
    assert_eq!(Callback::SetSubjects(UpdateBitflags::Update(subjects)).text(), "s65537");
    assert_eq!(Callback::SetSubjectsFilter(UpdateBitflags::Update(Subjects::empty())).text(), "d0");
    assert_eq!(Callback::SetSubjects(UpdateBitflags::Continue).text(), "scontinue");
    assert_eq!(Callback::SetSubjectsFilter(UpdateBitflags::Continue).text(), "dcontinue");
    let purpose = DatingPurpose::from_bits(STUDIES).unwrap();
    assert_eq!(Callback::SetDatingPurpose(UpdateBitflags::Update(purpose)).text(), "p2");
    assert_eq!(Callback::SetDatingPurpose(UpdateBitflags::Continue).text(), "pcontinue");
    assert_eq!(Callback::Edit.text(), "e");
    assert_eq!(Callback::CreateProfile.text(), "✍");
    assert_eq!(Callback::FindPartner.text(), "🚀");
    assert_eq!(Callback::Dating { dating_id: 42, code: RateCode::Like }.text(), "👍42");
    assert_eq!(Callback::Dating { dating_id: -7, code: RateCode::Dislike }.text(), "👎-7");
    assert_eq!(
        Callback::Dating { dating_id: i32::MIN, code: RateCode::ResponseLike }.text(),
        "❤-2147483648"
    );
}

#[test]
fn callback_text_reads_back() {
    let mut callbacks = vec![
        Callback::Edit,
        Callback::CreateProfile,
        Callback::FindPartner,
        Callback::SetSubjects(UpdateBitflags::Continue),
        Callback::SetSubjectsFilter(UpdateBitflags::Continue),
        Callback::SetDatingPurpose(UpdateBitflags::Continue),
    ];
    for bits in [0, 1, MATH, MATH | ART, 0xff_ffff] {
        let subjects = Subjects::from_bits(bits).unwrap();
        callbacks.push(Callback::SetSubjects(UpdateBitflags::Update(subjects)));
        callbacks.push(Callback::SetSubjectsFilter(UpdateBitflags::Update(subjects)));
    }
    for bits in 0..8 {
        let purpose = DatingPurpose::from_bits(bits).unwrap();
        callbacks.push(Callback::SetDatingPurpose(UpdateBitflags::Update(purpose)));
    }
    for code in all_rate_codes() {
        for dating_id in [0, 1, 99, -1, i32::MAX, i32::MIN] {
            callbacks.push(Callback::Dating { dating_id, code });
        }
    }
    for callback in callbacks {
        assert_eq!(Callback::from_str(&callback.text()), Ok(callback));
    }
}

#[test]
fn callback_reading_failures() {
    assert_eq!(Callback::from_str(""), Err(CallbackError::NoCode));
    assert_eq!(Callback::from_str("x1"), Err(CallbackError::UnknownCode));
    assert_eq!(Callback::from_str("S1"), Err(CallbackError::UnknownCode));
    assert_eq!(Callback::from_str("s"), Err(CallbackError::InvalidNumber));
    assert_eq!(Callback::from_str("sabc"), Err(CallbackError::InvalidNumber));
    assert_eq!(Callback::from_str("s1 "), Err(CallbackError::InvalidNumber));
    assert_eq!(Callback::from_str("sContinue"), Err(CallbackError::InvalidNumber));
    assert_eq!(Callback::from_str("s2147483648"), Err(CallbackError::InvalidNumber));
    assert_eq!(Callback::from_str("s16777216"), Err(CallbackError::UnknownBits));
    assert_eq!(Callback::from_str("d-1"), Err(CallbackError::UnknownBits));
    assert_eq!(Callback::from_str("p8"), Err(CallbackError::UnknownBits));
    assert_eq!(Callback::from_str("p32768"), Err(CallbackError::InvalidNumber));
    assert_eq!(Callback::from_str("👍"), Err(CallbackError::InvalidNumber));
    assert_eq!(Callback::from_str("👍x"), Err(CallbackError::InvalidNumber));
    assert_eq!(Callback::from_str("💔99999999999"), Err(CallbackError::InvalidNumber));
}

#[test]
fn callback_reading_ignores_what_it_does_not_need() {
    assert_eq!(Callback::from_str("eИмя"), Ok(Callback::Edit));
    assert_eq!(Callback::from_str("eОтмена"), Ok(Callback::Edit));
    assert_eq!(Callback::from_str("✍anything"), Ok(Callback::CreateProfile));
    assert_eq!(Callback::from_str("🚀1"), Ok(Callback::FindPartner));
}

#[test]
fn callback_reading_takes_signs_and_leading_zeros() {
    let math = Subjects::from_bits(MATH).unwrap();
    assert_eq!(Callback::from_str("s+65536"), Ok(Callback::SetSubjects(UpdateBitflags::Update(math))));
    assert_eq!(Callback::from_str("s0065536"), Ok(Callback::SetSubjects(UpdateBitflags::Update(math))));
    assert_eq!(
        Callback::from_str("d-0"),
        Ok(Callback::SetSubjectsFilter(UpdateBitflags::Update(Subjects::empty())))
    );
    assert_eq!(
        Callback::from_str("👎007"),
        Ok(Callback::Dating { dating_id: 7, code: RateCode::Dislike })
    );
}

#[test]
fn numbers_are_read_as_the_standard_library_reads_them() {
    let texts = [
        "", "+", "-", "0", "-0", "+0", "00", "12", "+12", "-12", "2147483647", "2147483648",
        "-2147483648", "-2147483649", "99999999999999999999", "1a", "a1", " 1", "1 ", "--1", "+-1",
        "１２", "1_000", "0x10", "000000000000000000000000000001",
    ];
    for text in texts {
        let expected = text.parse::<i32>().ok().map(|v| v as i64);
        assert_eq!(parse_bounded(text, i32::MIN as i64, i32::MAX as i64), expected, "{}", text);
        let expected = text.parse::<i16>().ok().map(|v| v as i64);
        assert_eq!(parse_bounded(text, i16::MIN as i64, i16::MAX as i64), expected, "{}", text);
        let expected = text.parse::<i8>().ok().map(|v| v as i64);
        assert_eq!(parse_bounded(text, i8::MIN as i64, i8::MAX as i64), expected, "{}", text);
    }
    assert_eq!(parse_bounded("32767", -32768, 32767), Some(32767));
    assert_eq!(parse_bounded("32768", -32768, 32767), None);
    assert_eq!(parse_bounded("-32768", -32768, 32767), Some(-32768));
    assert_eq!(parse_bounded("-32769", -32768, 32767), None);
}

#[test]
fn numbers_are_read_within_any_window() {
    assert_eq!(parse_bounded("1", 1, 11), Some(1));
    assert_eq!(parse_bounded("11", 1, 11), Some(11));
    assert_eq!(parse_bounded("0", 1, 11), None);
    assert_eq!(parse_bounded("12", 1, 11), None);
    assert_eq!(parse_bounded("-0", 1, 11), None);
    assert_eq!(parse_bounded("-5", -7, -3), Some(-5));
    assert_eq!(parse_bounded("-2", -7, -3), None);
    assert_eq!(parse_bounded("5", 7, 3), None);
    assert_eq!(parse_bounded("9223372036854775807", i64::MIN, i64::MAX), Some(i64::MAX));
    assert_eq!(parse_bounded("9223372036854775808", i64::MIN, i64::MAX), None);
    assert_eq!(parse_bounded("-9223372036854775808", i64::MIN, i64::MAX), Some(i64::MIN));
    assert_eq!(parse_bounded("-9223372036854775809", i64::MIN, i64::MAX), None);
    assert_eq!(parse_bounded("+9223372036854775808", i64::MIN, i64::MAX), None);
    assert_eq!(parse_bounded("0000000000000000000000000000000000000042", 0, 100), Some(42));
    for text in ["", "-", "7", "-7", "123456789012345678901234567890", "9223372036854775807"] {
        assert_eq!(parse_bounded(text, i64::MIN, i64::MAX), text.parse::<i64>().ok(), "{}", text);
    }
}
