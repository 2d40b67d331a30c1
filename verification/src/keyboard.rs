//! The keyboards of buttons that the conversation shows, as plain rows.

use vstd::prelude::*;
use core::cmp::Ordering;
use itertools::Itertools;
use crate::callbacks::{lemma_callback_text_reads_back, Callback, CallbackError, UpdateBitflags};
use crate::cities::{city_by_id, county_by_id, name_of, subject_by_id, Directory};
use crate::cities::{spec_county_of, spec_subject_region_of};
use crate::strings::{
    chars_of, lowercase_key, lowercase_of, push_signed_decimal, push_text, same_chars,
    signed_decimal, text_le, text_order, TextOrder,
};
use crate::text::{SUBJECTS_CONTINUE, SUBJECTS_PARTNER_EMPTY, SUBJECTS_USER_EMPTY};
use crate::types::{
    lemma_subject_bits_round_trip, name_of_bits, spec_subject_flag, subject_flag, subject_name,
    valid_subject_bits, DatingPurpose, Subjects, FRIENDSHIP, RELATIONSHIP, STUDIES, SUBJECT_COUNT,
};

verus! {

/// A button under a message: what it shows and what it carries.
#[derive(Debug, PartialEq, Eq)]
pub struct Button {
    pub text: String,
    pub data: String,
}

/// What a button shows and carries, as characters.
pub struct ButtonView {
    pub text: Seq<char>,
    pub data: Seq<char>,
}

impl View for Button {
    type V = ButtonView;

    open spec fn view(&self) -> ButtonView {
        ButtonView { text: self.text@, data: self.data@ }
    }
}

impl Clone for Button {
    fn clone(&self) -> (copy: Button)
        ensures
            copy == *self,
    {
        Button { text: self.text.clone(), data: self.data.clone() }
    }
}

/// The rows of a keyboard, each button by what it shows and carries.
pub open spec fn rows_view(rows: Seq<Vec<Button>>) -> Seq<Seq<ButtonView>> {
    Seq::new(rows.len(), |r: int| Seq::new(rows[r]@.len(), |c: int| rows[r]@[c]@))
}

/// The buttons of a row, each by what it shows and carries.
pub open spec fn row_view(row: Seq<Button>) -> Seq<ButtonView> {
    Seq::new(row.len(), |c: int| row[c]@)
}

/// The smaller of two numbers.
pub open spec fn smaller(a: int, b: int) -> int {
    if a <= b {
        a
    } else {
        b
    }
}

/// `items` in rows of three, the last row shorter where they do not divide.
pub open spec fn rows_of_three<T>(items: Seq<T>) -> Seq<Seq<T>> {
    Seq::new(
        ((items.len() + 2) / 3) as nat,
        |r: int| items.subrange(3 * r, smaller(3 * r + 3, items.len() as int)),
    )
}

/// `buttons` in rows of three, the last row shorter where they do not
/// divide.
pub fn in_rows_of_three(buttons: &Vec<Button>) -> (rows: Vec<Vec<Button>>)
    ensures
        rows_view(rows@) == rows_of_three(row_view(buttons@)),
{
    let mut rows: Vec<Vec<Button>> = Vec::new();
    let ghost wanted = rows_of_three(row_view(buttons@));
    let mut i: usize = 0;
    while i < buttons.len()
        invariant
            i <= buttons.len(),
            i % 3 == 0 || i == buttons.len(),
            wanted == rows_of_three(row_view(buttons@)),
            rows@.len() == (i + 2) / 3,
            forall|r: int| 0 <= r < rows@.len() ==> row_view((#[trigger] rows@[r])@) == wanted[r],
        decreases buttons.len() - i,
    {
        let mut row: Vec<Button> = Vec::new();
        let end: usize = if buttons.len() - i < 3 {
            buttons.len()
        } else {
            i + 3
        };
        let mut k: usize = i;
        while k < end
            invariant
                i <= k <= end <= buttons.len(),
                row@.len() == k - i,
                forall|c: int| 0 <= c < row@.len() ==> (#[trigger] row@[c]) == buttons@[i + c],
            decreases end - k,
        {
            row.push(buttons[k].clone());
            k += 1;
        }
        assert(row_view(row@) =~= wanted[i as int / 3]);
        rows.push(row);
        i = end;
    }
    assert(rows_view(rows@) =~= wanted);
    rows
}

/// The key by which the subject whose bit is `flag` is put in order: the
/// lower-case form of its name; that of the empty text for no subject.
pub open spec fn name_key(flag: i32) -> Seq<char> {
    match subject_name(flag) {
        Some(name) => lowercase_of(name),
        None => lowercase_of(Seq::empty()),
    }
}

/// Which of two subjects comes first by the lower-case forms of their
/// names.
pub fn compare_flags(a: i32, b: i32) -> (order: Ordering)
    ensures
        (order == Ordering::Equal) == (name_key(a) == name_key(b)),
        (order == Ordering::Greater) == !text_le(name_key(a), name_key(b)),
{
    let a_name = match name_of_bits(a) {
        Ok(name) => name,
        Err(_) => "",
    };
    let b_name = match name_of_bits(b) {
        Ok(name) => name,
        Err(_) => "",
    };
    proof {
        reveal_strlit("");
        assert(""@ =~= Seq::<char>::empty());
    }
    let a_key = chars_of(lowercase_key(a_name).as_str());
    let b_key = chars_of(lowercase_key(b_name).as_str());
    match text_order(&a_key, &b_key) {
        TextOrder::Before => Ordering::Less,
        TextOrder::Same => Ordering::Equal,
        TextOrder::After => Ordering::Greater,
    }
}

/// Whether the keys of `flags` rise, or stay, from each to the next.
pub open spec fn in_name_order(flags: Seq<i32>) -> bool {
    forall|i: int, j: int|
        0 <= i < j < flags.len() ==> text_le(name_key(#[trigger] flags[i]), name_key(#[trigger] flags[j]))
}

/// `Itertools::sorted_by`, with `compare_flags` as the order: it collects
/// the items and sorts them with `slice::sort_by`. Claimed: the result
/// holds the same flags, each as often as before, and no flag's key is
/// greater than the next one's. That flags with one key keep their order is
/// not claimed.
#[verifier::external_body]
fn sorted_by_name(flags: Vec<i32>) -> (sorted: Vec<i32>)
    ensures
        sorted@.to_multiset() == flags@.to_multiset(),
        in_name_order(sorted@),
{
    flags.into_iter().sorted_by(|a, b| compare_flags(*a, *b)).collect()
}

/// Every subject's bit, lowest first.
pub open spec fn all_flags() -> Seq<i32> {
    Seq::new(SUBJECT_COUNT as nat, |i: int| spec_subject_flag(i))
}

/// Whether `order` lists every subject's bit once, by the lower-case forms
/// of the names.
pub open spec fn is_flag_listing(order: Seq<i32>) -> bool {
    order.to_multiset() == all_flags().to_multiset() && in_name_order(order)
}

/// Every subject's bit, in the order of the lower-case forms of the names.
pub fn flags_by_name() -> (order: Vec<i32>)
    ensures
        is_flag_listing(order@),
{
    let mut flags: Vec<i32> = Vec::new();
    let mut i: usize = 0;
    while i < SUBJECT_COUNT
        invariant
            i <= SUBJECT_COUNT,
            flags@.len() == i,
            forall|k: int| 0 <= k < i ==> (#[trigger] flags@[k]) == spec_subject_flag(k),
        decreases SUBJECT_COUNT - i,
    {
        flags.push(subject_flag(i));
        i += 1;
    }
    assert(flags@ =~= all_flags());
    sorted_by_name(flags)
}

/// For whom subjects are chosen.
#[derive(Clone, Copy, Debug, PartialEq, Eq, Structural)]
pub enum SubjectsKeyboardType {
    User,
    Partner,
}

impl SubjectsKeyboardType {
    /// The character that the buttons' data begin with.
    pub open spec fn spec_code(self) -> char {
        match self {
            SubjectsKeyboardType::Partner => 'd',
            SubjectsKeyboardType::User => 's',
        }
    }
}

/// What a button shows for a flag called `name`: the name, with a tick
/// before it where the flag is chosen.
pub open spec fn flag_text(chosen: bool, name: Seq<char>) -> Seq<char> {
    if chosen {
        "✅ "@ + name
    } else {
        name
    }
}

/// The button of the subject whose bit is `flag` in a keyboard where
/// `selected` are chosen: it carries the keyboard's character and the bit.
pub open spec fn subject_button(selected: i32, tp: SubjectsKeyboardType, flag: i32) -> ButtonView {
    ButtonView {
        text: flag_text(selected & flag == flag, subject_name(flag).unwrap()),
        data: seq![tp.spec_code()] + signed_decimal(flag as int),
    }
}

/// The button that ends the choosing: it says so, or names the empty
/// choice where nothing is chosen, and carries the word for going on.
pub open spec fn continue_button(selected: i32, tp: SubjectsKeyboardType) -> ButtonView {
    ButtonView {
        text: if selected != 0 {
            SUBJECTS_CONTINUE@
        } else {
            match tp {
                SubjectsKeyboardType::Partner => SUBJECTS_PARTNER_EMPTY@,
                SubjectsKeyboardType::User => SUBJECTS_USER_EMPTY@,
            }
        },
        data: seq![tp.spec_code()] + "continue"@,
    }
}

/// The keyboard of subjects for the flags in `order`: their buttons in rows
/// of three, then the button that ends the choosing in a row of its own.
pub open spec fn spec_subjects_keyboard(
    selected: i32,
    tp: SubjectsKeyboardType,
    order: Seq<i32>,
) -> Seq<Seq<ButtonView>> {
    rows_of_three(Seq::new(order.len(), |i: int| subject_button(selected, tp, order[i]))).push(
        seq![continue_button(selected, tp)],
    )
}

/// A button that shows `name`, ticked where `chosen`, and carries `code`
/// and `bits`.
fn flag_button(chosen: bool, name: &str, code: char, bits: i64) -> (button: Button)
    ensures
        button@ == (ButtonView {
            text: flag_text(chosen, name@),
            data: seq![code] + signed_decimal(bits as int),
        }),
{
    let mut text = String::new();
    if chosen {
        push_text(&mut text, "✅ ");
    }
    push_text(&mut text, name);
    let mut data = String::new();
    data.push(code);
    push_signed_decimal(&mut data, bits);
    assert(text@ =~= flag_text(chosen, name@));
    assert(data@ =~= seq![code] + signed_decimal(bits as int));
    Button { text, data }
}

/// The keyboard of subjects with the flags in `order`, where `selected`
/// are chosen.
pub fn subjects_keyboard_in(selected: Subjects, tp: SubjectsKeyboardType, order: &Vec<i32>) -> (rows:
    Vec<Vec<Button>>)
    requires
        forall|i: int| 0 <= i < order@.len() ==> subject_name(#[trigger] order@[i]).is_some(),
    ensures
        rows_view(rows@) == spec_subjects_keyboard(selected@, tp, order@),
{
    let code = match tp {
        SubjectsKeyboardType::Partner => 'd',
        SubjectsKeyboardType::User => 's',
    };
    let bits = selected.bits();
    let mut buttons: Vec<Button> = Vec::new();
    let mut i: usize = 0;
    while i < order.len()
        invariant
            i <= order.len(),
            bits == selected@,
            code == tp.spec_code(),
            buttons@.len() == i,
            forall|k: int| 0 <= k < order@.len() ==> subject_name(#[trigger] order@[k]).is_some(),
            forall|k: int|
                0 <= k < i ==> (#[trigger] buttons@[k])@ == subject_button(selected@, tp, order@[k]),
        decreases order.len() - i,
    {
        let flag = order[i];
        match name_of_bits(flag) {
            Ok(name) => {
                buttons.push(flag_button(bits & flag == flag, name, code, flag as i64));
            },
            Err(_) => {
                assert(false);
            },
        }
        i += 1;
    }
    assert(row_view(buttons@) =~= Seq::new(
        order@.len(),
        |i: int| subject_button(selected@, tp, order@[i]),
    ));
    let mut rows = in_rows_of_three(&buttons);
    let ghost before = rows@;
    let mut text = String::new();
    if bits != 0 {
        push_text(&mut text, SUBJECTS_CONTINUE);
    } else {
        match tp {
            SubjectsKeyboardType::Partner => push_text(&mut text, SUBJECTS_PARTNER_EMPTY),
            SubjectsKeyboardType::User => push_text(&mut text, SUBJECTS_USER_EMPTY),
        }
    }
    let mut data = String::new();
    data.push(code);
    push_text(&mut data, "continue");
    let mut last: Vec<Button> = Vec::new();
    last.push(Button { text, data });
    assert(row_view(last@) =~= seq![continue_button(selected@, tp)]);
    rows.push(last);
    assert(rows_view(rows@) =~= rows_view(before).push(row_view(last@)));
    rows
}

/// The keyboard of subjects where `selected` are chosen: every subject's
/// button, by the lower-case forms of the names, in rows of three, then the
/// button that ends the choosing.
pub fn make_subjects_keyboard(selected: Subjects, tp: SubjectsKeyboardType) -> (rows: Vec<
    Vec<Button>,
>)
    ensures
        exists|order: Seq<i32>| #[trigger]
            is_flag_listing(order) && rows_view(rows@) == spec_subjects_keyboard(
                selected@,
                tp,
                order,
            ),
{
    let order = flags_by_name();
    proof {
        lemma_listing_has_names(order@);
    }
    let rows = subjects_keyboard_in(selected, tp, &order);
    assert(is_flag_listing(order@));
    rows
}

/// Every flag of a listing is a subject's, and so has a name.
pub proof fn lemma_listing_has_names(order: Seq<i32>)
    requires
        is_flag_listing(order),
    ensures
        order.len() == SUBJECT_COUNT,
        forall|i: int| 0 <= i < order.len() ==> subject_name(#[trigger] order[i]).is_some(),
{
    let all = all_flags();
    order.to_multiset_ensures();
    all.to_multiset_ensures();
    assert forall|i: int| 0 <= i < order.len() implies subject_name(#[trigger] order[i]).is_some() by {
        assert(order.to_multiset().count(order[i]) > 0);
        assert(all.to_multiset().count(order[i]) > 0);
        assert(all.contains(order[i]));
        let k = choose|k: int| 0 <= k < all.len() && all[k] == order[i];
        assert(order[i] == spec_subject_flag(k));
    }
}

/// The button of the purpose whose bit is `flag` in a keyboard where
/// `selected` are chosen.
pub open spec fn purpose_button(selected: i16, flag: i16) -> ButtonView {
    ButtonView {
        text: flag_text(selected & flag == flag, crate::types::purpose_name(flag).unwrap()),
        data: seq!['p'] + signed_decimal(flag as int),
    }
}

/// The keyboard of purposes: the three purposes in one row, lowest bit
/// first, and under it, once a purpose is chosen, the button for going on.
pub open spec fn spec_purpose_keyboard(selected: i16) -> Seq<Seq<ButtonView>> {
    let flags = seq![
        purpose_button(selected, FRIENDSHIP),
        purpose_button(selected, STUDIES),
        purpose_button(selected, RELATIONSHIP),
    ];
    if selected != 0 {
        seq![flags, seq![ButtonView { text: "Продолжить"@, data: "pcontinue"@ }]]
    } else {
        seq![flags]
    }
}

/// The keyboard of purposes where `selected` are chosen.
pub fn make_dating_purpose_keyboard(selected: DatingPurpose) -> (rows: Vec<Vec<Button>>)
    ensures
        rows_view(rows@) == spec_purpose_keyboard(selected@),
{
    let bits = selected.bits();
    let mut row: Vec<Button> = Vec::new();
    row.push(flag_button(bits & FRIENDSHIP == FRIENDSHIP, "Дружба 🧑‍🤝‍🧑", 'p', FRIENDSHIP as i64));
    row.push(flag_button(bits & STUDIES == STUDIES, "Учёба 📚", 'p', STUDIES as i64));
    row.push(flag_button(bits & RELATIONSHIP == RELATIONSHIP, "Отношения 💕", 'p', RELATIONSHIP as i64));
    let mut rows: Vec<Vec<Button>> = Vec::new();
    rows.push(row);
    if bits != 0 {
        let mut text = String::new();
        push_text(&mut text, "Продолжить");
        let mut data = String::new();
        push_text(&mut data, "pcontinue");
        let mut last: Vec<Button> = Vec::new();
        last.push(Button { text, data });
        rows.push(last);
    }
    assert(rows_view(rows@) =~~= spec_purpose_keyboard(selected@));
    rows
}

/// What can be edited of a profile, and the way out, as the buttons name
/// them.
pub open spec fn edit_choices() -> Seq<Seq<char>> {
    seq!["Имя"@, "Предметы"@, "О себе"@, "Город"@, "Фото"@, "Отмена"@]
}

/// The keyboard for editing a profile: a button for each choice, carrying
/// the character for editing and the choice's name, in rows of three.
pub open spec fn spec_edit_keyboard() -> Seq<Seq<ButtonView>> {
    rows_of_three(
        Seq::new(
            edit_choices().len(),
            |i: int| ButtonView { text: edit_choices()[i], data: seq!['e'] + edit_choices()[i] },
        ),
    )
}

/// The keyboard for editing a profile.
pub fn make_edit_keyboard() -> (rows: Vec<Vec<Button>>)
    ensures
        rows_view(rows@) == spec_edit_keyboard(),
{
    let mut choices: Vec<&'static str> = Vec::new();
    choices.push("Имя");
    choices.push("Предметы");
    choices.push("О себе");
    choices.push("Город");
    choices.push("Фото");
    choices.push("Отмена");
    let mut buttons: Vec<Button> = Vec::new();
    let mut i: usize = 0;
    while i < choices.len()
        invariant
            i <= choices.len(),
            choices@.len() == 6,
            forall|k: int| 0 <= k < 6 ==> (#[trigger] choices@[k])@ == edit_choices()[k],
            buttons@.len() == i,
            forall|k: int|
                0 <= k < i ==> (#[trigger] buttons@[k])@ == (ButtonView {
                    text: edit_choices()[k],
                    data: seq!['e'] + edit_choices()[k],
                }),
        decreases choices.len() - i,
    {
        let mut text = String::new();
        push_text(&mut text, choices[i]);
        let mut data = String::new();
        data.push('e');
        push_text(&mut data, choices[i]);
        buttons.push(Button { text, data });
        i += 1;
    }
    assert(row_view(buttons@) =~= Seq::new(
        edit_choices().len(),
        |i: int| ButtonView { text: edit_choices()[i], data: seq!['e'] + edit_choices()[i] },
    ));
    in_rows_of_three(&buttons)
}

/// The answers offered to the question where to look, for a user who lives
/// at `code`: the whole country and the user's county in one row; the
/// user's subject and, unless it is called the same, the user's city in
/// the next.
pub open spec fn spec_location_keyboard(directory: &Directory, code: i32) -> Seq<Seq<Seq<char>>> {
    let county = name_of(directory.counties@, spec_county_of(code)).unwrap();
    let subject = name_of(directory.subjects@, spec_subject_region_of(code)).unwrap();
    let city = name_of(directory.cities@, code).unwrap();
    seq![
        seq!["Вся Россия"@, county + " ФО"@],
        if subject != city {
            seq![subject, city]
        } else {
            seq![subject]
        },
    ]
}

/// The texts of the rows of an answer keyboard.
pub open spec fn texts_view(rows: Seq<Vec<String>>) -> Seq<Seq<Seq<char>>> {
    Seq::new(rows.len(), |r: int| Seq::new(rows[r]@.len(), |c: int| rows[r]@[c]@))
}

/// The answers offered to the question where to look, for a user who lives
/// at `code`; nothing where the directory lacks the county, the subject or
/// the city.
pub fn make_location_filter_keyboard(directory: &Directory, code: i32) -> (rows: Option<
    Vec<Vec<String>>,
>)
    ensures
        rows.is_some() == directory.spec_knows(code),
        rows.is_some() ==> texts_view(rows.unwrap()@) == spec_location_keyboard(directory, code),
{
    let county = match county_by_id(directory, code) {
        Some(county) => county,
        None => {
            return None;
        },
    };
    let subject = match subject_by_id(directory, code) {
        Some(subject) => subject,
        None => {
            return None;
        },
    };
    let city = match city_by_id(directory, code) {
        Some(city) => city,
        None => {
            return None;
        },
    };
    let mut first: Vec<String> = Vec::new();
    let mut country = String::new();
    push_text(&mut country, "Вся Россия");
    first.push(country);
    let mut district = String::new();
    push_text(&mut district, county.as_str());
    push_text(&mut district, " ФО");
    first.push(district);
    let mut second: Vec<String> = Vec::new();
    second.push(subject.clone());
    let subject_chars = chars_of(subject.as_str());
    let city_chars = chars_of(city.as_str());
    if !same_chars(&subject_chars, &city_chars) {
        second.push(city.clone());
    }
    let mut rows: Vec<Vec<String>> = Vec::new();
    rows.push(first);
    rows.push(second);
    assert(texts_view(rows@) =~~= spec_location_keyboard(directory, code));
    Some(rows)
}

/// What a subject's button carries is read as the press of that subject in
/// the keyboard it stands in.
pub proof fn lemma_subject_button_reads_back(selected: i32, tp: SubjectsKeyboardType, flag: i32)
    requires
        valid_subject_bits(flag),
    ensures
        Callback::spec_from_str(subject_button(selected, tp, flag).data) == (match tp {
            SubjectsKeyboardType::User => Ok::<Callback, CallbackError>(
                Callback::SetSubjects(
                    UpdateBitflags::Update(Subjects::spec_from_bits(flag).unwrap()),
                ),
            ),
            SubjectsKeyboardType::Partner => Ok::<Callback, CallbackError>(
                Callback::SetSubjectsFilter(
                    UpdateBitflags::Update(Subjects::spec_from_bits(flag).unwrap()),
                ),
            ),
        }),
{
    lemma_subject_bits_round_trip(flag);
    let subjects = Subjects::spec_from_bits(flag).unwrap();
    match tp {
        SubjectsKeyboardType::User => {
            lemma_callback_text_reads_back(Callback::SetSubjects(UpdateBitflags::Update(subjects)));
        },
        SubjectsKeyboardType::Partner => {
            lemma_callback_text_reads_back(
                Callback::SetSubjectsFilter(UpdateBitflags::Update(subjects)),
            );
        },
    }
}

} // verus!
