use bvilove::cities::{location_code, Directory, Place};
use bvilove::callbacks::{Callback, UpdateBitflags};
use bvilove::keyboard::{
    flags_by_name, in_rows_of_three, make_dating_purpose_keyboard, make_edit_keyboard,
    make_location_filter_keyboard, make_subjects_keyboard, subjects_keyboard_in, Button,
    SubjectsKeyboardType,
};
use bvilove::links::user_url;
use bvilove::types::{
    DatingPurpose, Subjects, ALL_SUBJECTS, ART, ASTRONOMY, ENGLISH, FRIENDSHIP, MATH, RELATIONSHIP,
    SAFETY, STUDIES,
};
use itertools::Itertools;

fn button(text: &str, data: &str) -> Button {
    Button { text: text.to_string(), data: data.to_string() }
}

fn texts(rows: &Vec<Vec<Button>>) -> Vec<Vec<String>> {
    rows.iter().map(|row| row.iter().map(|b| b.text.clone()).collect()).collect()
}

#[test]
fn rows_of_three_split() {
    let buttons: Vec<Button> = (0..7).map(|i| button(&i.to_string(), "x")).collect();
    let rows = in_rows_of_three(&buttons);
    assert_eq!(texts(&rows), vec![vec!["0", "1", "2"], vec!["3", "4", "5"], vec!["6"]]);
    assert_eq!(in_rows_of_three(&buttons[..6].to_vec()).len(), 2);
    assert_eq!(in_rows_of_three(&buttons[..1].to_vec()).len(), 1);
    assert_eq!(in_rows_of_three(&vec![]), Vec::<Vec<Button>>::new());
}

#[test]
fn flags_are_listed_by_lowercase_name() {
    let order = flags_by_name();
    assert_eq!(order.len(), 24);
    let names: Vec<&str> =
        order.iter().map(|f| Subjects::from_bits(*f).unwrap().name().unwrap()).collect();
    let expected: Vec<&str> = (0..24)
        .map(|i| Subjects::from_bits(1 << i).unwrap().name().unwrap())
        .sorted_by_key(|n| n.to_lowercase())
        .collect();
    assert_eq!(names, expected);
    assert_eq!(names[0], "Английский 🇬🇧");
    assert_eq!(order[0], ENGLISH);
    assert_eq!(names[1], "Астрономия 🌌");
    assert_eq!(names[23], "Экономика 💶");
    let safety = order.iter().position(|f| *f == SAFETY).unwrap();
    let social = names.iter().position(|n| *n == "Обществознание 👫").unwrap();
    assert_eq!(safety + 1, social);
}

#[test]
fn subjects_keyboard_for_the_user() {
    let selected = Subjects::from_bits(MATH | ART).unwrap();
    let rows = make_subjects_keyboard(selected, SubjectsKeyboardType::User);
    assert_eq!(rows.len(), 9);
    for row in &rows[..8] {
        assert_eq!(row.len(), 3);
    }
    assert_eq!(rows[8], vec![button("Продолжить", "scontinue")]);
    assert_eq!(rows[0][0], button("Английский 🇬🇧", "s128"));
    assert_eq!(rows[0][1], button("Астрономия 🌌", "s2"));
    let all: Vec<&Button> = rows[..8].iter().flatten().collect();
    let art = all.iter().find(|b| b.data == "s1").unwrap();
    assert_eq!(art.text, "✅ Искусство 🎨");
    let math = all.iter().find(|b| b.data == "s65536").unwrap();
    assert_eq!(math.text, "✅ Математика 📐");
    assert_eq!(all.iter().filter(|b| b.text.starts_with("✅ ")).count(), 2);
    for b in all {
        match Callback::from_str(&b.data) {
            Ok(Callback::SetSubjects(UpdateBitflags::Update(flag))) => {
                assert_eq!(flag.bits().count_ones(), 1);
            }
            other => panic!("{:?}", other),
        }
    }
}

#[test]
fn subjects_keyboard_for_the_partner() {
    let rows = make_subjects_keyboard(Subjects::empty(), SubjectsKeyboardType::Partner);
    assert_eq!(rows[8], vec![button("Не важно", "dcontinue")]);
    assert_eq!(rows[0][1], button("Астрономия 🌌", "d2"));
    let rows = make_subjects_keyboard(Subjects::empty(), SubjectsKeyboardType::User);
    assert_eq!(rows[8], vec![button("Никакие", "scontinue")]);
    let rows =
        make_subjects_keyboard(Subjects::from_bits(ALL_SUBJECTS).unwrap(), SubjectsKeyboardType::Partner);
    assert_eq!(rows[8], vec![button("Продолжить", "dcontinue")]);
    assert!(rows[..8].iter().flatten().all(|b| b.text.starts_with("✅ ")));
}

#[test]
fn subjects_keyboard_in_a_given_order() {
    let rows = subjects_keyboard_in(
        Subjects::from_bits(ASTRONOMY).unwrap(),
        SubjectsKeyboardType::User,
        &vec![MATH, ASTRONOMY, ART, ENGLISH],
    );
    assert_eq!(
        rows,
        vec![
            vec![
                button("Математика 📐", "s65536"),
                button("✅ Астрономия 🌌", "s2"),
                button("Искусство 🎨", "s1"),
            ],
            vec![button("Английский 🇬🇧", "s128")],
            vec![button("Продолжить", "scontinue")],
        ]
    );
}

#[test]
fn purpose_keyboard() {
    let rows = make_dating_purpose_keyboard(DatingPurpose::empty());
    assert_eq!(
        rows,
        vec![vec![
            button("Дружба 🧑‍🤝‍🧑", "p1"),
            button("Учёба 📚", "p2"),
            button("Отношения 💕", "p4"),
        ]]
    );
    let rows = make_dating_purpose_keyboard(DatingPurpose::from_bits(STUDIES | RELATIONSHIP).unwrap());
    assert_eq!(
        rows,
        vec![
            vec![
                button("Дружба 🧑‍🤝‍🧑", "p1"),
                button("✅ Учёба 📚", "p2"),
                button("✅ Отношения 💕", "p4"),
            ],
            vec![button("Продолжить", "pcontinue")],
        ]
    );
    let rows = make_dating_purpose_keyboard(DatingPurpose::from_bits(FRIENDSHIP).unwrap());
    assert_eq!(rows[0][0].text, "✅ Дружба 🧑‍🤝‍🧑");
    assert_eq!(rows.len(), 2);
}

#[test]
fn edit_keyboard() {
    assert_eq!(
        make_edit_keyboard(),
        vec![
            vec![button("Имя", "eИмя"), button("Предметы", "eПредметы"), button("О себе", "eО себе")],
            vec![button("Город", "eГород"), button("Фото", "eФото"), button("Отмена", "eОтмена")],
        ]
    );
    for b in make_edit_keyboard().iter().flatten() {
        assert_eq!(Callback::from_str(&b.data), Ok(Callback::Edit));
    }
}

fn place(id: i32, name: &str) -> Place {
    Place { id, name: name.to_string() }
}

#[test]
fn location_filter_keyboard() {
    let mut directory = Directory::new();
    directory.counties.push(place(1, "Центральный"));
    directory.subjects.push(place(77, "Москва"));
    directory.subjects.push(place(50, "Московская область"));
    directory.cities.push(place(location_code(1, 77, 1), "Москва"));
    directory.cities.push(place(location_code(1, 50, 3), "Химки"));
    assert_eq!(
        make_location_filter_keyboard(&directory, location_code(1, 50, 3)),
        Some(vec![
            vec!["Вся Россия".to_string(), "Центральный ФО".to_string()],
            vec!["Московская область".to_string(), "Химки".to_string()],
        ])
    );
    assert_eq!(
        make_location_filter_keyboard(&directory, location_code(1, 77, 1)),
        Some(vec![
            vec!["Вся Россия".to_string(), "Центральный ФО".to_string()],
            vec!["Москва".to_string()],
        ])
    );
    assert_eq!(make_location_filter_keyboard(&directory, location_code(1, 50, 4)), None);
    assert_eq!(make_location_filter_keyboard(&directory, location_code(2, 50, 3)), None);
}

#[test]
fn user_url_by_name() {
    assert_eq!(user_url(Some("alice"), 5, false), Some("tg://resolve?domain=alice".to_string()));
    assert_eq!(user_url(Some("alice"), 5, true), Some("tg://resolve?domain=alice".to_string()));
    assert_eq!(user_url(Some("a b#c"), 5, true), Some("tg://resolve?domain=a%20b%23c".to_string()));
}

#[test]
fn user_url_by_id() {
    assert_eq!(user_url(None, 123456789, false), Some("tg://user?id=123456789".to_string()));
    assert_eq!(user_url(None, -7, false), Some("tg://user?id=-7".to_string()));
    assert_eq!(user_url(None, 123456789, true), None);
}

#[test]
fn user_url_takes_long_names() {
    let name = "a".repeat(100_000);
    assert_eq!(user_url(Some(&name), 5, true), Some(format!("tg://resolve?domain={}", name)));
    assert_eq!(user_url(Some(""), 5, true), Some("tg://resolve?domain=".to_string()));
    assert_eq!(user_url(None, i64::MIN, false), Some("tg://user?id=-9223372036854775808".to_string()));
}
