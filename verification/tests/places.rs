use bvilove::cities::{
    city_by_id, city_exists, city_of, county_by_id, county_exists, county_of,
    location_code, subject_by_id, subject_exists, subject_region_of, City, Directory, Place,
};
use bvilove::entities;
use bvilove::types::LocationFilter;

fn place(id: i32, name: &str) -> Place {
    Place { id, name: name.to_string() }
}

fn directory() -> Directory {
    let mut directory = Directory::new();
    directory.counties.push(place(1, "Центральный"));
    directory.counties.push(place(2, "Сибирский"));
    directory.subjects.push(place(77, "Москва"));
    directory.subjects.push(place(50, "Московская область"));
    directory.subjects.push(place(54, "Новосибирская область"));
    directory.cities.push(place(location_code(1, 77, 1), "Москва"));
    directory.cities.push(place(location_code(1, 50, 3), "Химки"));
    directory.cities.push(place(location_code(2, 54, 1), "Новосибирск"));
    directory
}

#[test]
fn location_code_packs_three_tiers() {
    assert_eq!(location_code(1, 77, 1), 0x01_4d_01);
    assert_eq!(location_code(0, 0, 0), 0);
    assert_eq!(location_code(255, 255, 255), 0xff_ffff);
    assert_eq!(location_code(2, 54, 1), (2 << 16) | (54 << 8) | 1);
}

#[test]
fn location_code_tiers_come_apart() {
    for (county, subject, city) in [(0, 0, 0), (1, 77, 1), (7, 200, 13), (255, 255, 255)] {
        let code = location_code(county, subject, city);
        assert_eq!(county_of(code), county);
        assert_eq!(subject_region_of(code), subject);
        assert_eq!(city_of(code), city);
    }
}

#[test]
fn lookups_by_id() {
    let directory = directory();
    let khimki = location_code(1, 50, 3);
    assert_eq!(county_by_id(&directory, khimki).map(|s| s.as_str()), Some("Центральный"));
    assert_eq!(subject_by_id(&directory, khimki).map(|s| s.as_str()), Some("Московская область"));
    assert_eq!(city_by_id(&directory, khimki).map(|s| s.as_str()), Some("Химки"));
    let unknown = location_code(3, 10, 1);
    assert_eq!(county_by_id(&directory, unknown), None);
    assert_eq!(subject_by_id(&directory, unknown), None);
    assert_eq!(city_by_id(&directory, unknown), None);
    assert!(directory.knows(khimki));
    assert!(!directory.knows(unknown));
    assert!(!directory.knows(location_code(1, 50, 4)));
}

#[test]
fn lookups_by_name() {
    let directory = directory();
    assert!(county_exists(&directory, "Сибирский"));
    assert!(!county_exists(&directory, "Сибирский ФО"));
    assert!(!county_exists(&directory, ""));
    assert!(subject_exists(&directory, "Москва"));
    assert!(!subject_exists(&directory, "Химки"));
    assert!(city_exists(&directory, "Химки"));
    assert!(!city_exists(&directory, "химки"));
}

#[test]
fn empty_directory_knows_nothing() {
    let directory = Directory::new();
    assert_eq!(county_by_id(&directory, 0), None);
    assert!(!city_exists(&directory, "Москва"));
    assert!(!directory.knows(0));
}

#[test]
fn city_text() {
    let directory = directory();
    assert_eq!(City(None).text(&directory), "Город не указан");
    assert_eq!(
        City(Some(location_code(1, 50, 3))).text(&directory),
        "Центральный ФО, Московская область, Химки"
    );
    assert_eq!(City(Some(location_code(1, 77, 1))).text(&directory), "Центральный ФО, Москва");
    assert_eq!(City(Some(5)).code(), Some(5));
}

#[test]
fn location_filter_from_button_text() {
    let directory = directory();
    assert_eq!(LocationFilter::from_str(&directory, "Вся Россия"), Some(LocationFilter::Country));
    assert_eq!(LocationFilter::from_str(&directory, "Сибирский ФО"), Some(LocationFilter::County));
    assert_eq!(
        LocationFilter::from_str(&directory, "Московская область"),
        Some(LocationFilter::Subject)
    );
    assert_eq!(LocationFilter::from_str(&directory, "Москва"), Some(LocationFilter::Subject));
    assert_eq!(LocationFilter::from_str(&directory, "Химки"), Some(LocationFilter::City));
    assert_eq!(LocationFilter::from_str(&directory, "Сибирский"), None);
    assert_eq!(LocationFilter::from_str(&directory, "Томск"), None);
    assert_eq!(LocationFilter::from_str(&directory, ""), None);
    assert_eq!(LocationFilter::from_str(&directory, "ФО"), None);
}

#[test]
fn location_filter_conversions() {
    let pairs = [
        (entities::LocationFilter::SameCity, LocationFilter::City),
        (entities::LocationFilter::SameSubject, LocationFilter::Subject),
        (entities::LocationFilter::SameCounty, LocationFilter::County),
        (entities::LocationFilter::SameCountry, LocationFilter::Country),
    ];
    for (stored, shown) in pairs {
        assert_eq!(LocationFilter::from(stored), shown);
        assert_eq!(entities::LocationFilter::from(shown), stored);
    }
}

#[test]
fn directory_validity() {
    assert!(Directory::new().valid());
    assert!(directory().valid());
    let mut twice = directory();
    twice.counties.push(place(1, "Другой"));
    assert!(!twice.valid());
    let mut twice = directory();
    twice.subjects.push(place(77, "Другой"));
    assert!(!twice.valid());
    let mut twice = directory();
    twice.cities.push(place(location_code(1, 77, 1), "Другой"));
    assert!(!twice.valid());
    let mut wide = directory();
    wide.counties.push(place(256, "Широкий"));
    assert!(!wide.valid());
    let mut negative = directory();
    negative.subjects.push(place(-1, "Никакой"));
    assert!(!negative.valid());
    let mut far = directory();
    far.cities.push(place(0x100_0000, "Далёкий"));
    assert!(!far.valid());
    let mut homeless = directory();
    homeless.cities.push(place(location_code(3, 77, 2), "Без округа"));
    assert!(!homeless.valid());
    let mut homeless = directory();
    homeless.cities.push(place(location_code(1, 78, 2), "Без области"));
    assert!(!homeless.valid());
    let mut same_name = directory();
    same_name.cities.push(place(location_code(2, 54, 7), "Химки"));
    assert!(same_name.valid());
}

#[test]
fn valid_directory_knows_every_listed_city() {
    let directory = directory();
    assert!(directory.valid());
    for city in &directory.cities {
        assert!(directory.knows(city.id));
        assert!(city_exists(&directory, &city.name));
        assert_eq!(city_by_id(&directory, city.id), Some(&city.name));
    }
    for county in &directory.counties {
        assert!(county_exists(&directory, &county.name));
        assert_eq!(county_by_id(&directory, county.id << 16), Some(&county.name));
    }
    for subject in &directory.subjects {
        assert!(subject_exists(&directory, &subject.name));
        assert_eq!(subject_by_id(&directory, subject.id << 8), Some(&subject.name));
    }
}
