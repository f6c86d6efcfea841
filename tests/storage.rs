use stellium::natal_chart::NatalChart;
use stellium::natal_chart::StoreNatalChartRequest;
use stellium::storage::name_matches;
use stellium::storage::Storage;

fn chart(name: &str, birth_date: &str, place: &str) -> NatalChart {
    NatalChart::new(&StoreNatalChartRequest {
        name: name.to_string(),
        birth_date: birth_date.to_string(),
        birth_time: "12:00:00".to_string(),
        birth_location: place.to_string(),
        latitude: 8_983_333,
        longitude: -79_516_667,
        timezone: "America/Panama".to_string(),
    })
}

#[test]
fn save_then_get_exact_round_trip() {
    let mut store = Storage::new();
    let c = chart("Ana", "1990-05-17", "Panama City");
    store.save_chart(c.clone());
    assert_eq!(store.get_chart_exact("Ana", "1990-05-17"), Some(&c));
    assert_eq!(store.get_chart_exact("Ana", "1990-05-18"), None);
    assert_eq!(store.get_chart_exact("ana", "1990-05-17"), None);
}

#[test]
fn same_name_different_dates_are_distinct() {
    let mut store = Storage::new();
    let a = chart("Ana", "1990-05-17", "Panama City");
    let b = chart("Ana", "1985-01-02", "Lima");
    store.save_chart(a.clone());
    store.save_chart(b.clone());
    let list = store.list_charts();
    assert_eq!(list.len(), 2);
    assert_eq!(list[0].birth_date, "1990-05-17");
    assert_eq!(list[1].birth_date, "1985-01-02");
    assert!(store.delete_chart_exact("Ana", "1990-05-17"));
    assert_eq!(store.get_chart_exact("Ana", "1990-05-17"), None);
    assert_eq!(store.get_chart_exact("Ana", "1985-01-02"), Some(&b));
    assert_eq!(store.list_charts().len(), 1);
    assert!(!store.delete_chart_exact("Ana", "1990-05-17"));
}

#[test]
fn saving_same_key_overwrites() {
    let mut store = Storage::new();
    store.save_chart(chart("Bo", "2000-01-01", "Oslo"));
    store.save_chart(chart("Cy", "2001-01-01", "Rome"));
    let before = store.list_charts().len();
    let newer = chart("Bo", "2000-01-01", "Bergen");
    store.save_chart(newer.clone());
    assert_eq!(store.list_charts().len(), before);
    assert_eq!(store.get_chart_exact("Bo", "2000-01-01"), Some(&newer));
    assert_eq!(store.list_charts()[0].birth_location, "Bergen");
}

#[test]
fn get_by_name_returns_earliest_saved() {
    let mut store = Storage::new();
    assert!(store.get_chart("Ana").is_none());
    assert!(store.get_default_chart().is_none());
    store.save_chart(chart("Zed", "1970-01-01", "X"));
    store.save_chart(chart("Ana", "1990-05-17", "P"));
    store.save_chart(chart("Ana", "1985-01-02", "L"));
    assert_eq!(store.get_chart("Ana").unwrap().birth_date, "1990-05-17");
    assert_eq!(store.get_default_chart().unwrap().name, "Zed");
    assert_eq!(store.list_chart_names(), vec!["Zed".to_string(), "Ana".to_string(), "Ana".to_string()]);
    assert!(store.delete_chart("Ana"));
    assert_eq!(store.get_chart("Ana").unwrap().birth_date, "1985-01-02");
    assert!(!store.delete_chart("Nobody"));
}

#[test]
fn search_ignores_case_and_matches_parts() {
    let mut store = Storage::new();
    store.save_chart(chart("Maria Lopez", "1990-01-01", "A"));
    store.save_chart(chart("ANAMARIA", "1991-01-01", "B"));
    store.save_chart(chart("John", "1992-01-01", "C"));
    let found = store.search_charts("maRIa");
    assert_eq!(found.len(), 2);
    assert_eq!(found[0].name, "Maria Lopez");
    assert_eq!(found[1].name, "ANAMARIA");
    assert_eq!(store.search_charts("").len(), 3);
    assert_eq!(store.search_charts("xyz").len(), 0);
}

#[test]
fn name_filter_is_substring_test() {
    assert!(name_matches("ar", "maria"));
    assert!(name_matches("", "maria"));
    assert!(name_matches("maria", "maria"));
    assert!(!name_matches("marias", "maria"));
    assert!(!name_matches("Ma", "maria"));
}

#[test]
fn loading_keeps_last_of_duplicate_keys() {
    let first = chart("Ana", "1990-05-17", "Old");
    let other = chart("Bo", "2000-01-01", "Oslo");
    let last = chart("Ana", "1990-05-17", "New");
    let store = Storage::from_charts(vec![first, other, last.clone()]);
    assert_eq!(store.len(), 2);
    assert_eq!(store.get_chart_exact("Ana", "1990-05-17"), Some(&last));
    assert_eq!(store.charts()[1].name, "Bo");
}
