use carbon::models::{Category, Ec3Material, Manufacturer};
use carbon::names::category_names;
use carbon::number::Number;
use carbon::order::str_le;
use carbon::sort::{le_materials, sort_materials, SortBy};
use carbon::state::{retain_unique, State, Tabs};
use carbon::units::{DeclaredUnit, Gwp, GwpUnits};

fn material(id: &str, name: &str, category: &str, gwp: &str) -> Ec3Material {
    Ec3Material {
        name: name.to_string(),
        gwp: Gwp { value: Number::parse(gwp).unwrap(), unit: GwpUnits::KgCO2e },
        image: None,
        manufacturer: Manufacturer { name: "Acme".to_string(), country: None },
        description: "".to_string(),
        category: Category {
            description: "".to_string(),
            name: category.to_string(),
            display_name: category.to_string(),
            id: format!("id-{}", category),
        },
        id: id.to_string(),
        declared_unit: DeclaredUnit::one(),
    }
}

fn ids(ms: &Vec<Ec3Material>) -> Vec<String> {
    ms.iter().map(|m| m.id.clone()).collect()
}

#[test]
fn sort_by_name_is_lexicographic() {
    let mut v = vec![
        material("1", "pine", "Wood", "3"),
        material("2", "Oak", "Wood", "2"),
        material("3", "ash", "Wood", "1"),
        material("4", "", "Wood", "1"),
        material("5", "ashes", "Wood", "1"),
        material("6", "Äsche", "Wood", "1"),
    ];
    sort_materials(&mut v, SortBy::Name);
    let names: Vec<String> = v.iter().map(|m| m.name.clone()).collect();
    let mut expected = names.clone();
    expected.sort();
    assert_eq!(names, expected);
    assert_eq!(names, vec!["", "Oak", "ash", "ashes", "pine", "Äsche"]);
}

#[test]
fn sort_by_gwp_is_numeric() {
    let mut v = vec![
        material("1", "a", "Wood", "10"),
        material("2", "b", "Wood", "9.5"),
        material("3", "c", "Wood", "-1"),
        material("4", "d", "Wood", "100"),
        material("5", "e", "Wood", "0"),
    ];
    sort_materials(&mut v, SortBy::Gwp);
    assert_eq!(ids(&v), vec!["3", "5", "2", "1", "4"]);
}

#[test]
fn sort_keeps_ties_in_order_and_is_idempotent() {
    let mut v = vec![
        material("1", "b", "Wood", "5"),
        material("2", "a", "Wood", "5"),
        material("3", "b", "Wood", "1"),
        material("4", "a", "Wood", "5"),
        material("5", "b", "Wood", "0"),
    ];
    sort_materials(&mut v, SortBy::Name);
    assert_eq!(ids(&v), vec!["2", "4", "1", "3", "5"]);
    sort_materials(&mut v, SortBy::Name);
    assert_eq!(ids(&v), vec!["2", "4", "1", "3", "5"]);
    sort_materials(&mut v, SortBy::Gwp);
    assert_eq!(ids(&v), vec!["5", "3", "2", "4", "1"]);
    sort_materials(&mut v, SortBy::Gwp);
    assert_eq!(ids(&v), vec!["5", "3", "2", "4", "1"]);
}

#[test]
fn sort_of_nothing_and_of_one() {
    let mut none: Vec<Ec3Material> = Vec::new();
    sort_materials(&mut none, SortBy::Name);
    assert!(none.is_empty());
    let mut one = vec![material("1", "a", "Wood", "1")];
    sort_materials(&mut one, SortBy::Gwp);
    assert_eq!(ids(&one), vec!["1"]);
}

#[test]
fn comparisons_agree_with_string_order() {
    let words = ["", "a", "A", "ab", "b", "é", "z", "zz", "日本"];
    for a in words {
        for b in words {
            assert_eq!(str_le(a, b), a <= b);
        }
    }
    let x = material("1", "a", "Wood", "2");
    let y = material("2", "b", "Wood", "1");
    assert!(le_materials(SortBy::Name, &x, &y));
    assert!(!le_materials(SortBy::Name, &y, &x));
    assert!(le_materials(SortBy::Gwp, &y, &x));
    assert!(!le_materials(SortBy::Gwp, &x, &y));
}

#[test]
fn state_sort_records_the_criterion() {
    let mut s = State::new("key".to_string());
    assert!(s.sort_by == SortBy::Name);
    s.accept(vec![material("1", "b", "Wood", "1"), material("2", "a", "Steel", "2")]);
    s.sort_by(SortBy::Name);
    assert_eq!(ids(&s.materials), vec!["2", "1"]);
    assert!(s.sort_by == SortBy::Name);
    s.sort_by(SortBy::Gwp);
    assert_eq!(ids(&s.materials), vec!["1", "2"]);
    assert!(s.sort_by == SortBy::Gwp);
}

#[test]
fn category_names_are_ascending_and_distinct() {
    let v = vec![
        material("1", "a", "Wood", "1"),
        material("2", "b", "Steel", "1"),
        material("3", "c", "Wood", "1"),
        material("4", "d", "Concrete", "1"),
        material("5", "e", "Steel", "1"),
    ];
    assert_eq!(category_names(&v), vec!["Concrete", "Steel", "Wood"]);
    assert!(category_names(&Vec::new()).is_empty());
}

#[test]
fn retain_unique_keeps_the_first_of_each_id() {
    let v = vec![
        material("1", "first", "Wood", "1"),
        material("2", "second", "Wood", "1"),
        material("1", "third", "Wood", "1"),
        material("3", "fourth", "Wood", "1"),
        material("2", "fifth", "Wood", "1"),
    ];
    let kept = retain_unique(v);
    let names: Vec<String> = kept.iter().map(|m| m.name.clone()).collect();
    assert_eq!(names, vec!["first", "second", "fourth"]);
}

#[test]
fn new_state_is_empty() {
    let s = State::new("secret".to_string());
    assert!(!s.materials_loaded);
    assert!(s.materials.is_empty());
    assert!(s.categories.is_none());
    assert!(s.loaded_categories.is_empty());
    assert_eq!(s.api_key, "secret");
    assert!(s.active_tab == Tabs::Search);
    assert!(s.selected.is_none());
    assert!(s.category_stats.is_none());
    assert_eq!(Tabs::Calculate.name(), "Calculate");
    assert_eq!(Tabs::Search.name(), "Search");
    assert_eq!(Tabs::List.name(), "List");
    assert_eq!(Tabs::Chart.name(), "Chart");
    assert_eq!(Tabs::Category.name(), "Category");
}

#[test]
fn preload_data_takes_what_arrived_once() {
    let mut s = State::new("key".to_string());
    assert!(!s.preload_data(None));
    let request = s.fetch_materials("Wood");
    assert!(s.materials_requested);
    assert_eq!(request.mf.as_ref().unwrap().get_category(), "Wood");
    assert_eq!(
        request.filter_expression(),
        "!EC3 search(\"Wood\") WHERE\n jurisdiction: IN(\"150\")\n!pragma eMF(\"2.0/1\"), lcia(\"EF 3.0\")"
    );
    assert!(s.preload_data(None));
    assert!(!s.materials_loaded);
    let arrived = vec![
        material("1", "a", "Wood", "1"),
        material("1", "again", "Wood", "1"),
        material("2", "b", "Plywood", "1"),
    ];
    assert!(!s.preload_data(Some(arrived)));
    assert!(s.materials_loaded);
    assert_eq!(ids(&s.materials), vec!["1", "2"]);
    assert_eq!(s.loaded_categories, vec!["Plywood", "Wood"]);
    assert!(!s.preload_data(Some(vec![material("9", "late", "Wood", "1")])));
    assert_eq!(ids(&s.materials), vec!["1", "2"]);
}

#[test]
fn a_failed_answer_leaves_the_materials() {
    let mut s = State::new("key".to_string());
    s.accept(vec![material("1", "a", "Wood", "1")]);
    let failed = s.take_answer(Err(carbon::material_db::StoreError::Read));
    assert_eq!(failed, Err(carbon::material_db::StoreError::Read));
    assert_eq!(ids(&s.materials), vec!["1"]);
    assert_eq!(s.loaded_categories, vec!["Wood"]);
    assert!(s.materials_loaded);
    assert_eq!(s.take_answer(Ok(vec![material("2", "b", "Steel", "1")])), Ok(()));
    assert_eq!(ids(&s.materials), vec!["2"]);
    assert_eq!(s.loaded_categories, vec!["Steel"]);
}

#[test]
fn search_and_browse_through_the_store() {
    let conn = rusqlite::Connection::open_in_memory().unwrap();
    let mut s = State::new("key".to_string());
    s.accept(vec![material("1", "a", "Wood", "1")]);
    // no table yet: the store fails and nothing changes
    assert_eq!(s.search_by_name(&conn, "a"), Err(carbon::material_db::StoreError::Statement));
    assert_eq!(ids(&s.materials), vec!["1"]);
    assert_eq!(s.loaded_categories, vec!["Wood"]);
    assert_eq!(s.load_by_category(&conn, "Wood"), Err(carbon::material_db::StoreError::Statement));
    assert_eq!(ids(&s.materials), vec!["1"]);
    // an empty input is no search, whatever the store would say
    assert_eq!(s.search_by_name(&conn, ""), Ok(()));
    assert_eq!(ids(&s.materials), vec!["1"]);
    assert!(s.save_materials(&conn).is_err());
    carbon::material_db::migrate(&conn).unwrap();
    s.fetch_input = "Timber".to_string();
    let report = s.save_materials(&conn).unwrap();
    assert_eq!(report.materials, 1);
    assert_eq!(report.materials_refused, 0);
    assert_eq!(report.categories, 1);
    assert_eq!(report.manufacturers, 1);
    // an empty input is no search
    s.accept(Vec::new());
    assert_eq!(s.search_by_name(&conn, ""), Ok(()));
    assert!(s.materials.is_empty());
    assert_eq!(s.search_by_name(&conn, "Woo"), Ok(()));
    assert_eq!(ids(&s.materials), vec!["1"]);
    assert!(s.materials_loaded);
    s.accept(Vec::new());
    assert_eq!(s.fetch_materials_from_input(&conn), Ok(()));
    assert_eq!(ids(&s.materials), vec!["1"]);
    s.accept(Vec::new());
    assert_eq!(s.load_by_category(&conn, "Timber"), Ok(()));
    assert_eq!(ids(&s.materials), vec!["1"]);
    assert_eq!(s.loaded_categories, vec!["Wood"]);
    assert_eq!(s.load_by_category(&conn, "Nothing"), Ok(()));
    assert!(s.materials.is_empty());
    assert!(s.loaded_categories.is_empty());
    // an empty fetch field is no search
    s.accept(vec![material("7", "kept", "Glass", "1")]);
    s.fetch_input = String::new();
    assert_eq!(s.fetch_materials_from_input(&conn), Ok(()));
    assert_eq!(ids(&s.materials), vec!["7"]);
}
