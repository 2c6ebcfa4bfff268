use carbon::material_db::{
    average_of, category_unit_params, connection, get_category_avg, get_category_stats,
    get_category_unit, load_category, material_of_row, materials_of_rows, migrate, tally,
    query_materials, search_pattern, unit_answer, write_category, SqlValue, StoreError,
    SEARCH_LIMIT,
};
use carbon::models::Ec3Category;
use carbon::models::{Category, Ec3Material, Manufacturer};
use carbon::number::Number;
use carbon::units::{DeclaredUnit, Gwp, GwpUnits, Unit};

fn material(id: &str, name: &str, category: &str, gwp: &str) -> Ec3Material {
    Ec3Material {
        name: name.to_string(),
        gwp: Gwp { value: Number::parse(gwp).unwrap(), unit: GwpUnits::KgCO2e },
        image: None,
        manufacturer: Manufacturer { name: "Acme".to_string(), country: None },
        description: "".to_string(),
        category: Category {
            description: "".to_string(),
            name: category.to_string(),
            display_name: category.to_string(),
            id: format!("id-{}", category),
        },
        id: id.to_string(),
        declared_unit: DeclaredUnit { value: Number::parse("1").unwrap(), unit: Unit::Kg },
    }
}

fn double(n: &Number) -> f64 {
    f64::from_bits(n.bits())
}

#[test]
fn migrate_twice_is_accepted() {
    let conn = rusqlite::Connection::open_in_memory().unwrap();
    assert!(migrate(&conn).is_ok());
    assert!(migrate(&conn).is_ok());
    let tables: i64 = conn
        .query_row("SELECT count(*) FROM sqlite_master WHERE type = 'table'", (), |r| r.get(0))
        .unwrap();
    assert_eq!(tables, 3);
}

#[test]
fn wood_and_plywood_scenario() {
    let conn = rusqlite::Connection::open_in_memory().unwrap();
    migrate(&conn).unwrap();
    carbon::material_db::write(&conn, &vec![material("A", "Oak beam", "Wood", "10")], "").unwrap();
    carbon::material_db::write(&conn, &vec![material("B", "Birch ply", "Plywood", "20")], "Wood").unwrap();

    let loaded = load_category(&conn, "Wood").unwrap();
    let mut ids: Vec<String> = loaded.iter().map(|m| m.id.clone()).collect();
    ids.sort();
    assert_eq!(ids, vec!["A".to_string(), "B".to_string()]);

    let avg = get_category_avg(&conn, "Wood").unwrap();
    assert_eq!(double(&avg), 10.0);
}

#[test]
fn round_trip_keeps_every_material() {
    let conn = rusqlite::Connection::open_in_memory().unwrap();
    migrate(&conn).unwrap();
    let batch = vec![
        material("m1", "One", "Concrete", "1.5"),
        material("m2", "Two", "Concrete", "2.5"),
        material("m3", "Three", "Cement", "3"),
    ];
    let report = carbon::material_db::write(&conn, &batch, "Masonry").unwrap();
    assert_eq!(report.categories, 2);
    assert_eq!(report.manufacturers, 1);
    assert_eq!(report.materials, 3);
    assert_eq!(report.categories_refused, 0);
    assert_eq!(report.manufacturers_refused, 0);
    assert_eq!(report.materials_refused, 0);

    let all = load_category(&conn, "Masonry").unwrap();
    assert_eq!(all.len(), 3);
    let concrete = load_category(&conn, "Concrete").unwrap();
    assert_eq!(concrete.len(), 2);
    let one = concrete.iter().find(|m| m.id == "m1").unwrap();
    assert_eq!(one.name, "One");
    assert_eq!(double(&one.gwp.value), 1.5);
    assert_eq!(one.gwp.unit, GwpUnits::KgCO2e);
    assert_eq!(one.manufacturer.country, Some("Unknown".to_string()));
    assert_eq!(one.declared_unit.unit, Unit::Kg);
    assert_eq!(double(&one.declared_unit.value), 1.0);
    assert_eq!(one.category.name, "Concrete");
    assert_eq!(one.category.id, "id-Concrete");
}

#[test]
fn second_write_of_the_same_ids_is_passed_over() {
    let conn = rusqlite::Connection::open_in_memory().unwrap();
    migrate(&conn).unwrap();
    let batch = vec![material("m1", "One", "Concrete", "1.5")];
    carbon::material_db::write(&conn, &batch, "Masonry").unwrap();
    let again = carbon::material_db::write(&conn, &batch, "Masonry").unwrap();
    assert_eq!(again.categories, 0);
    assert_eq!(again.manufacturers, 0);
    assert_eq!(again.materials, 0);
    assert_eq!(again.categories_refused, 1);
    assert_eq!(again.manufacturers_refused, 1);
    assert_eq!(again.materials_refused, 1);
    assert_eq!(load_category(&conn, "Concrete").unwrap().len(), 1);
}

#[test]
fn search_never_hands_back_more_than_the_limit() {
    let conn = rusqlite::Connection::open_in_memory().unwrap();
    migrate(&conn).unwrap();
    let mut batch = Vec::new();
    for i in 0..260 {
        batch.push(material(&format!("m{}", i), &format!("Brick {}", i), "Bricks", "4"));
    }
    assert_eq!(carbon::material_db::write(&conn, &batch, "Masonry").unwrap().materials, 260);
    let found = query_materials(&conn, "Brick").unwrap();
    assert_eq!(found.len(), 200);
    assert_eq!(SEARCH_LIMIT, 200);
    assert_eq!(load_category(&conn, "Bricks").unwrap().len(), 260);
}

#[test]
fn search_matches_name_category_and_parent() {
    let conn = rusqlite::Connection::open_in_memory().unwrap();
    migrate(&conn).unwrap();
    carbon::material_db::write(&conn, &vec![material("A", "Oak beam", "Wood", "10")], "Timber").unwrap();
    carbon::material_db::write(&conn, &vec![material("B", "Birch ply", "Plywood", "20")], "Wood").unwrap();
    carbon::material_db::write(&conn, &vec![material("C", "Rebar", "Steel", "30")], "Metals").unwrap();
    assert_eq!(query_materials(&conn, "beam").unwrap().len(), 1);
    assert_eq!(query_materials(&conn, "Wood").unwrap().len(), 2);
    assert_eq!(query_materials(&conn, "etal").unwrap().len(), 1);
    assert_eq!(query_materials(&conn, "nothing").unwrap().len(), 0);
    // upper and lower case are told apart
    assert_eq!(query_materials(&conn, "wood").unwrap().len(), 1);
    assert_eq!(query_materials(&conn, "WOOD").unwrap().len(), 0);
    assert_eq!(query_materials(&conn, "BEAM").unwrap().len(), 0);
    assert_eq!(query_materials(&conn, "Oak b").unwrap().len(), 1);
    assert_eq!(search_pattern("Wood"), "%Wood%");
    assert_eq!(search_pattern(""), "%%");
    assert_eq!(search_pattern("100%_a\\b"), "%100\\%\\_a\\\\b%");
}

#[test]
fn average_of_an_empty_category_is_zero() {
    let conn = rusqlite::Connection::open_in_memory().unwrap();
    migrate(&conn).unwrap();
    let avg = get_category_avg(&conn, "Nothing").unwrap();
    assert_eq!(double(&avg), 0.0);
    assert_eq!(avg.bits(), 0);
    let empty = Category {
        description: "".to_string(),
        name: "Nothing".to_string(),
        display_name: "Nothing".to_string(),
        id: "none".to_string(),
    };
    assert_eq!(double(&get_category_stats(&conn, &empty).unwrap()), 0.0);
}

#[test]
fn average_by_id_and_by_name() {
    let conn = rusqlite::Connection::open_in_memory().unwrap();
    migrate(&conn).unwrap();
    let batch = vec![
        material("m1", "One", "Concrete", "1.5"),
        material("m2", "Two", "Concrete", "2.5"),
    ];
    carbon::material_db::write(&conn, &batch, "Masonry").unwrap();
    assert_eq!(double(&get_category_avg(&conn, "Concrete").unwrap()), 2.0);
    assert_eq!(double(&get_category_stats(&conn, &batch[0].category).unwrap()), 2.0);
}

#[test]
fn average_of_reads_the_single_cell() {
    assert_eq!(average_of(&None).bits(), 0);
    assert_eq!(average_of(&Some(vec![SqlValue::Null])).bits(), 0);
    let got = average_of(&Some(vec![SqlValue::Number("2.5".to_string())]));
    assert_eq!(double(&got), 2.5);
    assert_eq!(average_of(&Some(vec![SqlValue::Text("2.5".to_string())])).bits(), 0);
}

#[test]
fn a_row_with_a_wrong_cell_is_no_material() {
    let text = |s: &str| SqlValue::Text(s.to_string());
    let good = vec![
        text("id"), text("name"), text("descr"), SqlValue::Number("12.5".to_string()),
        text("kgCO2e"), text("cat"), text("Cat"), text("cid"), text("cdescr"),
        text("maker"), text("DE"), SqlValue::Number("2".to_string()), text("m3"),
    ];
    let m = material_of_row(&good).unwrap();
    assert_eq!(m.id, "id");
    assert_eq!(double(&m.gwp.value), 12.5);
    assert_eq!(m.gwp.unit, GwpUnits::KgCO2e);
    assert_eq!(m.declared_unit.unit, Unit::M3);
    assert_eq!(m.manufacturer.country, Some("DE".to_string()));
    assert_eq!(m.image, None);

    let mut null_country = good;
    null_country[10] = SqlValue::Null;
    assert!(material_of_row(&null_country).is_none());
    assert!(material_of_row(&vec![SqlValue::Null]).is_none());
}

fn good_row(id: &str) -> Vec<SqlValue> {
    let text = |s: &str| SqlValue::Text(s.to_string());
    vec![
        text(id), text("name"), text("descr"), SqlValue::Number("12.5".to_string()),
        text("kgCO2e"), text("cat"), text("Cat"), text("cid"), text("cdescr"),
        text("maker"), text("DE"), SqlValue::Number("2".to_string()), text("m3"),
    ]
}

#[test]
fn rows_that_are_no_material_are_passed_over() {
    let mut bad = good_row("b");
    bad[3] = SqlValue::Text("heavy".to_string());
    let rows = vec![good_row("a"), bad, vec![SqlValue::Null], good_row("c"), Vec::new()];
    let ms = materials_of_rows(&rows);
    let ids: Vec<String> = ms.iter().map(|m| m.id.clone()).collect();
    assert_eq!(ids, vec!["a", "c"]);
    assert!(materials_of_rows(&Vec::new()).is_empty());
}

#[test]
fn a_partly_refused_batch_is_accounted_for() {
    let conn = rusqlite::Connection::open_in_memory().unwrap();
    migrate(&conn).unwrap();
    carbon::material_db::write(&conn, &vec![material("m1", "One", "Concrete", "1")], "Masonry")
        .unwrap();
    let batch = vec![
        material("m1", "One", "Concrete", "1"),
        material("m2", "Two", "Cement", "2"),
        material("m2", "Two again", "Cement", "2"),
        material("m3", "Three", "Concrete", "3"),
    ];
    let report = carbon::material_db::write(&conn, &batch, "Masonry").unwrap();
    assert_eq!((report.categories, report.categories_refused), (1, 1));
    assert_eq!((report.manufacturers, report.manufacturers_refused), (0, 1));
    assert_eq!((report.materials, report.materials_refused), (2, 2));
    assert_eq!(load_category(&conn, "Masonry").unwrap().len(), 3);
    // without the tables no statement can be prepared
    let bare = rusqlite::Connection::open_in_memory().unwrap();
    assert_eq!(
        carbon::material_db::write(&bare, &batch, "Masonry").unwrap_err(),
        StoreError::Statement
    );
    assert_eq!(load_category(&bare, "Masonry").unwrap_err(), StoreError::Statement);
    assert_eq!(get_category_avg(&bare, "Masonry").unwrap_err(), StoreError::Statement);
}

#[test]
fn declared_unit_of_a_category() {
    let conn = rusqlite::Connection::open_in_memory().unwrap();
    migrate(&conn).unwrap();
    carbon::material_db::write(&conn, &vec![material("m1", "One", "Concrete", "1")], "Masonry")
        .unwrap();
    // the category is there, its unit is not
    assert_eq!(get_category_unit(&conn, "Concrete").unwrap_err(), StoreError::Missing);
    assert_eq!(get_category_unit(&conn, "Nothing").unwrap_err(), StoreError::Missing);
    let category = Ec3Category {
        id: "id-Concrete".to_string(),
        name: "Concrete".to_string(),
        display_name: "Concrete".to_string(),
        description: "".to_string(),
        parent_id: None,
        declared_unit: DeclaredUnit::from_str("1.5 m3").unwrap(),
    };
    assert_eq!(category_unit_params(&category), vec!["1.5", "M3", "id-Concrete"]);
    assert_eq!(write_category(&conn, &category), Ok(()));
    let unit = get_category_unit(&conn, "Concrete").unwrap();
    assert_eq!(double(&unit.value), 1.5);
    assert_eq!(unit.unit, Unit::M3);
}

#[test]
fn unit_answer_reads_the_first_row() {
    assert_eq!(unit_answer(&None).unwrap_err(), StoreError::Missing);
    assert_eq!(unit_answer(&Some(vec![SqlValue::Null, SqlValue::Null])).unwrap_err(), StoreError::Missing);
    assert_eq!(unit_answer(&Some(vec![SqlValue::Number("2".to_string())])).unwrap_err(), StoreError::Missing);
    let unit = unit_answer(&Some(vec![
        SqlValue::Number("2".to_string()),
        SqlValue::Text("kg".to_string()),
    ]))
    .unwrap();
    assert_eq!(double(&unit.value), 2.0);
    assert_eq!(unit.unit, Unit::Kg);
}

#[test]
fn a_store_that_cannot_be_opened() {
    assert_eq!(connection("/nowhere/at/all/carbon.db").unwrap_err(), StoreError::Open);
    assert!(connection(":memory:").is_ok());
}

#[test]
fn wildcards_in_the_input_match_themselves_only() {
    let conn = rusqlite::Connection::open_in_memory().unwrap();
    migrate(&conn).unwrap();
    let batch = vec![
        material("a", "100% wool", "Wool", "1"),
        material("b", "1000 wool", "Wool", "1"),
        material("c", "glass_wool", "Wool", "1"),
        material("d", "back\\slash", "Wool", "1"),
    ];
    carbon::material_db::write(&conn, &batch, "Insulation").unwrap();
    let found = |input: &str| -> Vec<String> {
        let mut ids: Vec<String> =
            query_materials(&conn, input).unwrap().iter().map(|m| m.id.clone()).collect();
        ids.sort();
        ids
    };
    assert_eq!(found("0%"), vec!["a"]);
    assert_eq!(found("%"), vec!["a"]);
    assert_eq!(found("_"), vec!["c"]);
    assert_eq!(found("s_w"), vec!["c"]);
    assert_eq!(found("\\"), vec!["d"]);
    assert_eq!(found("100"), vec!["a", "b"]);
    assert_eq!(found("wool"), vec!["a", "b", "c"]);
}

#[test]
fn tally_counts_every_outcome() {
    assert_eq!(tally(&Vec::new()), (0, 0));
    assert_eq!(tally(&vec![true]), (1, 0));
    assert_eq!(tally(&vec![false]), (0, 1));
    assert_eq!(tally(&vec![true, false, false, true, true]), (3, 2));
    assert_eq!(tally(&vec![false, false, false]), (0, 3));
}

#[test]
fn one_colliding_row_does_not_stop_the_batch() {
    let conn = rusqlite::Connection::open_in_memory().unwrap();
    migrate(&conn).unwrap();
    carbon::material_db::write(&conn, &vec![material("k", "Kept", "Concrete", "7")], "Masonry")
        .unwrap();
    let batch = vec![
        material("a", "A", "Concrete", "1"),
        material("k", "Other", "Concrete", "2"),
        material("b", "B", "Concrete", "3"),
    ];
    let report = carbon::material_db::write(&conn, &batch, "Masonry").unwrap();
    assert_eq!((report.materials, report.materials_refused), (2, 1));
    let stored = load_category(&conn, "Concrete").unwrap();
    assert_eq!(stored.len(), 3);
    let kept = stored.iter().find(|m| m.id == "k").unwrap();
    assert_eq!(kept.name, "Kept");
    assert_eq!(double(&kept.gwp.value), 7.0);
    assert!(stored.iter().any(|m| m.id == "a"));
    assert!(stored.iter().any(|m| m.id == "b"));
}
