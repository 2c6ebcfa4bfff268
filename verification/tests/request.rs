use carbon::api::{Country, Ec3api, Endpoint, BASE_PATH};
use carbon::material_filter::MaterialFilter;
use carbon::project::{
    average_or_zero, CmpResult, ComponentMaterial, Material, Project, UMaterial,
};
use carbon::rows::{
    category_rows, distinct_categories, distinct_manufacturers, manufacturer_rows, material_rows,
};
use carbon::models::{Category, Ec3Material, Manufacturer};
use carbon::number::Number;
use carbon::settings::{Platform, SettingsProvider};
use carbon::units::{DeclaredUnit, Gwp, GwpUnits, Unit};

fn material(id: &str, category: &str, maker: &str, country: Option<&str>) -> Ec3Material {
    Ec3Material {
        name: format!("name of {}", id),
        gwp: Gwp::from_str("2.5 KgCO2e").unwrap(),
        image: None,
        manufacturer: Manufacturer {
            name: maker.to_string(),
            country: country.map(|c| c.to_string()),
        },
        description: "descr".to_string(),
        category: Category {
            description: "cd".to_string(),
            name: category.to_string(),
            display_name: format!("The {}", category),
            id: format!("id-{}", category),
        },
        id: id.to_string(),
        declared_unit: DeclaredUnit::from_str("1.5 kg").unwrap(),
    }
}

#[test]
fn new_request_asks_for_german_materials() {
    let api = Ec3api::new("key");
    assert_eq!(api.api_key, "key");
    assert!(api.endpoint == Endpoint::Materials);
    assert!(api.country == Country::Germany);
    assert!(api.mf.is_none());
    assert_eq!(api.prepare_url(), "https://buildingtransparency.org/api/materials?jurisdiction=DE");
    assert_eq!(api.authorization(), "Bearer key");
    assert_eq!(api.filter_expression(), "");
    assert_eq!(api.cache_name(), "cache");
    assert_eq!(BASE_PATH, "https://buildingtransparency.org/api/");
}

#[test]
fn builder_sets_one_field_at_a_time() {
    let mut api = Ec3api::new("key");
    api.country(Country::US).endpoint(Endpoint::Materials);
    assert_eq!(api.prepare_url(), "https://buildingtransparency.org/api/materials?jurisdiction=US");
    api.country(Country::UK);
    assert_eq!(api.prepare_url(), "https://buildingtransparency.org/api/materials?jurisdiction=UK");
    api.country(Country::Unspecified);
    assert_eq!(api.prepare_url(), "https://buildingtransparency.org/api/materials");
    api.endpoint(Endpoint::Categories);
    assert_eq!(api.prepare_url(), "https://buildingtransparency.org/api/categories/root");
    assert_eq!(api.api_key, "key");
    let mut mf = MaterialFilter::of_category("Concrete");
    mf.filter("jurisdiction", "in", vec!["150"]);
    api.material_filter(mf);
    assert_eq!(api.cache_name(), "Concrete");
    assert_eq!(
        api.filter_expression(),
        "!EC3 search(\"Concrete\") WHERE\n jurisdiction: IN(\"150\")\n!pragma eMF(\"2.0/1\"), lcia(\"EF 3.0\")"
    );
    assert_eq!(Country::Germany.code(), "DE");
    assert_eq!(Country::Unspecified.code(), "");
    assert_eq!(Endpoint::Materials.segment(), "materials");
}

#[test]
fn settings_paths() {
    assert_eq!(SettingsProvider::APP_NAME, "carbon");
    assert_eq!(
        SettingsProvider::default_path(Platform::Linux, "/home/u"),
        "/home/u/.var/app/carbon"
    );
    assert_eq!(
        SettingsProvider::api_key_path(Platform::Linux, "/home/u"),
        "/home/u/.var/app/carbon/api_key.txt"
    );
    assert_eq!(
        SettingsProvider::cache_dir(Platform::Linux, "/home/u"),
        "/home/u/.var/app/carbon/cache"
    );
    assert_eq!(
        SettingsProvider::database_path(Platform::Linux, "/home/u"),
        "/home/u/.var/app/carbon/cache/carbon.db"
    );
    assert_eq!(
        SettingsProvider::default_path(Platform::Windows, "C:\\Users\\u\\AppData"),
        "C:\\Users\\u\\AppData\\carbon"
    );
    assert_eq!(
        SettingsProvider::cache_dir(Platform::Windows, "C:\\A"),
        "C:\\A\\carbon\\cache"
    );
    assert_eq!(
        SettingsProvider::api_key_path(Platform::Windows, "C:\\A"),
        "C:\\A\\carbon\\api_key.txt"
    );
}

#[test]
fn rows_of_a_batch() {
    let batch = vec![
        material("m1", "Concrete", "Acme", Some("DE")),
        material("m2", "Cement", "Acme", Some("DE")),
        material("m3", "Concrete", "Other", None),
        material("m4", "Concrete", "Acme", None),
    ];
    let categories = distinct_categories(&batch);
    let names: Vec<String> = categories.iter().map(|c| c.name.clone()).collect();
    assert_eq!(names, vec!["Concrete", "Cement"]);
    let makers = distinct_manufacturers(&batch);
    assert_eq!(makers.len(), 3);
    assert_eq!(makers[2].name, "Acme");
    assert_eq!(makers[2].country, None);

    assert_eq!(
        category_rows(&batch, "Masonry"),
        vec![
            vec!["id-Concrete", "Concrete", "The Concrete", "cd", "Masonry"],
            vec!["id-Cement", "Cement", "The Cement", "cd", "Masonry"],
        ]
    );
    assert_eq!(
        manufacturer_rows(&batch),
        vec![vec!["Acme", "DE"], vec!["Other", "Unknown"], vec!["Acme", "Unknown"]]
    );
    let rows = material_rows(&batch);
    assert_eq!(rows.len(), 4);
    assert_eq!(
        rows[0],
        vec!["m1", "name of m1", "descr", "id-Concrete", "2.5", "KgCO2e", "Acme", "1.5", "Kg"]
    );
    assert!(category_rows(&Vec::new(), "x").is_empty());
}

#[test]
fn project_collects_components() {
    let conn = rusqlite::Connection::open_in_memory().unwrap();
    carbon::material_db::migrate(&conn).unwrap();
    let batch = vec![material("m1", "Concrete", "Acme", None)];
    carbon::material_db::write(&conn, &batch, "Masonry").unwrap();

    let mut p = Project::new();
    assert!(p.components.is_empty());
    assert_eq!(p.calculated_gwp.bits(), 0);
    p.add_component(material("m1", "Concrete", "Acme", None), Number::parse("3").unwrap());
    assert_eq!(p.components.len(), 1);
    assert_eq!(p.components[0].quantity.bits(), 0);
    assert_eq!(p.components[0].calculated.bits(), 0);
    assert_eq!(f64::from_bits(p.components[0].category_avg.bits()), 3.0);
    assert_eq!(p.components[0].material.get_name(), "name of m1");
    assert_eq!(f64::from_bits(p.components[0].material.get_gwp().value.bits()), 2.5);
    assert_eq!(p.components[0].material.get_unit().unit, Unit::Kg);

    p.add_generic_comp(&conn, "Concrete");
    assert_eq!(p.components.len(), 2);
    assert!(matches!(p.components[1].material, ComponentMaterial::Average(_)));
    assert_eq!(p.components[1].material.get_name(), "Concrete");
    assert_eq!(f64::from_bits(p.components[1].material.get_gwp().value.bits()), 2.5);
    assert_eq!(f64::from_bits(p.components[1].category_avg.bits()), 2.5);
    assert_eq!(f64::from_bits(p.components[1].material.get_unit().value.bits()), 1.0);
    assert_eq!(p.components[1].material.get_unit().unit, Unit::Unknown);

    let nothing = UMaterial::get_from_db(&conn, "Nothing");
    assert_eq!(nothing.name, "Nothing");
    assert_eq!(nothing.gwp.value.bits(), 0);
    assert_eq!(nothing.gwp.unit, GwpUnits::KgCO2e);
    assert!(CmpResult::Greater != CmpResult::Smaller);
}

#[test]
fn a_failed_average_is_zero() {
    let seven = average_or_zero(Ok(Number::parse("7").unwrap()));
    assert_eq!(f64::from_bits(seven.bits()), 7.0);
    assert_eq!(seven.text(), "7");
    let failed = average_or_zero(Err(carbon::material_db::StoreError::Statement));
    assert_eq!(failed.bits(), 0);
    assert_eq!(failed.text(), "0");
    let bare = rusqlite::Connection::open_in_memory().unwrap();
    let m = UMaterial::get_from_db(&bare, "Concrete");
    assert_eq!(m.gwp.value.bits(), 0);
    assert_eq!(m.name, "Concrete");
}
