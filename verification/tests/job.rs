use carbon::jobs::{category_request, Action, CError, Event, Phase, Runner};
use carbon::models::{Category, Ec3Category, Ec3Material, Manufacturer};
use carbon::number::Number;
use carbon::state::State;
use carbon::tree::{push_children, Node};
use carbon::units::{DeclaredUnit, Gwp, GwpUnits};

fn category(name: &str, children: Option<Vec<Node<Ec3Category>>>) -> Node<Ec3Category> {
    Node {
        value: Ec3Category {
            id: format!("id-{}", name),
            name: name.to_string(),
            display_name: name.to_string(),
            description: "".to_string(),
            parent_id: None,
            declared_unit: DeclaredUnit::one(),
        },
        children,
    }
}

fn material(id: &str) -> Ec3Material {
    Ec3Material {
        name: id.to_string(),
        gwp: Gwp { value: Number::zero(), unit: GwpUnits::KgCO2e },
        image: None,
        manufacturer: Manufacturer { name: "Acme".to_string(), country: None },
        description: "".to_string(),
        category: Category {
            description: "".to_string(),
            name: "c".to_string(),
            display_name: "c".to_string(),
            id: "c".to_string(),
        },
        id: id.to_string(),
        declared_unit: DeclaredUnit::one(),
    }
}

fn forest() -> Node<Ec3Category> {
    category(
        "Root",
        Some(vec![
            category(
                "Wood",
                Some(vec![category("Plywood", Some(vec![])), category("Timber", None)]),
            ),
            category("Steel", Some(vec![category("Rebar", None)])),
            category("Glass", None),
        ]),
    )
}

/// Drives a job over the forest; fetches fail for the names in `failing`.
fn run(failing: &[&str]) -> (Runner, Vec<String>, Vec<String>, Option<CError>) {
    let mut runner = Runner::new();
    let mut fetched = Vec::new();
    let mut written = Vec::new();
    let mut action = runner.begin();
    for _ in 0..100 {
        let event = match action {
            Action::Migrate => Event::Migrated(true),
            Action::FetchCategories => Event::Categories(Some(forest())),
            Action::FetchMaterials(name) => {
                fetched.push(name.clone());
                if failing.contains(&name.as_str()) {
                    Event::Materials(None)
                } else {
                    Event::Materials(Some(vec![material(&name)]))
                }
            }
            Action::Write(materials, parent) => {
                assert_eq!(materials.len(), 1);
                assert_eq!(materials[0].id, parent);
                written.push(parent);
                Event::Written
            }
            Action::Finish(outcome) => return (runner, fetched, written, outcome),
            Action::Ignore => panic!("the job ignored an event of its own asking"),
        };
        action = runner.step(event);
    }
    panic!("the job did not finish");
}

#[test]
fn job_walks_depth_first() {
    let (runner, fetched, written, outcome) = run(&[]);
    let expected = vec!["Wood", "Plywood", "Timber", "Steel", "Rebar", "Glass"];
    assert_eq!(fetched, expected);
    assert_eq!(written, expected);
    assert_eq!(outcome, None);
    assert_eq!(runner.phase, Phase::Done);
    assert!(runner.finished());
    assert!(runner.failed.is_empty());
}

#[test]
fn job_skips_the_subtree_of_a_failed_category_only() {
    let (runner, fetched, written, outcome) = run(&["Wood"]);
    assert_eq!(fetched, vec!["Wood", "Steel", "Rebar", "Glass"]);
    assert_eq!(written, vec!["Steel", "Rebar", "Glass"]);
    assert_eq!(outcome, None);
    assert_eq!(runner.failed, vec!["Wood"]);
    assert_eq!(runner.phase, Phase::Done);

    let (runner, fetched, written, _) = run(&["Plywood", "Glass"]);
    assert_eq!(fetched, vec!["Wood", "Plywood", "Timber", "Steel", "Rebar", "Glass"]);
    assert_eq!(written, vec!["Wood", "Timber", "Steel", "Rebar"]);
    assert_eq!(runner.failed, vec!["Plywood", "Glass"]);
}

#[test]
fn job_fails_without_schema_or_tree() {
    let mut r = Runner::new();
    assert_eq!(r.phase, Phase::Idle);
    assert!(!r.finished());
    assert!(matches!(r.begin(), Action::Migrate));
    assert!(matches!(r.step(Event::Migrated(false)), Action::Finish(Some(CError::FromDb))));
    assert_eq!(r.phase, Phase::Failed);
    assert_eq!(r.error, Some(CError::FromDb));
    assert!(r.finished());

    let mut r = Runner::new();
    assert!(matches!(r.step(Event::Migrated(true)), Action::FetchCategories));
    assert_eq!(r.phase, Phase::FetchingCategories);
    assert!(matches!(r.step(Event::Categories(None)), Action::Finish(Some(CError::FromApi))));
    assert_eq!(r.phase, Phase::Failed);

    let mut r = Runner::new();
    r.step(Event::Migrated(true));
    let bare = category("Root", None);
    assert!(matches!(
        r.step(Event::Categories(Some(bare))),
        Action::Finish(Some(CError::FromApi))
    ));
    assert_eq!(r.error, Some(CError::FromApi));
}

#[test]
fn job_with_an_empty_tree_is_done_at_once() {
    let mut r = Runner::new();
    r.step(Event::Migrated(true));
    let empty = category("Root", Some(vec![]));
    assert!(matches!(r.step(Event::Categories(Some(empty))), Action::Finish(None)));
    assert_eq!(r.phase, Phase::Done);
}

#[test]
fn job_ignores_events_out_of_turn() {
    let mut r = Runner::new();
    assert!(matches!(r.step(Event::Written), Action::Ignore));
    assert!(matches!(r.step(Event::Categories(Some(forest()))), Action::Ignore));
    assert_eq!(r.phase, Phase::Idle);
    r.step(Event::Migrated(true));
    assert!(matches!(r.step(Event::Migrated(true)), Action::Ignore));
    assert!(matches!(r.step(Event::Materials(None)), Action::Ignore));
    assert_eq!(r.phase, Phase::FetchingCategories);
    assert!(matches!(r.step(Event::Categories(Some(forest()))), Action::FetchMaterials(_)));
    // the materials of the current category are awaited, not a write
    assert!(matches!(r.step(Event::Written), Action::Ignore));
    assert!(matches!(r.step(Event::Materials(Some(vec![]))), Action::Write(_, _)));
    // now the write is awaited, not materials
    assert!(matches!(r.step(Event::Materials(Some(vec![]))), Action::Ignore));
    assert!(matches!(r.step(Event::Materials(None)), Action::Ignore));
    assert!(r.failed.is_empty());
}

#[test]
fn push_children_puts_the_first_on_top() {
    let mut stack = vec![category("below", None)];
    push_children(&mut stack, vec![category("a", None), category("b", None)]);
    let names: Vec<String> = stack.iter().map(|n| n.value.name.clone()).collect();
    assert_eq!(names, vec!["below", "b", "a"]);
}

#[test]
fn categories_arrive_once() {
    let mut s = State::new("key".to_string());
    assert!(!s.preload_categories(None));
    assert!(!s.preload_categories(Some(forest())));
    assert!(s.categories.is_none());
    let request = s.load_categories();
    assert_eq!(request.api_key, "key");
    assert!(request.endpoint == carbon::api::Endpoint::Categories);
    assert!(s.preload_categories(None));
    assert!(s.preload_categories(None));
    assert!(!s.preload_categories(Some(forest())));
    assert_eq!(s.categories.as_ref().unwrap().value.name, "Root");
    assert!(!s.preload_categories(Some(category("Other", None))));
    assert_eq!(s.categories.as_ref().unwrap().value.name, "Root");
}

#[test]
fn category_request_carries_the_search() {
    let request = category_request("key", "Concrete");
    assert_eq!(request.api_key, "key");
    assert!(request.endpoint == carbon::api::Endpoint::Materials);
    assert!(request.country == carbon::api::Country::Germany);
    assert_eq!(request.cache_name(), "Concrete");
    assert_eq!(
        request.filter_expression(),
        "!EC3 search(\"Concrete\") WHERE\n jurisdiction: IN(\"150\")\n!pragma eMF(\"2.0/1\"), lcia(\"EF 3.0\")"
    );
    assert_eq!(
        request.prepare_url(),
        "https://buildingtransparency.org/api/materials?jurisdiction=DE"
    );
}
