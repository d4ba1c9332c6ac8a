use roadmap_planner::codec::{decode_opt_list, encode_opt_list};
use roadmap_planner::entities::{
    resource_from_row, resource_to_row, system_from_row, system_to_row, Capability, Constraint,
    FinancialPeriod, Initiative, Resource, ResourcePool, Scenario, System,
};
use roadmap_planner::record::StoreError;
use roadmap_planner::store::RecordStore;
use roadmap_planner::text::{compare_opt_text, compare_text};

fn capability(id: &str, name: &str, sort_order: i64) -> Capability {
    Capability {
        id: id.to_string(),
        name: name.to_string(),
        description: Some("what it does".to_string()),
        capability_type: "business".to_string(),
        parent_id: None,
        colour: Some("#336699".to_string()),
        sort_order,
        created_at: 0,
        updated_at: 0,
    }
}

fn system(id: &str, name: &str, capability_id: Option<&str>, stack: Option<Vec<&str>>) -> System {
    System {
        id: id.to_string(),
        name: name.to_string(),
        description: None,
        owner: Some("platform team".to_string()),
        vendor: None,
        technology_stack: stack.map(|v| v.into_iter().map(|s| s.to_string()).collect()),
        lifecycle_stage: "production".to_string(),
        criticality: "high".to_string(),
        support_end_date: Some("2027-12-31".to_string()),
        extended_support_end_date: None,
        capability_id: capability_id.map(|s| s.to_string()),
        created_at: 0,
        updated_at: 0,
    }
}

fn initiative(id: &str, name: &str, scenario_id: &str, start: Option<&str>) -> Initiative {
    Initiative {
        id: id.to_string(),
        name: name.to_string(),
        description: None,
        initiative_type: "project".to_string(),
        status: "planned".to_string(),
        start_date: start.map(|s| s.to_string()),
        end_date: None,
        effort_estimate: Some(120),
        effort_uncertainty: Some(20),
        cost_estimate: Some(50_000),
        cost_uncertainty: None,
        priority: Some(1),
        scenario_id: scenario_id.to_string(),
        created_at: 0,
        updated_at: 0,
    }
}

fn scenario(id: &str, name: &str, is_baseline: bool) -> Scenario {
    Scenario {
        id: id.to_string(),
        name: name.to_string(),
        description: None,
        scenario_type: "what-if".to_string(),
        is_baseline,
        parent_scenario_id: None,
        created_at: 0,
        updated_at: 0,
    }
}

fn resource(id: &str, name: &str, pool: Option<&str>, skills: Option<Vec<&str>>) -> Resource {
    Resource {
        id: id.to_string(),
        name: name.to_string(),
        role: Some("engineer".to_string()),
        skills: skills.map(|v| v.into_iter().map(|s| s.to_string()).collect()),
        availability: Some(80),
        resource_pool_id: pool.map(|s| s.to_string()),
        start_date: None,
        end_date: None,
        created_at: 0,
        updated_at: 0,
    }
}

fn pool(id: &str, name: &str) -> ResourcePool {
    ResourcePool {
        id: id.to_string(),
        name: name.to_string(),
        description: None,
        capacity_per_period: Some(400),
        capacity_unit: Some("hours".to_string()),
        period_type: Some("month".to_string()),
        colour: None,
        created_at: 0,
        updated_at: 0,
    }
}

fn constraint(id: &str, name: &str) -> Constraint {
    Constraint {
        id: id.to_string(),
        name: name.to_string(),
        description: None,
        constraint_type: "deadline".to_string(),
        hardness: "hard".to_string(),
        effective_date: Some("2026-01-01".to_string()),
        expiry_date: None,
        created_at: 0,
        updated_at: 0,
    }
}

fn period(id: &str, name: &str, start: &str) -> FinancialPeriod {
    FinancialPeriod {
        id: id.to_string(),
        name: name.to_string(),
        period_type: "quarter".to_string(),
        start_date: start.to_string(),
        end_date: "2026-12-31".to_string(),
        budget_available: Some(1_000_000),
        created_at: 0,
        updated_at: 0,
    }
}

fn ids<T>(rows: &[T], id: impl Fn(&T) -> &str) -> Vec<String> {
    rows.iter().map(|r| id(r).to_string()).collect()
}

#[test]
fn create_then_get_returns_input_with_equal_timestamps() {
    let mut store = RecordStore::new();
    let input = capability("c1", "Billing", 2);
    let created = store.create_capability(input.clone(), 1_700_000_000).unwrap();
    let mut expected = input.clone();
    expected.created_at = 1_700_000_000;
    expected.updated_at = 1_700_000_000;
    assert_eq!(created, expected);
    assert_eq!(store.get_capability("c1".to_string()).unwrap(), expected);
    assert_eq!(created.created_at, created.updated_at);
}

#[test]
fn create_ignores_client_timestamps() {
    let mut store = RecordStore::new();
    let mut input = constraint("k1", "Go-live");
    input.created_at = 5;
    input.updated_at = 99;
    let created = store.create_constraint(input, 1000).unwrap();
    assert_eq!(created.created_at, 1000);
    assert_eq!(created.updated_at, 1000);
}

#[test]
fn create_with_taken_id_is_a_constraint_violation() {
    let mut store = RecordStore::new();
    store.create_resource_pool(pool("pool-a", "Backend"), 10).unwrap();
    let again = store.create_resource_pool(pool("pool-a", "Frontend"), 20);
    assert_eq!(again, Err(StoreError::ConstraintViolation));
    assert_eq!(store.get_resource_pool("pool-a".to_string()).unwrap().name, "Backend");
}

#[test]
fn update_then_get_keeps_created_and_refreshes_updated() {
    let mut store = RecordStore::new();
    store.create_initiative(initiative("i1", "Migrate", "s1", None), 100).unwrap();
    let mut changed = initiative("i1", "Migrate to cloud", "s1", Some("2026-03-01"));
    changed.created_at = 7;
    let updated = store.update_initiative(changed, 250).unwrap();
    assert_eq!(updated.created_at, 100);
    assert_eq!(updated.updated_at, 250);
    assert!(updated.updated_at >= 100);
    assert_eq!(updated.name, "Migrate to cloud");
    assert_eq!(store.get_initiative("i1".to_string()).unwrap(), updated);
}

#[test]
fn update_of_missing_id_is_not_found() {
    let mut store = RecordStore::new();
    assert_eq!(store.update_constraint(constraint("nope", "x"), 5), Err(StoreError::NotFound));
    assert_eq!(store.update_system(system("nope", "x", None, None), 5), Err(StoreError::NotFound));
    assert_eq!(store.get_constraints().len(), 0);
}

#[test]
fn update_scenario_keeps_the_baseline_flag() {
    let mut store = RecordStore::new();
    store.create_scenario(scenario("baseline", "Current plan", true), 1).unwrap();
    let updated = store.update_scenario(scenario("baseline", "Renamed", false), 2).unwrap();
    assert!(updated.is_baseline);
    assert_eq!(updated.name, "Renamed");
}

#[test]
fn delete_missing_id_succeeds_and_get_is_not_found() {
    let mut store = RecordStore::new();
    assert_eq!(store.delete_capability("ghost".to_string()), Ok(()));
    assert_eq!(store.get_capability("ghost".to_string()), Err(StoreError::NotFound));
    assert_eq!(store.delete_system("ghost".to_string()), Ok(()));
    assert_eq!(store.get_system("ghost".to_string()), Err(StoreError::NotFound));
    assert_eq!(store.delete_financial_period("ghost".to_string()), Ok(()));
    assert_eq!(store.get_financial_period("ghost".to_string()), Err(StoreError::NotFound));
}

#[test]
fn delete_removes_only_that_row() {
    let mut store = RecordStore::new();
    store.create_constraint(constraint("k1", "A"), 1).unwrap();
    store.create_constraint(constraint("k2", "B"), 1).unwrap();
    assert_eq!(store.delete_constraint("k1".to_string()), Ok(()));
    assert_eq!(store.get_constraint("k1".to_string()), Err(StoreError::NotFound));
    assert_eq!(store.get_constraint("k2".to_string()).unwrap().name, "B");
}

#[test]
fn delete_baseline_id_is_refused() {
    let mut store = RecordStore::new();
    store.create_scenario(scenario("baseline", "Current plan", false), 1).unwrap();
    assert_eq!(store.delete_scenario("baseline".to_string()), Err(StoreError::BaselineProtected));
    assert!(store.get_scenario("baseline".to_string()).is_ok());
}

#[test]
fn delete_baseline_id_is_refused_even_when_absent() {
    let mut store = RecordStore::new();
    assert_eq!(store.delete_scenario("baseline".to_string()), Err(StoreError::BaselineProtected));
}

#[test]
fn delete_baseline_flagged_scenario_is_refused() {
    let mut store = RecordStore::new();
    store.create_scenario(scenario("s-main", "Main", true), 1).unwrap();
    assert_eq!(store.delete_scenario("s-main".to_string()), Err(StoreError::BaselineProtected));
    assert!(store.get_scenario("s-main".to_string()).unwrap().is_baseline);
}

#[test]
fn delete_ordinary_scenario() {
    let mut store = RecordStore::new();
    store.create_scenario(scenario("s2", "Fast track", false), 1).unwrap();
    assert_eq!(store.delete_scenario("s2".to_string()), Ok(()));
    assert_eq!(store.get_scenario("s2".to_string()), Err(StoreError::NotFound));
}

#[test]
fn delete_missing_scenario_succeeds() {
    let mut store = RecordStore::new();
    store.create_scenario(scenario("s1", "Kept", false), 1).unwrap();
    assert_eq!(store.delete_scenario("s9".to_string()), Ok(()));
    assert_eq!(store.get_scenario("s9".to_string()), Err(StoreError::NotFound));
    assert_eq!(store.get_scenarios().len(), 1);
}

#[test]
fn scenarios_list_baseline_first_then_by_name() {
    let mut store = RecordStore::new();
    store.create_scenario(scenario("s1", "Zeta", false), 1).unwrap();
    store.create_scenario(scenario("s2", "Alpha", false), 1).unwrap();
    store.create_scenario(scenario("baseline", "Current", true), 1).unwrap();
    store.create_scenario(scenario("s3", "Beta", false), 1).unwrap();
    let listed = store.get_scenarios();
    assert_eq!(ids(&listed, |s| &s.id), vec!["baseline", "s2", "s3", "s1"]);
}

#[test]
fn capabilities_list_by_sort_order_then_name() {
    let mut store = RecordStore::new();
    store.create_capability(capability("c1", "Sales", 2), 1).unwrap();
    store.create_capability(capability("c2", "Billing", 2), 1).unwrap();
    store.create_capability(capability("c3", "Zoning", 1), 1).unwrap();
    store.create_capability(capability("c4", "Audit", -3), 1).unwrap();
    let listed = store.get_capabilities();
    assert_eq!(ids(&listed, |c| &c.id), vec!["c4", "c3", "c2", "c1"]);
}

#[test]
fn equal_names_are_ordered_by_id() {
    let mut store = RecordStore::new();
    store.create_constraint(constraint("k2", "Same"), 1).unwrap();
    store.create_constraint(constraint("k1", "Same"), 1).unwrap();
    let listed = store.get_constraints();
    assert_eq!(ids(&listed, |c| &c.id), vec!["k1", "k2"]);
}

#[test]
fn initiatives_filtered_by_scenario_in_start_date_order() {
    let mut store = RecordStore::new();
    store.create_initiative(initiative("i1", "B", "s1", Some("2026-05-01")), 1).unwrap();
    store.create_initiative(initiative("i2", "A", "s2", Some("2026-01-01")), 1).unwrap();
    store.create_initiative(initiative("i3", "C", "s1", None), 1).unwrap();
    store.create_initiative(initiative("i4", "A", "s1", Some("2026-05-01")), 1).unwrap();
    let scoped = store.get_initiatives(Some("s1".to_string()));
    assert_eq!(ids(&scoped, |i| &i.id), vec!["i3", "i4", "i1"]);
    assert!(scoped.iter().all(|i| i.scenario_id == "s1"));
    let all = store.get_initiatives(None);
    assert_eq!(ids(&all, |i| &i.id), vec!["i3", "i2", "i4", "i1"]);
    assert_eq!(store.get_initiatives(Some("none".to_string())).len(), 0);
}

#[test]
fn systems_by_capability_and_unfiltered() {
    let mut store = RecordStore::new();
    store.create_system(system("y1", "Ledger", Some("c1"), None), 1).unwrap();
    store.create_system(system("y2", "CRM", Some("c2"), None), 1).unwrap();
    store.create_system(system("y3", "Billing engine", Some("c1"), None), 1).unwrap();
    store.create_system(system("y4", "Archive", None, None), 1).unwrap();
    let scoped = store.get_systems_by_capability("c1".to_string());
    assert_eq!(ids(&scoped, |s| &s.id), vec!["y3", "y1"]);
    let all = store.get_systems();
    assert_eq!(ids(&all, |s| &s.id), vec!["y4", "y3", "y2", "y1"]);
}

#[test]
fn resources_filtered_by_pool() {
    let mut store = RecordStore::new();
    store.create_resource(resource("r1", "Kim", Some("pool-a"), None), 1).unwrap();
    store.create_resource(resource("r2", "Ada", Some("pool-b"), None), 1).unwrap();
    store.create_resource(resource("r3", "Bo", Some("pool-a"), None), 1).unwrap();
    let scoped = store.get_resources(Some("pool-a".to_string()));
    assert_eq!(ids(&scoped, |r| &r.id), vec!["r3", "r1"]);
    let all = store.get_resources(None);
    assert_eq!(ids(&all, |r| &r.id), vec!["r2", "r3", "r1"]);
}

#[test]
fn listing_an_empty_table_is_empty() {
    let store = RecordStore::new();
    assert!(store.get_capabilities().is_empty());
    assert!(store.get_systems().is_empty());
    assert!(store.get_scenarios().is_empty());
    assert!(store.get_resource_pools().is_empty());
    assert!(store.get_financial_periods().is_empty());
}

#[test]
fn financial_periods_by_start_date() {
    let mut store = RecordStore::new();
    store.create_financial_period(period("f2", "Q2", "2026-04-01"), 1).unwrap();
    store.create_financial_period(period("f1", "Q1", "2026-01-01"), 1).unwrap();
    let listed = store.get_financial_periods();
    assert_eq!(ids(&listed, |p| &p.id), vec!["f1", "f2"]);
    let updated = store.update_financial_period(period("f2", "Q2 revised", "2026-04-01"), 9).unwrap();
    assert_eq!(updated.created_at, 1);
    assert_eq!(updated.updated_at, 9);
}

#[test]
fn technology_stack_round_trips_in_order() {
    let mut store = RecordStore::new();
    let created = store
        .create_system(system("y1", "Ledger", None, Some(vec!["Java", "Postgres"])), 5)
        .unwrap();
    assert_eq!(created.technology_stack, Some(vec!["Java".to_string(), "Postgres".to_string()]));
    let read = store.get_system("y1".to_string()).unwrap();
    assert_eq!(read.technology_stack, Some(vec!["Java".to_string(), "Postgres".to_string()]));
    assert_eq!(read.created_at, 5);
    assert_eq!(read.updated_at, 5);
}

#[test]
fn skills_round_trip_in_order() {
    let mut store = RecordStore::new();
    store.create_resource(resource("r1", "Kim", None, Some(vec!["Rust", "SQL", "Go"])), 5).unwrap();
    let read = store.get_resource("r1".to_string()).unwrap();
    let want: Vec<String> = vec!["Rust".to_string(), "SQL".to_string(), "Go".to_string()];
    assert_eq!(read.skills, Some(want));
    let updated = store.update_resource(resource("r1", "Kim", None, Some(vec!["Go"])), 6).unwrap();
    assert_eq!(updated.skills, Some(vec!["Go".to_string()]));
    assert_eq!(updated.created_at, 5);
}

#[test]
fn absent_and_empty_lists_stay_distinct() {
    let mut store = RecordStore::new();
    store.create_system(system("y1", "A", None, None), 1).unwrap();
    store.create_system(system("y2", "B", None, Some(vec![])), 1).unwrap();
    assert_eq!(store.get_system("y1".to_string()).unwrap().technology_stack, None);
    assert_eq!(store.get_system("y2".to_string()).unwrap().technology_stack, Some(vec![]));
}

#[test]
fn stored_list_is_json_text() {
    let row = system_to_row(system("y1", "Ledger", None, Some(vec!["Java", "Postgres"])));
    assert_eq!(row.technology_stack, Some("[\"Java\",\"Postgres\"]".to_string()));
    let back = system_from_row(&row);
    assert_eq!(back.technology_stack, Some(vec!["Java".to_string(), "Postgres".to_string()]));
    let rrow = resource_to_row(resource("r1", "Kim", None, Some(vec!["a\"b"])));
    assert_eq!(rrow.skills, Some("[\"a\\\"b\"]".to_string()));
    assert_eq!(resource_from_row(&rrow).skills, Some(vec!["a\"b".to_string()]));
}

#[test]
fn decoding_rejects_text_that_is_not_a_list() {
    assert_eq!(decode_opt_list(&Some("not json".to_string())), None);
    assert_eq!(decode_opt_list(&None), Some(None));
    assert_eq!(
        decode_opt_list(&Some("[\"x\"]".to_string())),
        Some(Some(vec!["x".to_string()]))
    );
    assert_eq!(encode_opt_list(&Some(vec![])), Some("[]".to_string()));
}

#[test]
fn text_order_is_by_code_point() {
    assert_eq!(compare_text("abc", "abd"), -1);
    assert_eq!(compare_text("abd", "abc"), 1);
    assert_eq!(compare_text("ab", "abc"), -1);
    assert_eq!(compare_text("", ""), 0);
    assert_eq!(compare_text("Zeta", "alpha"), -1);
    assert_eq!(compare_text("é", "z"), 1);
    assert_eq!(compare_opt_text(&None, &Some(String::new())), -1);
    assert_eq!(compare_opt_text(&Some("b".to_string()), &Some("a".to_string())), 1);
}

#[test]
fn error_messages() {
    assert_eq!(StoreError::BaselineProtected.message(), "Cannot delete the baseline scenario");
    assert_eq!(StoreError::ConnectionNotFound.message(), "Database not found");
    assert_eq!(
        StoreError::NotFound.message(),
        "no rows returned by a query that expected to return at least one row"
    );
    assert_eq!(StoreError::ConstraintViolation.message(), "constraint violation");
}

#[test]
fn restore_keeps_stored_timestamps() {
    let mut store = RecordStore::new();
    let mut c = capability("c1", "Billing", 1);
    c.created_at = 5;
    c.updated_at = 9;
    assert_eq!(store.restore_capability(c.clone()), Ok(()));
    assert_eq!(store.get_capability("c1".to_string()).unwrap(), c);
    assert_eq!(store.restore_capability(c), Err(StoreError::ConstraintViolation));
}

#[test]
fn restore_system_keeps_its_list() {
    let mut store = RecordStore::new();
    let mut y = system("y1", "Ledger", Some("c1"), Some(vec!["Java", "Postgres"]));
    y.created_at = 3;
    y.updated_at = 4;
    assert_eq!(store.restore_system(y.clone()), Ok(()));
    assert_eq!(store.get_system("y1".to_string()).unwrap(), y);
    let mut s = scenario("baseline", "Current", true);
    s.created_at = 2;
    assert_eq!(store.restore_scenario(s.clone()), Ok(()));
    assert_eq!(store.get_scenario("baseline".to_string()).unwrap(), s);
}
