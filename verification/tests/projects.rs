use taskify::db::projects::{now, Project, Timestamp};

fn has_random_shape(id: u128) -> bool {
    id & 0x0000_0000_0000_f000_c000_0000_0000_0000 == 0x0000_0000_0000_4000_8000_0000_0000_0000
}

fn create_project() -> Project {
    Project::new("PROJECT_NAME".into(), "PROJECT_DESCRIPTION".into(), "PROJECT_AUTHOR".into())
}

#[test]
fn insert() {
    let query = create_project().insert_query();

    assert_eq!(query.0, "INSERT INTO \"project\" (\"id\", \"name\", \"description\", \"author\", \"created\", \"modified\") VALUES (?, ?, ?, ?, ?, ?)");
}

#[test]
fn update() {
    let query = create_project().update_query();

    assert_eq!(query.0, "UPDATE \"project\" SET \"name\" = ?, \"description\" = ?, \"author\" = ?, \"modified\" = ? WHERE \"id\" = ?")
}

#[test]
fn delete() {
    let query = create_project().delete_query();

    assert_eq!(query.0, "DELETE FROM \"project\" WHERE \"id\" = ?");
}

#[test]
fn query() {
    let query = Project::select_query(0);

    assert_eq!(query.0, "SELECT \"name\", \"description\", \"author\", \"created\", \"modified\" FROM \"project\" WHERE \"id\" = ? LIMIT ?")
}

#[test]
fn insert_binds_every_field_in_column_order() {
    let mut project = create_project();
    project.set_id(7).set_created(Timestamp { nanos: 1_500_000_000 });
    project.set_modified(Timestamp { nanos: 2_000_000_001 });
    let query = project.insert_query();
    let expected = vec![
        sea_query::Value::from(uuid::Uuid::from_u128(7)),
        sea_query::Value::from("PROJECT_NAME".to_string()),
        sea_query::Value::from("PROJECT_DESCRIPTION".to_string()),
        sea_query::Value::from("PROJECT_AUTHOR".to_string()),
        sea_query::Value::from(chrono::DateTime::from_timestamp(1, 500_000_000).unwrap()),
        sea_query::Value::from(chrono::DateTime::from_timestamp(2, 1).unwrap()),
    ];
    assert_eq!(query.1 .0 .0, expected);
}

#[test]
fn update_binds_the_row_and_then_the_identifier() {
    let mut project = create_project();
    project.set_id(9);
    project.set_modified(Timestamp { nanos: 3 });
    let query = project.update_query();
    let expected = vec![
        sea_query::Value::from("PROJECT_NAME".to_string()),
        sea_query::Value::from("PROJECT_DESCRIPTION".to_string()),
        sea_query::Value::from("PROJECT_AUTHOR".to_string()),
        sea_query::Value::from(chrono::DateTime::from_timestamp(0, 3).unwrap()),
        sea_query::Value::from(uuid::Uuid::from_u128(9)),
    ];
    assert_eq!(query.1 .0 .0, expected);
}

#[test]
fn delete_binds_the_identifier() {
    let mut project = create_project();
    project.set_id(0x1234);
    let query = project.delete_query();
    assert_eq!(query.1 .0 .0, vec![sea_query::Value::from(uuid::Uuid::from_u128(0x1234))]);
}

#[test]
fn select_binds_the_identifier_and_a_limit_of_one() {
    let query = Project::select_query(5);
    let expected = vec![sea_query::Value::from(uuid::Uuid::from_u128(5)), sea_query::Value::from(1u64)];
    assert_eq!(query.1 .0 .0, expected);
}

#[test]
fn new_project_has_nil_id_and_epoch_times() {
    let project = create_project();
    assert_eq!(project.id(), 0);
    assert_eq!(project.name(), "PROJECT_NAME");
    assert_eq!(project.description(), "PROJECT_DESCRIPTION");
    assert_eq!(project.author(), "PROJECT_AUTHOR");
    assert_eq!(project.created(), Timestamp { nanos: 0 });
    assert_eq!(project.modified(), Timestamp { nanos: 0 });
}

#[test]
fn default_project_is_empty() {
    let project = Project::default();
    assert_eq!(project.id(), 0);
    assert_eq!(project.name(), "");
    assert_eq!(project.description(), "");
    assert_eq!(project.author(), "");
    assert_eq!(project.created(), Timestamp { nanos: 0 });
    assert_eq!(project.modified(), Timestamp { nanos: 0 });
    assert_eq!(project, Project::new(String::new(), String::new(), String::new()));
}

#[test]
fn from_parts_keeps_every_field() {
    let project = Project::from_parts(
        3,
        "n".into(),
        "d".into(),
        "a".into(),
        Timestamp { nanos: 10 },
        Timestamp { nanos: 20 },
    );
    assert_eq!(project.id(), 3);
    assert_eq!(project.name(), "n");
    assert_eq!(project.description(), "d");
    assert_eq!(project.author(), "a");
    assert_eq!(project.created(), Timestamp { nanos: 10 });
    assert_eq!(project.modified(), Timestamp { nanos: 20 });
}

#[test]
fn set_id_changes_the_id_alone() {
    let mut project = create_project();
    project.set_id(42);
    assert_eq!(project.id(), 42);
    let mut expected = create_project();
    expected.set_id(42);
    assert_eq!(project, expected);
    assert_eq!(project.name(), "PROJECT_NAME");
}

#[test]
fn assign_id_gives_a_random_version_four_id() {
    let mut project = create_project();
    project.assign_id();
    let id = project.id();
    assert_ne!(id, 0);
    assert!(has_random_shape(id));
    let as_uuid = uuid::Uuid::from_u128(id);
    assert_eq!(as_uuid.get_version_num(), 4);
    assert_eq!(as_uuid.get_variant(), uuid::Variant::RFC4122);
    assert_eq!(project.name(), "PROJECT_NAME");
    assert_eq!(project.created(), Timestamp { nanos: 0 });
}

#[test]
fn assign_id_then_assign_created_chain() {
    let mut project = create_project();
    project.assign_id().assign_created();
    assert!(has_random_shape(project.id()));
    assert!(project.created().nanos > 0);
    assert_eq!(project.created(), project.modified());
}

#[test]
fn assign_created_sets_both_times_to_now() {
    let before = chrono::Utc::now().timestamp_nanos_opt().unwrap();
    let mut project = create_project();
    project.assign_created();
    let after = chrono::Utc::now().timestamp_nanos_opt().unwrap();
    assert_eq!(project.created(), project.modified());
    assert!(before <= project.created().nanos && project.created().nanos <= after);
    assert_eq!(project.id(), 0);
}

#[test]
fn set_created_sets_both_times() {
    let mut project = create_project();
    project.set_created(Timestamp { nanos: 77 });
    assert_eq!(project.created(), Timestamp { nanos: 77 });
    assert_eq!(project.modified(), Timestamp { nanos: 77 });
}

#[test]
fn set_name_renames_and_marks_modified() {
    let before = chrono::Utc::now().timestamp_nanos_opt().unwrap();
    let mut project = create_project();
    project.set_name("OTHER".into());
    assert_eq!(project.name(), "OTHER");
    assert!(project.modified().nanos >= before);
    assert_eq!(project.created(), Timestamp { nanos: 0 });
    assert_eq!(project.description(), "PROJECT_DESCRIPTION");
}

#[test]
fn set_name_at_is_exact() {
    let mut project = create_project();
    project.set_name_at("OTHER".into(), Timestamp { nanos: 5 });
    let expected = Project::from_parts(
        0,
        "OTHER".into(),
        "PROJECT_DESCRIPTION".into(),
        "PROJECT_AUTHOR".into(),
        Timestamp { nanos: 0 },
        Timestamp { nanos: 5 },
    );
    assert_eq!(project, expected);
}

#[test]
fn set_description_describes_and_marks_modified() {
    let before = chrono::Utc::now().timestamp_nanos_opt().unwrap();
    let mut project = create_project();
    project.set_description("OTHER".into());
    assert_eq!(project.description(), "OTHER");
    assert!(project.modified().nanos >= before);
    assert_eq!(project.name(), "PROJECT_NAME");
}

#[test]
fn set_description_at_is_exact() {
    let mut project = create_project();
    project.set_description_at("OTHER".into(), Timestamp { nanos: 6 });
    let expected = Project::from_parts(
        0,
        "PROJECT_NAME".into(),
        "OTHER".into(),
        "PROJECT_AUTHOR".into(),
        Timestamp { nanos: 0 },
        Timestamp { nanos: 6 },
    );
    assert_eq!(project, expected);
}

#[test]
fn timestamp_from_clock_is_seconds_times_a_billion_plus_nanos() {
    assert_eq!(Timestamp::from_clock(0, 0), Timestamp { nanos: 0 });
    assert_eq!(Timestamp::from_clock(1, 5), Timestamp { nanos: 1_000_000_005 });
    assert_eq!(Timestamp::from_clock(1_700_000_000, 999_999_999), Timestamp { nanos: 1_700_000_000_999_999_999 });
    assert_eq!(Timestamp::epoch(), Timestamp { nanos: 0 });
}

#[test]
fn timestamp_from_clock_saturates() {
    assert_eq!(Timestamp::from_clock(9_223_372_036, 854_775_807), Timestamp { nanos: i64::MAX });
    assert_eq!(Timestamp::from_clock(9_223_372_036, 854_775_806), Timestamp { nanos: i64::MAX - 1 });
    assert_eq!(Timestamp::from_clock(9_223_372_036, 854_775_808), Timestamp { nanos: i64::MAX });
    assert_eq!(Timestamp::from_clock(9_223_372_037, 0), Timestamp { nanos: i64::MAX });
    assert_eq!(Timestamp::from_clock(i64::MAX, 999_999_999), Timestamp { nanos: i64::MAX });
}

#[test]
fn timestamp_from_clock_before_the_epoch() {
    assert_eq!(Timestamp::from_clock(-1, 0), Timestamp { nanos: -1_000_000_000 });
    assert_eq!(Timestamp::from_clock(-1, 999_999_999), Timestamp { nanos: -1 });
    assert_eq!(Timestamp::from_clock(-1, 4_000_000_000), Timestamp { nanos: 3_000_000_000 });
    assert_eq!(Timestamp::from_clock(0, u32::MAX), Timestamp { nanos: 4_294_967_295 });
    assert_eq!(Timestamp::from_clock(-9_223_372_036, 0), Timestamp { nanos: -9_223_372_036_000_000_000 });
    assert_eq!(Timestamp::from_clock(-9_223_372_037, 145_224_192), Timestamp { nanos: i64::MIN });
    assert_eq!(Timestamp::from_clock(-9_223_372_037, 145_224_193), Timestamp { nanos: i64::MIN + 1 });
    assert_eq!(Timestamp::from_clock(-9_223_372_037, 0), Timestamp { nanos: i64::MIN });
    assert_eq!(Timestamp::from_clock(i64::MIN, u32::MAX), Timestamp { nanos: i64::MIN });
}

#[test]
fn now_reads_the_clock() {
    let before = chrono::Utc::now().timestamp_nanos_opt().unwrap();
    let reading = now();
    let after = chrono::Utc::now().timestamp_nanos_opt().unwrap();
    assert!(before <= reading.nanos && reading.nanos <= after);
}

#[test]
fn list_query_selects_one_page() {
    let query = Project::list_query(0, 12).unwrap();
    assert_eq!(query.0, "SELECT \"id\", \"name\", \"description\", \"author\", \"created\", \"modified\" FROM \"project\" LIMIT ? OFFSET ?");
    assert_eq!(query.1 .0 .0, vec![sea_query::Value::from(12u64), sea_query::Value::from(0u64)]);
    let query = Project::list_query(3, 12).unwrap();
    assert_eq!(query.1 .0 .0, vec![sea_query::Value::from(12u64), sea_query::Value::from(36u64)]);
    let query = Project::list_query(7, 0).unwrap();
    assert_eq!(query.1 .0 .0, vec![sea_query::Value::from(0u64), sea_query::Value::from(0u64)]);
}

#[test]
fn list_query_stops_where_sqlite_stops_counting() {
    let most = i64::MAX as u64;
    assert!(Project::list_query(1, most).is_some());
    assert!(Project::list_query(most, 1).is_some());
    assert!(Project::list_query(0, most).is_some());
    assert!(Project::list_query(0, most + 1).is_none());
    assert!(Project::list_query(1, most + 1).is_none());
    assert!(Project::list_query(most + 1, 1).is_none());
    assert!(Project::list_query(2, most / 2 + 1).is_none());
    assert!(Project::list_query(u64::MAX, 12).is_none());
    assert!(Project::list_query(u64::MAX, u64::MAX).is_none());
    let query = Project::list_query(768_614_336_404_564_650, 12).unwrap();
    assert_eq!(
        query.1 .0 .0,
        vec![sea_query::Value::from(12u64), sea_query::Value::from(9_223_372_036_854_775_800u64)]
    );
    assert!(Project::list_query(768_614_336_404_564_651, 12).is_none());
}
