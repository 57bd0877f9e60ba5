use presence_log::query::{Filters, QueryError};
use presence_log::record::WriteJob;
use presence_log::sql::{
    get_data, insert_job_params, select_name_params, upsert_name_params, Param, INSERT_JOB_SQL,
    LOG_SCHEMA_SQL, SELECT_NAME_SQL, UPSERT_NAME_SQL,
};

fn expect_uint(p: &Param) -> u64 {
    match p {
        Param::UInt(u) => *u,
        Param::Text(_) => panic!("expected an integer parameter"),
    }
}

fn expect_text(p: &Param) -> &str {
    match p {
        Param::Text(s) => s.as_str(),
        Param::UInt(_) => panic!("expected a text parameter"),
    }
}

#[test]
fn unfiltered_select_has_window_parameters_only() {
    let q = get_data(&Filters::none(), 1).unwrap();
    assert_eq!(
        q.text,
        "SELECT * FROM tracking_data WHERE id IS NOT NULL LIMIT ? OFFSET ?"
    );
    assert_eq!(q.params.len(), 2);
    assert_eq!(expect_uint(&q.params[0]), 15);
    assert_eq!(expect_uint(&q.params[1]), 0);
}

#[test]
fn page_offset_is_linear_in_the_page_number() {
    let q3 = get_data(&Filters::none(), 3).unwrap();
    assert_eq!(expect_uint(&q3.params[1]), 30);
    let q7 = get_data(&Filters::none(), 7).unwrap();
    assert_eq!(expect_uint(&q7.params[1]), 90);
}

#[test]
fn page_zero_never_builds_a_statement() {
    assert_eq!(
        get_data(&Filters::none(), 0).unwrap_err(),
        QueryError::InvalidPageNumber
    );
}

#[test]
fn supplied_criteria_become_placeholders_in_order() {
    let mut f = Filters::none();
    f.user_id = Some(42);
    f.status = Some("online".to_string());
    f.time_lt = Some(900);
    f.time_mt = Some(100);
    let q = get_data(&f, 2).unwrap();
    assert_eq!(
        q.text,
        "SELECT * FROM tracking_data WHERE id IS NOT NULL AND user_id = ? AND status = ? \
         AND time < ? AND time > ? LIMIT ? OFFSET ?"
    );
    assert_eq!(q.params.len(), 6);
    assert_eq!(expect_uint(&q.params[0]), 42);
    assert_eq!(expect_text(&q.params[1]), "online");
    assert_eq!(expect_uint(&q.params[2]), 900);
    assert_eq!(expect_uint(&q.params[3]), 100);
    assert_eq!(expect_uint(&q.params[4]), 15);
    assert_eq!(expect_uint(&q.params[5]), 15);
}

#[test]
fn filter_text_never_reaches_the_statement_text() {
    let hostile = "x'; DROP TABLE tracking_data; --";
    let mut f = Filters::none();
    f.status = Some(hostile.to_string());
    f.activity = Some(hostile.to_string());
    f.activity_description = Some(hostile.to_string());
    let q = get_data(&f, 1).unwrap();
    assert!(!q.text.contains(hostile));
    assert!(!q.text.contains("DROP"));
    assert_eq!(expect_text(&q.params[0]), hostile);
    assert_eq!(expect_text(&q.params[1]), hostile);
    assert_eq!(expect_text(&q.params[2]), hostile);
}

#[test]
fn insert_statement_binds_every_field_in_order() {
    let job = WriteJob {
        user_id: 5,
        time: 1234,
        status: "idle".to_string(),
        activity: "Game".to_string(),
        activity_description: "Ranked".to_string(),
    };
    assert!(INSERT_JOB_SQL.starts_with("INSERT INTO tracking_data"));
    let ps = insert_job_params(&job);
    assert_eq!(ps.len(), 5);
    assert_eq!(expect_uint(&ps[0]), 5);
    assert_eq!(expect_uint(&ps[1]), 1234);
    assert_eq!(expect_text(&ps[2]), "idle");
    assert_eq!(expect_text(&ps[3]), "Game");
    assert_eq!(expect_text(&ps[4]), "Ranked");
}

#[test]
fn identity_statements_bind_id_and_name() {
    assert!(UPSERT_NAME_SQL.starts_with("INSERT OR REPLACE INTO users"));
    assert!(SELECT_NAME_SQL.starts_with("SELECT username FROM users"));
    assert!(LOG_SCHEMA_SQL.contains("CREATE TABLE IF NOT EXISTS tracking_data"));
    let ps = upsert_name_params(8, &"carol".to_string());
    assert_eq!(ps.len(), 2);
    assert_eq!(expect_uint(&ps[0]), 8);
    assert_eq!(expect_text(&ps[1]), "carol");
    let ps = select_name_params(8);
    assert_eq!(ps.len(), 1);
    assert_eq!(expect_uint(&ps[0]), 8);
}
