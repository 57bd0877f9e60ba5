use presence_log::identity::IdentityStore;
use presence_log::query::{matches_filters, query, select_page, Filters, QueryError, PAGE_SIZE};
use presence_log::record::EventRecord;
use presence_log::store::LogStore;
use presence_log::record::WriteJob;

fn record(id: u64, user_id: u64, time: u64, status: &str, activity: &str, detail: &str) -> EventRecord {
    EventRecord {
        id,
        user_id,
        time,
        status: status.to_string(),
        activity: activity.to_string(),
        activity_description: detail.to_string(),
    }
}

fn no_filters() -> Filters {
    Filters::none()
}

#[test]
fn page_zero_is_invalid() {
    let records: Vec<EventRecord> = Vec::new();
    let r = select_page(&records, &no_filters(), 0);
    assert_eq!(r.unwrap_err(), QueryError::InvalidPageNumber);
}

#[test]
fn page_one_of_empty_store_is_empty_not_an_error() {
    let records: Vec<EventRecord> = Vec::new();
    let page = select_page(&records, &no_filters(), 1).unwrap();
    assert!(page.is_empty());
}

#[test]
fn sixteen_matching_records_split_fifteen_then_one() {
    assert_eq!(PAGE_SIZE, 15);
    let mut records = Vec::new();
    for i in 1..=16u64 {
        records.push(record(i, 7, 100 + i, "online", "Unknown", "Unknown"));
    }
    let page1 = select_page(&records, &no_filters(), 1).unwrap();
    let page2 = select_page(&records, &no_filters(), 2).unwrap();
    let page3 = select_page(&records, &no_filters(), 3).unwrap();
    assert_eq!(page1.len(), 15);
    assert_eq!(page2.len(), 1);
    assert!(page3.is_empty());
    // Offset of page p is (p - 1) * 15, and no record is skipped or
    // duplicated across the boundary.
    for (k, r) in page1.iter().enumerate() {
        assert_eq!(r.id, k as u64 + 1);
    }
    assert_eq!(page2[0].id, 16);
}

#[test]
fn equality_filters_are_conjunctive() {
    let mut records = Vec::new();
    records.push(record(1, 1, 100, "online", "Game", "Unknown"));
    records.push(record(2, 1, 200, "idle", "Game", "Unknown"));
    records.push(record(3, 2, 300, "online", "Game", "Unknown"));
    records.push(record(4, 1, 400, "online", "Music", "Listening"));

    let mut f = no_filters();
    f.user_id = Some(1);
    f.status = Some("online".to_string());
    let page = select_page(&records, &f, 1).unwrap();
    assert_eq!(page.len(), 2);
    assert_eq!(page[0].id, 1);
    assert_eq!(page[1].id, 4);
    for r in &page {
        assert_eq!(r.user_id, 1);
        assert_eq!(r.status, "online");
    }
}

#[test]
fn time_bounds_select_an_interval() {
    let mut records = Vec::new();
    for i in 1..=5u64 {
        records.push(record(i, 1, i * 100, "online", "Unknown", "Unknown"));
    }
    let mut f = no_filters();
    // Strictly after 100 and strictly before 400: times 200 and 300.
    f.time_mt = Some(100);
    f.time_lt = Some(400);
    let page = select_page(&records, &f, 1).unwrap();
    assert_eq!(page.len(), 2);
    assert_eq!(page[0].time, 200);
    assert_eq!(page[1].time, 300);
}

#[test]
fn combined_filters_match_everything_supplied() {
    let r = record(9, 5, 500, "dnd", "Game", "Ranked");
    let mut f = no_filters();
    f.user_id = Some(5);
    f.status = Some("dnd".to_string());
    f.activity = Some("Game".to_string());
    f.activity_description = Some("Ranked".to_string());
    f.time_lt = Some(501);
    f.time_mt = Some(499);
    assert!(matches_filters(&r, &f));
    f.activity = Some("Music".to_string());
    assert!(!matches_filters(&r, &f));
}

#[test]
fn three_records_for_subject_42_in_ascending_id_order() {
    let mut q = presence_log::queue::new_write_queue(100);
    let statuses = ["online", "idle", "online"];
    let times = [100u64, 200, 300];
    for k in 0..3 {
        let j = WriteJob {
            user_id: 42,
            time: times[k],
            status: statuses[k].to_string(),
            activity: "Unknown".to_string(),
            activity_description: "Unknown".to_string(),
        };
        assert!(matches!(
            q.submit(j),
            presence_log::queue::SubmitOutcome::Accepted
        ));
    }
    let mut store = LogStore::new();
    presence_log::store::writer_task(&mut q, &mut store);

    let mut identities = IdentityStore::new();
    identities.associate_usermame(42, "somebody".to_string());

    let mut f = no_filters();
    f.user_id = Some(42);
    let page = query(&store, &identities, &f, 1).unwrap();
    assert_eq!(page.len(), 3);
    for (k, (r, name)) in page.iter().enumerate() {
        assert_eq!(r.id, k as u64 + 1);
        assert_eq!(r.user_id, 42);
        assert_eq!(r.time, times[k]);
        assert_eq!(r.status, statuses[k]);
        assert_eq!(name, "somebody");
    }
}

#[test]
fn query_page_zero_is_invalid() {
    let store = LogStore::new();
    let identities = IdentityStore::new();
    let r = query(&store, &identities, &no_filters(), 0);
    assert_eq!(r.unwrap_err(), QueryError::InvalidPageNumber);
}

#[test]
fn query_annotates_unknown_subjects_with_placeholder() {
    let mut q = presence_log::queue::new_write_queue(10);
    let j = WriteJob {
        user_id: 99,
        time: 50,
        status: "offline".to_string(),
        activity: "Unknown".to_string(),
        activity_description: "Unknown".to_string(),
    };
    assert!(matches!(
        q.submit(j),
        presence_log::queue::SubmitOutcome::Accepted
    ));
    let mut store = LogStore::new();
    presence_log::store::writer_task(&mut q, &mut store);
    let identities = IdentityStore::new();
    let page = query(&store, &identities, &no_filters(), 1).unwrap();
    assert_eq!(page.len(), 1);
    assert_eq!(page[0].1, "unknown-user");
}
