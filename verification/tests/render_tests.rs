use std::collections::HashMap;
use presence_log::record::EventRecord;
use presence_log::render::{
    construct_page, construct_results, u64_to_string, BLOCK_A, BLOCK_B, BLOCK_C, BLOCK_D,
    BLOCK_E, BLOCK_F, BLOCK_G, PAGE_GAP, PAGE_HEAD, PAGE_MID, PAGE_TAIL,
};

fn record(id: u64, user_id: u64, time: u64, status: &str, activity: &str, detail: &str) -> EventRecord {
    EventRecord {
        id,
        user_id,
        time,
        status: status.to_string(),
        activity: activity.to_string(),
        activity_description: detail.to_string(),
    }
}

#[test]
fn decimal_rendering_is_exact() {
    assert_eq!(u64_to_string(0), "0");
    assert_eq!(u64_to_string(7), "7");
    assert_eq!(u64_to_string(15), "15");
    assert_eq!(u64_to_string(1000), "1000");
    assert_eq!(u64_to_string(18446744073709551615), "18446744073709551615");
}

#[test]
fn one_record_renders_the_full_block() {
    let data = vec![record(1, 42, 0, "online", "Game", "Ranked")];
    let mut names: HashMap<u64, String> = HashMap::new();
    names.insert(42, "somebody".to_string());
    let html = construct_results(&data, &names);
    let expected = format!(
        "{}online{}42{}somebody{}01/01/1970 @ 00:00:00{}Game{}Ranked{}",
        BLOCK_A, BLOCK_B, BLOCK_C, BLOCK_D, BLOCK_E, BLOCK_F, BLOCK_G
    );
    assert_eq!(html, expected);
}

#[test]
fn timestamps_render_as_calendar_text() {
    let data = vec![record(1, 1, 1431648000, "idle", "Unknown", "Unknown")];
    let mut names: HashMap<u64, String> = HashMap::new();
    names.insert(1, "a".to_string());
    let html = construct_results(&data, &names);
    // 1431648000 seconds since the epoch is 15 May 2015, midnight UTC.
    assert!(html.contains("15/05/2015 @ 00:00:00"));
}

#[test]
fn records_render_in_order() {
    let data = vec![
        record(1, 1, 0, "online", "Unknown", "Unknown"),
        record(2, 2, 0, "idle", "Unknown", "Unknown"),
    ];
    let mut names: HashMap<u64, String> = HashMap::new();
    names.insert(1, "first".to_string());
    names.insert(2, "second".to_string());
    let html = construct_results(&data, &names);
    let p1 = html.find("first").unwrap();
    let p2 = html.find("second").unwrap();
    assert!(p1 < p2);
    assert!(html.contains("class=\"status online\""));
    assert!(html.contains("class=\"status idle\""));
}

#[test]
fn empty_page_renders_only_the_frame() {
    let data: Vec<EventRecord> = Vec::new();
    let names: HashMap<u64, String> = HashMap::new();
    assert_eq!(construct_results(&data, &names), "");
    let page = construct_page(&data, &names, 1, 500);
    let expected = format!("{PAGE_HEAD}{PAGE_MID}1{PAGE_GAP}500{PAGE_TAIL}");
    assert_eq!(page, expected);
}

#[test]
fn page_wraps_results_with_page_numbers() {
    let data = vec![record(1, 42, 0, "dnd", "Game", "Unknown")];
    let mut names: HashMap<u64, String> = HashMap::new();
    names.insert(42, "somebody".to_string());
    let results = construct_results(&data, &names);
    let page = construct_page(&data, &names, 3, 500);
    let expected = format!("{PAGE_HEAD}{results}{PAGE_MID}3{PAGE_GAP}500{PAGE_TAIL}");
    assert_eq!(page, expected);
    assert!(page.contains("<p id=\"selected-page\">3</p>"));
    assert!(page.contains("<p id=\"max-pages\">/500</p>"));
}
