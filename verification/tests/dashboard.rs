use maileroo::dashboard::{calculate_total_pages, dashboard_query, EmailStatus, PaginationParams};

#[test]
fn test_calculate_total_pages() {
    assert_eq!(calculate_total_pages(0, 10), 1);
    assert_eq!(calculate_total_pages(10, 10), 1);
    assert_eq!(calculate_total_pages(11, 10), 2);
    assert_eq!(calculate_total_pages(20, 10), 2);
    assert_eq!(calculate_total_pages(21, 10), 3);
}

#[test]
fn total_pages_edge_cases() {
    assert_eq!(calculate_total_pages(1, 10), 1);
    assert_eq!(calculate_total_pages(5, 0), i64::MAX);
    assert_eq!(calculate_total_pages(-5, 0), i64::MIN);
    assert_eq!(calculate_total_pages(0, 0), 1);
    assert_eq!(calculate_total_pages(-21, 10), -2);
    assert_eq!(calculate_total_pages(21, -10), -2);
    assert_eq!(calculate_total_pages(-21, -10), 3);
    assert_eq!(calculate_total_pages(i64::MAX, 1), i64::MAX);
}

#[test]
fn dashboard_request_defaults() {
    let q = dashboard_query(&PaginationParams { page: None, alias: Some(String::new()), q: None, folder: None });
    assert_eq!(q.page, 1);
    assert_eq!(q.page_size, 10);
    assert_eq!(q.offset, 0);
    assert_eq!(q.alias_filter, None);
    assert_eq!(q.folder, "inbox");
    assert_eq!(q.sent_status, None);

    let q = dashboard_query(&PaginationParams {
        page: Some(3),
        alias: Some("sales".to_string()),
        q: Some("invoice".to_string()),
        folder: Some("sent".to_string()),
    });
    assert_eq!(q.page, 3);
    assert_eq!(q.offset, 20);
    assert_eq!(q.alias_filter, Some("sales".to_string()));
    assert_eq!(q.query_filter, Some("invoice".to_string()));
    assert_eq!(q.sent_status, Some(EmailStatus::Sent));

    let q = dashboard_query(&PaginationParams { page: Some(-4), alias: None, q: None, folder: Some("drafts".to_string()) });
    assert_eq!(q.page, 1);
    assert_eq!(q.sent_status, Some(EmailStatus::Draft));
}

#[test]
fn email_status_names() {
    for st in [EmailStatus::Draft, EmailStatus::Sending, EmailStatus::Sent, EmailStatus::Failed] {
        assert_eq!(EmailStatus::from_db_name(st.db_name()), Some(st));
    }
    assert_eq!(EmailStatus::Sending.display_name(), "Sending");
    assert_eq!(EmailStatus::from_db_name("Sent"), None);
}
