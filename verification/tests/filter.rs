use maileroo::filter::{
    filter_keywords, label_color, FilterEngine,
    extract_searchable_body, next_backfill_offset, strip_html_tags, BackfillEngine, BackfillJob, CompiledFilterSet,
    BACKFILL_QUEUE_CAPACITY, MAX_FILTER_SCAN_BYTES,
};

#[test]
fn test_compiled_filter_set_multi_match() {
    let label_billing: u128 = 0x1111;
    let label_receipts: u128 = 0x2222;
    let label_personal: u128 = 0x3333;

    let rules = vec![
        ("invoice".to_string(), label_billing),
        ("receipt".to_string(), label_receipts),
        ("personal".to_string(), label_personal),
    ];

    let filter_set = CompiledFilterSet::new(&rules).unwrap();

    let text = "Hello, here is your monthly invoice and a payment receipt attached.";
    let matches = filter_set.matches(text);

    assert_eq!(matches.len(), 2);
    assert!(matches.contains(&label_billing));
    assert!(matches.contains(&label_receipts));
    assert!(!matches.contains(&label_personal));
}

#[test]
fn test_case_insensitivity() {
    let label_id: u128 = 77;
    let rules = vec![("UrGeNt".to_string(), label_id)];
    let filter_set = CompiledFilterSet::new(&rules).unwrap();

    assert_eq!(filter_set.matches("this is urgent!"), vec![label_id]);
    assert_eq!(filter_set.matches("THIS IS URGENT!"), vec![label_id]);
}

#[test]
fn test_scan_ceiling_cap() {
    let long_text = format!("{} MATCH_KEYWORD", "a".repeat(70_000));
    let raw_eml = format!("From: a@b.com\r\nSubject: Test\r\nContent-Type: text/plain\r\n\r\n{}", long_text);
    let extracted = extract_searchable_body(raw_eml.as_bytes(), 64 * 1024);
    assert_eq!(extracted.len(), 64 * 1024);
    assert!(!extracted.contains("MATCH_KEYWORD"));
}

#[test]
fn test_html_tag_stripping() {
    let raw_html = "<div><p>Your <b>invoice</b> is ready</p></div>";
    let stripped = strip_html_tags(raw_html);
    assert!(stripped.contains("invoice"));
    assert!(!stripped.contains("<p>"));
}

#[test]
fn test_backfill_engine_tenant_guard() {
    let mut engine = BackfillEngine::new();
    let user_id: u128 = 9;
    let label_id: u128 = 10;

    let job1 = BackfillJob { user_id, keyword: "receipt".to_string(), label_id };

    assert!(engine.submit(job1.clone()));
    assert!(engine.is_active(user_id));

    let job2 = BackfillJob { user_id, keyword: "invoice".to_string(), label_id };
    assert!(!engine.submit(job2));

    let received = engine.take_job().unwrap();
    assert_eq!(received.user_id, user_id);

    engine.finish(user_id);
    assert!(!engine.is_active(user_id));
    assert!(engine.submit(job1));
}

#[test]
fn backfill_jobs_come_out_in_order_and_a_full_queue_refuses() {
    let mut engine = BackfillEngine::new();
    for u in 0..(BACKFILL_QUEUE_CAPACITY as u128) {
        assert!(engine.submit(BackfillJob { user_id: u, keyword: "k".to_string(), label_id: 1 }));
    }
    // the queue is full: the job is refused and its user stays free
    let late = BACKFILL_QUEUE_CAPACITY as u128 + 2;
    assert!(!engine.submit(BackfillJob { user_id: late, keyword: "k".to_string(), label_id: 1 }));
    assert!(!engine.is_active(late));
    let mut seen = Vec::new();
    while let Some(j) = engine.take_job() {
        seen.push(j.user_id);
    }
    assert_eq!(seen, (0..BACKFILL_QUEUE_CAPACITY as u128).collect::<Vec<_>>());
    // with room again, the same user's job is queued
    assert!(engine.submit(BackfillJob { user_id: late, keyword: "k".to_string(), label_id: 1 }));
    assert!(engine.is_active(late));
}

#[test]
fn active_tenants_lists_each_busy_user_once() {
    let mut engine = BackfillEngine::new();
    assert!(engine.active_tenants().is_empty());
    assert!(engine.submit(BackfillJob { user_id: 7, keyword: "a".to_string(), label_id: 1 }));
    assert!(!engine.submit(BackfillJob { user_id: 7, keyword: "b".to_string(), label_id: 1 }));
    assert!(engine.submit(BackfillJob { user_id: 8, keyword: "c".to_string(), label_id: 1 }));
    let mut active = engine.active_tenants();
    active.sort();
    assert_eq!(active, vec![7, 8]);
    engine.finish(7);
    assert_eq!(engine.active_tenants(), vec![8]);
}

#[test]
fn blank_keywords_are_ignored() {
    let set = CompiledFilterSet::new(&vec![("   ".to_string(), 1u128), ("".to_string(), 2u128)]).unwrap();
    assert!(set.matches("anything at all").is_empty());
    let set = CompiledFilterSet::new(&vec![(" pay ".to_string(), 3u128), ("PAY".to_string(), 3u128)]).unwrap();
    assert_eq!(set.matches("please pay now"), vec![3]);
}

#[test]
fn html_body_is_searched_without_tags() {
    let raw = b"From: a@b.c\r\nContent-Type: text/html\r\n\r\n<p>Your <b>invoice</b></p>";
    let text = extract_searchable_body(raw, MAX_FILTER_SCAN_BYTES);
    assert!(text.contains("invoice"));
    assert!(!text.contains('<'));
    assert_eq!(strip_html_tags("a<b>c"), "a c");
    assert_eq!(strip_html_tags("x > y"), "x   y");
}

#[test]
fn backfill_offsets() {
    assert_eq!(next_backfill_offset(50, 10, 0, 50), Some(40));
    assert_eq!(next_backfill_offset(50, 50, 40, 50), Some(40));
    assert_eq!(next_backfill_offset(49, 0, 40, 50), None);
}

#[test]
fn filter_form_keywords() {
    assert_eq!(filter_keywords("   "), None);
    assert_eq!(
        filter_keywords(" invoice, receipt ,, payment,"),
        Some(vec!["invoice".to_string(), "receipt".to_string(), "payment".to_string()])
    );
    assert_eq!(filter_keywords(","), Some(Vec::new()));
    assert_eq!(label_color(&None), "#3182ce");
    assert_eq!(label_color(&Some("  ".to_string())), "#3182ce");
    assert_eq!(label_color(&Some("#ff0000".to_string())), "#ff0000");
}

#[test]
fn filter_engine_caches_per_user() {
    let mut engine = FilterEngine::new();
    let raw = b"From: a@b.c\r\nSubject: s\r\n\r\nYour invoice is attached";
    assert_eq!(engine.evaluate(7, raw), None);
    engine.store(7, CompiledFilterSet::compile_or_empty(&vec![("invoice".to_string(), 70u128)]));
    engine.store(8, CompiledFilterSet::compile_or_empty(&vec![("receipt".to_string(), 80u128)]));
    assert_eq!(engine.evaluate(7, raw), Some(vec![70]));
    assert_eq!(engine.evaluate(8, raw), Some(vec![]));
    engine.store(8, CompiledFilterSet::compile_or_empty(&vec![("ATTACHED".to_string(), 81u128)]));
    assert_eq!(engine.evaluate(8, raw), Some(vec![81]));
    engine.invalidate(7);
    assert_eq!(engine.evaluate(7, raw), None);
    assert!(engine.cached(8).is_some());
    assert_eq!(engine.evaluate(8, b""), Some(vec![]));
}
