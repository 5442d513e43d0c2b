use filedrop::ledger::Ledger;

#[test]
fn record_upload_creates_one_row() {
    let mut l = Ledger::new();
    l.record_upload(&"calmotter".to_string(), &"validkey".to_string(), 100);
    assert_eq!(l.record_count(), 1);
    let rec = l.get_record(&"calmotter".to_string()).unwrap();
    assert_eq!(rec.identifier, "calmotter");
    assert_eq!(rec.api_key_used, "validkey");
    assert_eq!(rec.created_on, 100);
    assert_eq!(rec.last_accessed, 100);
    assert_eq!(rec.times_accessed, 0);
}

#[test]
fn record_upload_colliding_identifier_is_noop() {
    let mut l = Ledger::new();
    l.record_upload(&"calmotter".to_string(), &"validkey".to_string(), 100);
    l.record_upload(&"calmotter".to_string(), &"otherkey".to_string(), 200);
    assert_eq!(l.record_count(), 1);
    let rec = l.get_record(&"calmotter".to_string()).unwrap();
    assert_eq!(rec.api_key_used, "validkey");
    assert_eq!(rec.created_on, 100);
}

#[test]
fn record_access_bumps_counter_by_one_each_time() {
    let mut l = Ledger::new();
    l.record_upload(&"calmotter".to_string(), &"validkey".to_string(), 100);
    l.record_access(&"calmotter".to_string(), 150);
    {
        let rec = l.get_record(&"calmotter".to_string()).unwrap();
        assert_eq!(rec.times_accessed, 1);
        assert_eq!(rec.last_accessed, 150);
        assert_eq!(rec.created_on, 100);
    }
    l.record_access(&"calmotter".to_string(), 175);
    let rec = l.get_record(&"calmotter".to_string()).unwrap();
    assert_eq!(rec.times_accessed, 2);
    assert_eq!(rec.last_accessed, 175);
    assert_eq!(rec.identifier, "calmotter");
    assert_eq!(rec.api_key_used, "validkey");
}

#[test]
fn record_access_without_row_is_noop() {
    let mut l = Ledger::new();
    l.record_access(&"ghost".to_string(), 150);
    assert_eq!(l.record_count(), 0);
}

#[test]
fn record_access_touches_only_its_row() {
    let mut l = Ledger::new();
    l.record_upload(&"calmotter".to_string(), &"validkey".to_string(), 100);
    l.record_upload(&"boldraven".to_string(), &"validkey".to_string(), 110);
    l.record_access(&"boldraven".to_string(), 150);
    let untouched = l.get_record(&"calmotter".to_string()).unwrap();
    assert_eq!(untouched.times_accessed, 0);
    assert_eq!(untouched.last_accessed, 100);
    let touched = l.get_record(&"boldraven".to_string()).unwrap();
    assert_eq!(touched.times_accessed, 1);
    assert_eq!(touched.last_accessed, 150);
}
