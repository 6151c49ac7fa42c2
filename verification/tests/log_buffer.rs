use jobdash::logbuf::LogBuffer;

#[test]
fn empty_buffer_has_no_lines() {
    let b = LogBuffer::new();
    assert_eq!(b.len(), 0);
    assert!(b.snapshot().is_empty());
}

#[test]
fn appends_stay_in_order_below_capacity() {
    let mut b = LogBuffer::new();
    for i in 0usize..10 {
        b.append(format!("line{}", i));
        assert_eq!(b.len(), i + 1);
    }
    let s = b.snapshot();
    assert_eq!(s.len(), 10);
    for i in 0usize..10 {
        assert_eq!(s[i], format!("line{}", i));
    }
}

#[test]
fn length_is_min_of_appends_and_capacity() {
    let mut b = LogBuffer::new();
    for i in 0usize..1005 {
        b.append(format!("line{}", i));
        let expect = if i + 1 < 1000 { i + 1 } else { 1000 };
        assert_eq!(b.len(), expect);
    }
}

#[test]
fn eviction_keeps_the_last_thousand_in_order() {
    let mut b = LogBuffer::new();
    for i in 0usize..1005 {
        b.append(format!("line{}", i));
    }
    let s = b.snapshot();
    assert_eq!(s.len(), 1000);
    assert_eq!(s[0], "line5");
    assert_eq!(s[999], "line1004");
    for k in 0usize..1000 {
        assert_eq!(s[k], format!("line{}", k + 5));
    }
}

#[test]
fn append_at_exact_capacity_evicts_one() {
    let mut b = LogBuffer::new();
    for i in 0usize..1000 {
        b.append(format!("{}", i));
    }
    assert_eq!(b.len(), 1000);
    b.append("next".to_string());
    assert_eq!(b.len(), 1000);
    let s = b.snapshot();
    assert_eq!(s[0], "1");
    assert_eq!(s[999], "next");
}
