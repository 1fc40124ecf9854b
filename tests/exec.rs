use tre_regex::{
    match_slices, match_strs, new_slots, slots_fit, spans_to_str, BindingErrorCode, ErrorKind,
    RegMatch,
};

fn slot(rm_so: i32, rm_eo: i32) -> RegMatch {
    RegMatch { rm_so, rm_eo }
}

#[test]
fn new_slots_are_zeroed() {
    let slots = new_slots(3);
    assert_eq!(slots, vec![slot(0, 0); 3]);
    assert!(new_slots(0).is_empty());
}

#[test]
fn slots_fit_checks_bounds() {
    assert!(slots_fit(&[slot(0, 5), slot(-1, -1)], 5));
    assert!(slots_fit(&[slot(5, 5)], 5));
    assert!(!slots_fit(&[slot(0, 6)], 5));
    assert!(!slots_fit(&[slot(3, 2)], 5));
    assert!(slots_fit(&[slot(-1, 9)], 5));
    assert!(slots_fit(&[], 0));
}

#[test]
fn exact_mismatch_slot_without_group_is_absent() {
    let data = b"hello";
    let result = match_slices(data, &[slot(0, 5), slot(-1, -1)]);
    assert_eq!(result.len(), 2);
    assert_eq!(result[0], Some(&b"hello"[..]));
    assert!(result[1].is_none());
}

#[test]
fn slot_independence_of_groups() {
    let data = b"hello world";
    let result = match_slices(data, &[slot(0, 11), slot(0, 5), slot(-1, -1), slot(6, 11)]);
    assert_eq!(result[0], Some(&b"hello world"[..]));
    assert_eq!(result[1], Some(&b"hello"[..]));
    assert!(result[2].is_none());
    assert_eq!(result[3], Some(&b"world"[..]));
}

#[test]
fn empty_span_at_end() {
    let data = b"abc";
    let result = match_slices(data, &[slot(3, 3)]);
    assert_eq!(result[0], Some(&b""[..]));
}

#[test]
fn negative_start_only_is_absent() {
    let data = b"abc";
    let result = match_slices(data, &[slot(-1, 2), slot(1, -1)]);
    assert!(result[0].is_none());
    assert!(result[1].is_none());
}

#[test]
fn multibyte_spans_decode() {
    let string = "私の名前はエリザベスです";
    let result = match_strs(string, &[slot(0, 36), slot(15, 30)]);
    assert_eq!(*result[0].as_ref().unwrap().as_ref().unwrap(), "私の名前はエリザベスです");
    assert_eq!(*result[1].as_ref().unwrap().as_ref().unwrap(), "エリザベス");
}

#[test]
fn split_codepoint_fails_its_slot_only() {
    let string = "私の名前";
    let result = match_strs(string, &[slot(0, 12), slot(1, 3), slot(-1, -1)]);
    assert_eq!(*result[0].as_ref().unwrap().as_ref().unwrap(), "私の名前");
    let e = result[1].as_ref().unwrap().as_ref().unwrap_err();
    assert_eq!(e.kind, ErrorKind::Binding(BindingErrorCode::ENCODING));
    assert!(e.error.starts_with("UTF-8 encoding error: "));
    assert!(result[2].is_none());
}

#[test]
fn spans_to_str_per_slot() {
    let bytes: &[u8] = b"ok\xffok";
    let spans = vec![Some(&bytes[0..2]), None, Some(&bytes[1..3])];
    let result = spans_to_str(&spans);
    assert_eq!(*result[0].as_ref().unwrap().as_ref().unwrap(), "ok");
    assert!(result[1].is_none());
    assert!(result[2].as_ref().unwrap().is_err());
}
