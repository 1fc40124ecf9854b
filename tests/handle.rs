use tre_regex::{BindingErrorCode, ErrorKind, Regex};

/// Destroys a handle the way an owner does: frees what a release hands out,
/// counting each free.
fn destroy(h: &mut Regex<u64>, frees: &mut Vec<u64>) {
    if let Some(resource) = h.release() {
        frees.push(resource);
    }
}

#[test]
fn live_handle_is_freed_exactly_once() {
    let mut frees = Vec::new();
    let mut h = Regex::new_from(41u64);
    destroy(&mut h, &mut frees);
    destroy(&mut h, &mut frees);
    assert_eq!(frees, vec![41]);
}

#[test]
fn released_handle_frees_nothing() {
    let mut frees = Vec::new();
    let mut h = Regex::new_from(7u64);
    let taken = h.release();
    assert_eq!(taken, Some(7));
    destroy(&mut h, &mut frees);
    assert!(frees.is_empty());
    assert_eq!(h.release(), None);
}

#[test]
fn released_handle_refuses_operations() {
    let mut h = Regex::new_from(3u64);
    assert_eq!(h.compiled(), Ok(&3));
    let _ = h.release();
    let e = h.compiled().unwrap_err();
    assert_eq!(e.kind, ErrorKind::Binding(BindingErrorCode::REGEX_VACANT));
    assert_eq!(e.error, "Attempted to unwrap a vacant Regex object");
}

#[test]
fn handle_get_and_get_mut() {
    let mut h = Regex::new_from(5u64);
    assert_eq!(*h.get(), Some(5));
    *h.get_mut() = Some(9);
    assert_eq!(*h.get(), Some(9));
    *h.get_mut() = None;
    assert!(h.compiled().is_err());
}
