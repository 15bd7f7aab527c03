use kaiascan::pagination::{normalize, PageRequest, ValidationError};

#[test]
fn defaults_when_absent() {
    assert_eq!(normalize(None, None), Ok(PageRequest { page: 1, size: 20 }));
    assert_eq!(normalize(Some(3), None), Ok(PageRequest { page: 3, size: 20 }));
    assert_eq!(normalize(None, Some(50)), Ok(PageRequest { page: 1, size: 50 }));
}

#[test]
fn valid_inputs_pass_through_unchanged() {
    assert_eq!(normalize(Some(1), Some(1)), Ok(PageRequest { page: 1, size: 1 }));
    assert_eq!(normalize(Some(7), Some(250)), Ok(PageRequest { page: 7, size: 250 }));
    assert_eq!(
        normalize(Some(1000000), Some(2000)),
        Ok(PageRequest { page: 1000000, size: 2000 })
    );
}

#[test]
fn page_zero_is_rejected() {
    assert_eq!(normalize(Some(0), Some(20)), Err(ValidationError::PageTooSmall));
    assert_eq!(normalize(Some(0), None), Err(ValidationError::PageTooSmall));
}

#[test]
fn size_out_of_range_is_rejected() {
    assert_eq!(normalize(Some(1), Some(0)), Err(ValidationError::SizeOutOfRange));
    assert_eq!(normalize(Some(1), Some(2001)), Err(ValidationError::SizeOutOfRange));
    assert_eq!(normalize(None, Some(2001)), Err(ValidationError::SizeOutOfRange));
}

#[test]
fn page_checked_before_size() {
    assert_eq!(normalize(Some(0), Some(0)), Err(ValidationError::PageTooSmall));
}
