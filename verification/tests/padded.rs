use avbridge::{PaddedData, PaddedDataImpl, INPUT_BUFFER_PADDING};

#[test]
fn padded_region_appends_zeroed_padding() {
    let region = PaddedDataImpl::from_vec(vec![1, 2, 3]);
    assert_eq!(region.len(), 3 + INPUT_BUFFER_PADDING);
    let bytes = region.as_bytes();
    assert_eq!(&bytes[..3], &[1, 2, 3]);
    for i in 3..bytes.len() {
        assert_eq!(bytes[i], 0);
    }
}

#[test]
fn padded_region_of_empty_payload() {
    let region = PaddedDataImpl::from_vec(Vec::new());
    assert_eq!(region.len(), INPUT_BUFFER_PADDING);
    for &b in region.as_bytes() {
        assert_eq!(b, 0);
    }
}

#[test]
fn padded_region_from_slice_copies_payload() {
    let payload: &[u8] = &[9, 8, 7, 6];
    let region = PaddedDataImpl::from_slice(payload);
    assert_eq!(region.len(), 4 + INPUT_BUFFER_PADDING);
    let bytes = region.as_bytes();
    assert_eq!(&bytes[..4], payload);
    for i in 4..bytes.len() {
        assert_eq!(bytes[i], 0);
    }
}
