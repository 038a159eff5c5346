use bootcore::mem::{Frame, PAGE_SIZE};

#[test]
fn page_size_is_4096() {
    assert_eq!(PAGE_SIZE, 4096);
}

#[test]
fn containing_address_floors() {
    assert_eq!(Frame::containing_address(0).number, 0);
    assert_eq!(Frame::containing_address(1).number, 0);
    assert_eq!(Frame::containing_address(4095).number, 0);
    assert_eq!(Frame::containing_address(4096).number, 1);
    assert_eq!(Frame::containing_address(0x100000).number, 0x100);
    assert_eq!(Frame::containing_address(0x100FFF).number, 0x100);
    assert_eq!(Frame::containing_address(0x101000).number, 0x101);
}

#[test]
fn start_and_end_address() {
    let f = Frame { number: 3 };
    assert_eq!(f.start_address(), 3 * 4096);
    assert_eq!(f.end_address(), 4 * 4096 - 1);
}

#[test]
fn start_address_roundtrip() {
    for n in [0usize, 1, 7, 0x100, 0x1FF, 123_456] {
        let f = Frame { number: n };
        assert_eq!(Frame::containing_address(f.start_address()), f);
    }
}

#[test]
fn end_address_roundtrip() {
    for n in [0usize, 1, 7, 0x100, 0x1FF, 123_456] {
        let f = Frame { number: n };
        assert_eq!(Frame::containing_address(f.end_address()), f);
    }
}

#[test]
fn frames_are_ordered_by_number() {
    let a = Frame { number: 1 };
    let b = Frame { number: 2 };
    assert!(a < b);
    assert_eq!(a, Frame { number: 1 });
}
