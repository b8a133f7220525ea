use bytes::BytesMut;
use h1_dispatcher::buffer::{fits, growth, make_room, ReadWriteBuf, HW_BUFFER_SIZE, LW_BUFFER_SIZE};

#[test]
fn growth_fills_up_to_the_high_water_mark() {
    assert_eq!(growth(LW_BUFFER_SIZE), 0);
    assert_eq!(growth(LW_BUFFER_SIZE - 1), HW_BUFFER_SIZE - (LW_BUFFER_SIZE - 1));
    assert_eq!(growth(0), 8192);
}

#[test]
fn growing_keeps_what_is_held() {
    let mut buf = BytesMut::with_capacity(8);
    buf.extend_from_slice(b"GET /");
    let room = buf.grow();
    assert!(room >= LW_BUFFER_SIZE);
    assert!(buf.capacity() - buf.len() >= LW_BUFFER_SIZE);
    assert_eq!(&buf[..], b"GET /");
}

#[test]
fn what_was_grown_is_grown_no_more() {
    for remaining in [0, 1, LW_BUFFER_SIZE - 1, LW_BUFFER_SIZE, HW_BUFFER_SIZE] {
        if growth(remaining) > 0 {
            assert_eq!(growth(growth(remaining)), 0);
        }
    }
    let mut buf = BytesMut::with_capacity(0);
    let room = buf.grow();
    assert_eq!(buf.grow(), room);
}

#[test]
fn buffers_have_a_limit() {
    let limit = isize::MAX as usize / 4;
    assert!(fits(0, limit));
    assert!(fits(limit - 1, 1));
    assert!(!fits(limit, 1));
    assert!(!fits(usize::MAX, usize::MAX));
}

#[test]
fn room_is_made_only_where_it_is_wanted() {
    let mut buf = BytesMut::with_capacity(0);
    buf.extend_from_slice(b"GET /");
    assert_eq!(make_room(&mut buf, LW_BUFFER_SIZE), LW_BUFFER_SIZE);
    assert!(buf.capacity() < LW_BUFFER_SIZE);
    let room = make_room(&mut buf, 1000);
    assert!(room >= HW_BUFFER_SIZE - 1000);
    assert_eq!(buf.capacity() - buf.len(), room);
    assert_eq!(&buf[..], b"GET /");
}

#[test]
fn a_bare_buffer_grows_to_the_high_water_mark() {
    let mut buf = BytesMut::with_capacity(0);
    assert_eq!(buf.capacity(), 0);
    let room = buf.grow();
    assert!(room >= HW_BUFFER_SIZE);
    assert_eq!(buf.capacity(), room);
}

#[test]
fn a_buffer_with_room_is_left_as_it_is() {
    let mut buf = BytesMut::with_capacity(LW_BUFFER_SIZE);
    let capacity = buf.capacity();
    let place = buf.as_ptr();
    assert_eq!(buf.grow(), capacity);
    assert_eq!(buf.capacity(), capacity);
    assert_eq!(buf.as_ptr(), place);
}

#[test]
fn growing_again_changes_nothing() {
    for (capacity, held) in [(0, 0), (16, 10), (1100, 100), (8192, 7000), (8192, 8192)] {
        let mut buf = BytesMut::with_capacity(capacity);
        buf.extend_from_slice(&vec![b'a'; held]);
        let spare = buf.capacity() - buf.len();
        let room = buf.grow();
        assert_eq!(room, buf.capacity() - buf.len());
        if spare >= LW_BUFFER_SIZE {
            assert_eq!(room, spare);
        } else {
            assert!(room >= HW_BUFFER_SIZE - spare);
        }
        let grown = buf.capacity();
        let place = buf.as_ptr();
        assert_eq!(buf.grow(), room);
        assert_eq!(buf.capacity(), grown);
        assert_eq!(buf.len(), held);
        assert_eq!(buf.as_ptr(), place);
    }
}
