use bytes::{Buf, BytesMut};
use vstd::prelude::*;

verus! {

/// A buffer with less spare room than this is grown before it is filled.
pub const LW_BUFFER_SIZE: usize = 1024;

/// The spare room that growing aims at: what a buffer lacks of it is reserved behind
/// the bytes held. It is also the fill level at which a response body is no longer
/// asked for more.
pub const HW_BUFFER_SIZE: usize = 8192;

/// The growable byte buffer of the `bytes` crate. Verus sees nothing inside it.
#[verifier::external_type_specification]
#[verifier::external_body]
pub struct ExBytesMut(bytes::BytesMut);

/// The bytes that a buffer holds, first to last.
pub uninterp spec fn contents(buf: BytesMut) -> Seq<u8>;

/// The number of bytes up to which a buffer is filled or grown here. Within it
/// no reallocation inside `bytes`, which at most doubles what is allocated and
/// keeps bytes already consumed in front, asks for more than `isize::MAX`.
pub open spec fn buffer_limit() -> int {
    isize::MAX as int / 4
}

/// Whether a buffer that holds `held` bytes may be given `more`.
pub fn fits(held: usize, more: usize) -> (fits: bool)
    ensures
        fits == (held + more <= buffer_limit()),
{
    let limit: usize = isize::MAX as usize / 4;
    held <= limit && more <= limit - held
}

/// `BytesMut::with_capacity`: a new buffer holds nothing, and has room for what was
/// asked for: whatever `BytesMut::capacity` gives for it, it is no less.
pub assume_specification[ bytes::BytesMut::with_capacity ](capacity: usize) -> (buf: BytesMut)
    requires
        capacity <= isize::MAX,
    ensures
        contents(buf) == Seq::<u8>::empty(),
        allocated_at_least(buf, capacity as int),
;

/// `BytesMut::len`: the number of bytes held.
pub assume_specification[ bytes::BytesMut::len ](buf: &BytesMut) -> (len: usize)
    ensures
        len == contents(*buf).len(),
;

/// `BytesMut::capacity`: the room that is allocated, of which the bytes held are
/// a part. How much more there is rests with the allocator.
pub assume_specification[ bytes::BytesMut::capacity ](buf: &BytesMut) -> (capacity: usize)
    ensures
        capacity >= contents(*buf).len(),
;

/// Whatever `BytesMut::capacity` gives for the buffer, it is no less than `least`.
pub open spec fn allocated_at_least(buf: BytesMut, least: int) -> bool {
    forall|capacity: usize| #[trigger]
        call_ensures(bytes::BytesMut::capacity, (&buf,), capacity) ==> capacity >= least
}

/// `BytesMut::capacity` can give for the buffer what leaves `room` bytes free behind
/// the bytes held.
pub open spec fn has_room(buf: BytesMut, room: usize) -> bool {
    exists|capacity: usize| #[trigger]
        call_ensures(bytes::BytesMut::capacity, (&buf,), capacity) && room == capacity - contents(
            buf,
        ).len()
}

/// `BytesMut::capacity`, which reads a field of the buffer: whenever it is asked again of
/// the buffer as it is, it gives the same.
#[verifier::external_body]
pub(crate) fn steady_capacity(buf: &BytesMut) -> (capacity: usize)
    ensures
        call_ensures(bytes::BytesMut::capacity, (buf,), capacity),
        forall|again: usize| #[trigger]
            call_ensures(bytes::BytesMut::capacity, (buf,), again) ==> again == capacity,
{
    buf.capacity()
}

/// `BytesMut::extend_from_slice`: the slice is appended to the bytes held.
pub assume_specification[ bytes::BytesMut::extend_from_slice ](buf: &mut BytesMut, extend: &[u8])
    requires
        contents(*old(buf)).len() + extend@.len() <= buffer_limit(),
    ensures
        contents(*final(buf)) == contents(*old(buf)) + extend@,
;

/// `BytesMut::clear`: nothing is held any more.
pub assume_specification[ bytes::BytesMut::clear ](buf: &mut BytesMut)
    ensures
        contents(*final(buf)) == Seq::<u8>::empty(),
;

/// `BytesMut::reserve`: the bytes held stay, and there is room for at least
/// `additional` more behind them.
pub assume_specification[ bytes::BytesMut::reserve ](buf: &mut BytesMut, additional: usize)
    requires
        contents(*old(buf)).len() + additional <= buffer_limit(),
    ensures
        contents(*final(buf)) == contents(*old(buf)),
        allocated_at_least(*final(buf), contents(*old(buf)).len() + additional),
;

/// `Buf::advance` of a `BytesMut`: the first `count` bytes are dropped.
#[verifier::external_body]
pub(crate) fn advance(buf: &mut BytesMut, count: usize)
    requires
        count <= contents(*old(buf)).len(),
    ensures
        contents(*final(buf)) == contents(*old(buf)).skip(count as int),
{
    buf.advance(count);
}

/// `BytesMut::as_ref`: the bytes held, as a slice.
#[verifier::external_body]
pub(crate) fn as_slice(buf: &BytesMut) -> (slice: &[u8])
    ensures
        slice@ == contents(*buf),
{
    buf.as_ref()
}

/// A buffer that is made ready to be filled.
pub trait ReadWriteBuf: Sized {
    /// The bytes held.
    spec fn held(self) -> Seq<u8>;

    /// `room` bytes are free behind the bytes held.
    spec fn roomy(self, room: usize) -> bool;

    /// Makes room behind the bytes held, which stay as they are, and returns how
    /// much there is. A buffer with `LW_BUFFER_SIZE` bytes free is left as it is. Any
    /// other has at least as many free then as it lacked of `HW_BUFFER_SIZE`. `spare` is
    /// how many were free before, which is one number.
    fn grow(&mut self) -> (room: usize)
        requires
            old(self).held().len() + HW_BUFFER_SIZE <= buffer_limit(),
        ensures
            final(self).held() == old(self).held(),
            final(self).roomy(room),
            exists|spare: usize| #[trigger]
                old(self).roomy(spare) && (forall|again: usize| #[trigger]
                    old(self).roomy(again) ==> again == spare) && gained(
                    spare,
                    room,
                    *final(self) == *old(self),
                ),
    ;
}

/// What growing a buffer with `spare` bytes free comes to: `room` bytes free, in a buffer
/// that is `untouched` where it had `LW_BUFFER_SIZE` already.
pub open spec fn gained(spare: usize, room: usize, untouched: bool) -> bool {
    &&& room >= LW_BUFFER_SIZE
    &&& room >= spare_wanted(spare as int)
    &&& spare_wanted(spare as int) == 0 ==> untouched && room == spare
}

/// At least `LW_BUFFER_SIZE` bytes are free behind the bytes held.
pub open spec fn ready_to_fill<B: ReadWriteBuf>(buf: B) -> bool {
    exists|room: usize| #[trigger] buf.roomy(room) && room >= LW_BUFFER_SIZE
}

/// `ReadWriteBuf::grow` can make of the buffer `before` the buffer `after`, and return
/// `room`.
pub open spec fn grows<B: ReadWriteBuf>(before: B, after: B, room: usize) -> bool {
    &&& after.held() == before.held()
    &&& after.roomy(room)
    &&& exists|spare: usize| #[trigger]
        before.roomy(spare) && (forall|again: usize| #[trigger]
            before.roomy(again) ==> again == spare) && gained(spare, room, after == before)
}

/// How many bytes to reserve where `remaining` are free: none while that is at least
/// `LW_BUFFER_SIZE`, else as many as `HW_BUFFER_SIZE` lacks.
pub open spec fn spare_wanted(remaining: int) -> int {
    if remaining < LW_BUFFER_SIZE {
        HW_BUFFER_SIZE - remaining
    } else {
        0
    }
}

/// Computes how many bytes to reserve where `remaining` are free.
pub fn growth(remaining: usize) -> (additional: usize)
    ensures
        additional == spare_wanted(remaining as int),
{
    if remaining < LW_BUFFER_SIZE {
        HW_BUFFER_SIZE - remaining
    } else {
        0
    }
}

/// A buffer that got what it wanted, and be it no more than that, wants nothing more.
pub proof fn law_growth_suffices(remaining: nat)
    ensures
        spare_wanted(remaining as int) > 0 ==> spare_wanted(spare_wanted(remaining as int)) == 0,
{
}

/// A buffer wants more exactly while less than 1024 bytes are free, and then what these
/// lack of 8192.
pub proof fn law_wanted_below_the_low_mark(remaining: usize, additional: usize)
    requires
        call_ensures(growth, (remaining,), additional),
    ensures
        additional > 0 <==> remaining < 1024,
        additional > 0 ==> remaining + additional == 8192,
{
}

/// Bytes fit as long as they are, with those held, no more than a fourth of what can be
/// allocated at all.
pub proof fn law_fits_within_the_limit(held: usize, more: usize, fit: bool)
    requires
        call_ensures(fits, (held, more), fit),
    ensures
        fit <==> held + more <= isize::MAX / 4,
{
}

/// Reserves what a buffer with `remaining` bytes free wants, and returns how many are
/// free then: as many as before where it wants none, and it is left as it is, else at
/// least what it wants.
pub fn make_room(buf: &mut BytesMut, remaining: usize) -> (room: usize)
    requires
        contents(*old(buf)).len() + HW_BUFFER_SIZE <= buffer_limit(),
    ensures
        contents(*final(buf)) == contents(*old(buf)),
        spare_wanted(remaining as int) == 0 ==> room == remaining && *final(buf) == *old(buf),
        spare_wanted(remaining as int) > 0 ==> has_room(*final(buf), room),
        room >= spare_wanted(remaining as int),
        room >= LW_BUFFER_SIZE,
{
    let len: usize = buf.len();
    let additional: usize = growth(remaining);
    if additional > 0 {
        buf.reserve(additional);
        let capacity: usize = buf.capacity();
        assert(call_ensures(bytes::BytesMut::capacity, (&*buf,), capacity));
        capacity - len
    } else {
        remaining
    }
}

impl ReadWriteBuf for BytesMut {
    open spec fn held(self) -> Seq<u8> {
        contents(self)
    }

    closed spec fn roomy(self, room: usize) -> bool {
        has_room(self, room)
    }

    fn grow(&mut self) -> (room: usize) {
        let remaining: usize = steady_capacity(self) - self.len();
        assert(self.roomy(remaining));
        make_room(self, remaining)
    }
}

/// A `BytesMut` has what `BytesMut::capacity` leaves behind the bytes held for room.
pub proof fn law_room_is_spare_capacity(buf: BytesMut, room: usize)
    ensures
        buf.roomy(room) <==> has_room(buf, room),
{
}

/// An empty buffer that `HW_BUFFER_SIZE` bytes are allocated for is left as it is by growing
/// it. All of them are room.
pub proof fn law_new_buffer_grows_by_nothing(start: BytesMut, grown: BytesMut, room: usize)
    requires
        contents(start).len() == 0,
        allocated_at_least(start, HW_BUFFER_SIZE as int),
        grows(start, grown, room),
    ensures
        grown == start,
        room >= HW_BUFFER_SIZE,
{
}

/// An empty buffer with no room at all has `HW_BUFFER_SIZE` bytes of it once it has grown.
pub proof fn law_bare_buffer_grows_in_full(start: BytesMut, grown: BytesMut, room: usize)
    requires
        has_room(start, 0),
        grows(start, grown, room),
    ensures
        room >= HW_BUFFER_SIZE,
        has_room(grown, room),
{
    assert(start.roomy(0));
}

/// Growing keeps the bytes held. It leaves a buffer with at least 1024 bytes free as it is,
/// and one with fewer with at least what these lack of 8192. What it returns is what is free
/// then.
pub proof fn law_growing_makes_what_is_lacking(
    start: BytesMut,
    spare: usize,
    grown: BytesMut,
    room: usize,
)
    requires
        has_room(start, spare),
        grows(start, grown, room),
    ensures
        contents(grown) == contents(start),
        has_room(grown, room),
        spare >= 1024 ==> grown == start && room == spare,
        spare < 1024 ==> room + spare >= 8192,
{
    assert(start.roomy(spare));
}

/// A buffer that is ready to be filled has a capacity of at least 1024 bytes more than it
/// holds.
pub proof fn law_ready_has_capacity(buf: BytesMut)
    requires
        ready_to_fill(buf),
    ensures
        exists|capacity: usize| #[trigger]
            call_ensures(bytes::BytesMut::capacity, (&buf,), capacity) && capacity >= contents(
                buf,
            ).len() + 1024,
{
    let room = choose|room: usize| #[trigger] buf.roomy(room) && room >= LW_BUFFER_SIZE;
    assert(has_room(buf, room));
}

/// A buffer that has been grown is left as it is by growing it again: the same bytes
/// are held, and as much is free.
pub proof fn law_growing_again_changes_nothing<B: ReadWriteBuf>(
    start: B,
    once: B,
    room: usize,
    twice: B,
    again: usize,
)
    requires
        grows(start, once, room),
        grows(once, twice, again),
    ensures
        twice == once,
        again == room,
{
}

} // verus!
