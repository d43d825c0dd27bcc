use crate::client_request::ClientRequest;
use crate::point::Point;
use crate::server_state::ServerState;
use crate::shared_memory::{
    spec_fling_direction_from_code, IpcRecord, IS_ALIVE, NOT_ALIVE, POINT_ARRAY_SIZE,
};
use vstd::bytes::*;
use vstd::prelude::*;
use vstd::slice::*;

verus! {

/// The byte at which the touch path begins in the shared region: the header
/// of the record takes the 64 bytes before it.
pub const POINT_ARRAY_OFFSET: u8 = 64;

/// The number of bytes that each point takes in the shared region: eight for
/// each coordinate.
pub const POINT_WIDTH: usize = 16;

/// The fields of the record as they lie in the shared region, each at a
/// fixed distance from the region's first byte. Every field is written with
/// its lowest byte first.
#[derive(Debug, Clone, Copy, PartialEq, Eq, Structural)]
pub enum SharedMemoryOffset {
    IsAlive,
    ServiceState,
    ClientRequest,
    Duration,
    FlingDirection,
    PointArraySize,
    Result,
    PointArrayStart,
}

impl SharedMemoryOffset {
    /// The distance of the field from the region's first byte.
    pub open spec fn spec_offset(self) -> int {
        match self {
            SharedMemoryOffset::IsAlive => 0,
            SharedMemoryOffset::ServiceState => 8,
            SharedMemoryOffset::ClientRequest => 16,
            SharedMemoryOffset::Duration => 24,
            SharedMemoryOffset::FlingDirection => 40,
            SharedMemoryOffset::PointArraySize => 48,
            SharedMemoryOffset::Result => 56,
            SharedMemoryOffset::PointArrayStart => 64,
        }
    }

    /// The number of bytes that the field takes; for the touch path, that
    /// its header takes, which is none.
    pub open spec fn spec_width(self) -> int {
        match self {
            SharedMemoryOffset::Duration => 16,
            SharedMemoryOffset::PointArrayStart => 0,
            _ => 8,
        }
    }

    /// The distance of the field from the region's first byte.
    pub fn offset(self) -> (r: usize)
        ensures
            r == self.spec_offset(),
    {
        match self {
            SharedMemoryOffset::IsAlive => 0,
            SharedMemoryOffset::ServiceState => 8,
            SharedMemoryOffset::ClientRequest => 16,
            SharedMemoryOffset::Duration => 24,
            SharedMemoryOffset::FlingDirection => 40,
            SharedMemoryOffset::PointArraySize => 48,
            SharedMemoryOffset::Result => 56,
            SharedMemoryOffset::PointArrayStart => 64,
        }
    }
}

/// The eight bytes of a signed field.
pub open spec fn spec_word(value: i64) -> Seq<u8> {
    spec_u64_to_le_bytes(value as u64)
}

/// The signed field that eight bytes hold.
pub open spec fn spec_word_value(bytes: Seq<u8>) -> i64 {
    spec_u64_from_le_bytes(bytes) as i64
}

/// The sixteen bytes of the duration.
pub open spec fn spec_wide_word(value: i128) -> Seq<u8> {
    spec_u128_to_le_bytes(value as u128)
}

/// The duration that sixteen bytes hold.
pub open spec fn spec_wide_word_value(bytes: Seq<u8>) -> i128 {
    spec_u128_from_le_bytes(bytes) as i128
}

/// The sixteen bytes of a point: its horizontal coordinate, then its
/// vertical one.
pub open spec fn spec_point_bytes(point: Point) -> Seq<u8> {
    spec_u64_to_le_bytes(point.x) + spec_u64_to_le_bytes(point.y)
}

/// The bytes of a touch path: those of its points, one after the other.
pub open spec fn spec_path_bytes(points: Seq<Point>) -> Seq<u8> {
    Seq::new(
        points.len() * 16,
        |at: int| spec_point_bytes(points[at / 16])[at % 16],
    )
}

/// The number that stands for the liveness flag.
pub open spec fn spec_alive_code(is_alive: bool) -> i64 {
    if is_alive {
        IS_ALIVE
    } else {
        NOT_ALIVE
    }
}

/// The 64 bytes of the record's header.
pub open spec fn spec_header_bytes(record: IpcRecord) -> Seq<u8> {
    spec_word(spec_alive_code(record.is_alive)) + spec_word(
        record.server_state.spec_ordinal() as i64,
    ) + spec_word(record.client_request.spec_ordinal() as i64) + spec_wide_word(
        record.duration as i128,
    ) + spec_word(record.fling_direction_code() as i64) + spec_word(record.points.len() as i64)
        + spec_word(record.result as i64)
}

/// The record as it lies in the shared region: the header, then the touch
/// path.
pub open spec fn spec_layout(record: IpcRecord) -> Seq<u8> {
    spec_header_bytes(record) + spec_path_bytes(record.points)
}

/// The signed field that lies at a distance from the region's first byte.
pub open spec fn spec_field(region: Seq<u8>, offset: int) -> i64 {
    spec_word_value(region.subrange(offset, offset + 8))
}

/// The point at a position of the touch path that lies in a region.
pub open spec fn spec_point_at(region: Seq<u8>, index: int) -> Point {
    let start = SharedMemoryOffset::PointArrayStart.spec_offset() + 16 * index;
    Point {
        x: spec_u64_from_le_bytes(region.subrange(start, start + 8)),
        y: spec_u64_from_le_bytes(region.subrange(start + 8, start + 16)),
    }
}

/// Whether a region holds a record: it has room for the header, the size
/// field counts no more points than a record has room for, and the region
/// has room for that many.
pub open spec fn spec_holds_record(region: Seq<u8>) -> bool {
    let size = spec_field(region, SharedMemoryOffset::PointArraySize.spec_offset());
    &&& region.len() >= SharedMemoryOffset::PointArrayStart.spec_offset()
    &&& 0 <= size <= POINT_ARRAY_SIZE
    &&& region.len() >= SharedMemoryOffset::PointArrayStart.spec_offset() + 16 * size
}

/// The record that a region holds. A liveness field other than zero means
/// that the worker lives; a number that stands for no state, request or
/// direction is read as the decoders of those read it.
pub open spec fn spec_read(region: Seq<u8>) -> IpcRecord {
    IpcRecord {
        is_alive: spec_field(region, SharedMemoryOffset::IsAlive.spec_offset()) != NOT_ALIVE,
        server_state: ServerState::spec_from_ordinal(
            spec_field(region, SharedMemoryOffset::ServiceState.spec_offset()) as int,
        ),
        client_request: ClientRequest::spec_from_ordinal(
            spec_field(region, SharedMemoryOffset::ClientRequest.spec_offset()) as int,
        ),
        duration: spec_wide_word_value(
            region.subrange(
                SharedMemoryOffset::Duration.spec_offset(),
                SharedMemoryOffset::Duration.spec_offset() + 16,
            ),
        ) as int,
        fling_direction: spec_fling_direction_from_code(
            spec_field(region, SharedMemoryOffset::FlingDirection.spec_offset()) as int,
        ),
        points: Seq::new(
            spec_field(region, SharedMemoryOffset::PointArraySize.spec_offset()) as nat,
            |index: int| spec_point_at(region, index),
        ),
        result: spec_field(region, SharedMemoryOffset::Result.spec_offset()) as int,
    }
}

/// The fields lie in the region one behind the other: each begins where the
/// one before it ends, the first at the region's first byte, and the touch
/// path behind the last.
pub proof fn lemma_fields_lie_back_to_back()
    ensures
        SharedMemoryOffset::IsAlive.spec_offset() == 0,
        SharedMemoryOffset::ServiceState.spec_offset() == SharedMemoryOffset::IsAlive.spec_offset()
            + SharedMemoryOffset::IsAlive.spec_width(),
        SharedMemoryOffset::ClientRequest.spec_offset()
            == SharedMemoryOffset::ServiceState.spec_offset()
            + SharedMemoryOffset::ServiceState.spec_width(),
        SharedMemoryOffset::Duration.spec_offset()
            == SharedMemoryOffset::ClientRequest.spec_offset()
            + SharedMemoryOffset::ClientRequest.spec_width(),
        SharedMemoryOffset::FlingDirection.spec_offset()
            == SharedMemoryOffset::Duration.spec_offset()
            + SharedMemoryOffset::Duration.spec_width(),
        SharedMemoryOffset::PointArraySize.spec_offset()
            == SharedMemoryOffset::FlingDirection.spec_offset()
            + SharedMemoryOffset::FlingDirection.spec_width(),
        SharedMemoryOffset::Result.spec_offset()
            == SharedMemoryOffset::PointArraySize.spec_offset()
            + SharedMemoryOffset::PointArraySize.spec_width(),
        SharedMemoryOffset::PointArrayStart.spec_offset()
            == SharedMemoryOffset::Result.spec_offset() + SharedMemoryOffset::Result.spec_width(),
        SharedMemoryOffset::PointArrayStart.spec_offset() == POINT_ARRAY_OFFSET,
{
}

/// The bytes of a touch path with one more point are those of the path,
/// then those of the point.
pub proof fn lemma_path_bytes_push(points: Seq<Point>, point: Point)
    ensures
        spec_path_bytes(points.push(point)) == spec_path_bytes(points) + spec_point_bytes(point),
        spec_path_bytes(points).len() == 16 * points.len(),
{
    lemma_auto_spec_u64_to_from_le_bytes();
    let longer = spec_path_bytes(points.push(point));
    let joined = spec_path_bytes(points) + spec_point_bytes(point);
    assert(spec_point_bytes(point).len() == 16);
    assert(longer.len() == joined.len());
    assert forall|at: int| 0 <= at < longer.len() implies longer[at] == joined[at] by {
        if at < 16 * points.len() {
            assert(at / 16 < points.len());
            assert(points.push(point)[at / 16] == points[at / 16]);
        } else {
            assert(at / 16 == points.len());
            assert(at % 16 == at - 16 * points.len());
        }
    }
    assert(longer =~= joined);
}

/// A signed field is read back from its eight bytes, and a duration from its
/// sixteen.
pub proof fn lemma_word_round_trip(value: i64, wide: i128)
    ensures
        spec_word(value).len() == 8,
        spec_word_value(spec_word(value)) == value,
        spec_wide_word(wide).len() == 16,
        spec_wide_word_value(spec_wide_word(wide)) == wide,
{
    lemma_auto_spec_u64_to_from_le_bytes();
    lemma_auto_spec_u128_to_from_le_bytes();
    assert((value as u64) as i64 == value) by (bit_vector);
    assert((wide as u128) as i128 == wide) by (bit_vector);
}

/// What is written into a shared region is read back from it: the layout of
/// a record holds a record, and that record is the one that was laid out.
/// This holds of every record that a buffer can hold: one whose touch path
/// fits, whose duration fits 128 bits and whose result fits 64.
pub proof fn lemma_read_of_layout(record: IpcRecord)
    requires
        record.points.len() <= POINT_ARRAY_SIZE,
        i128::MIN <= record.duration <= i128::MAX,
        i64::MIN <= record.result <= i64::MAX,
    ensures
        spec_layout(record).len() == 64 + 16 * record.points.len(),
        spec_holds_record(spec_layout(record)),
        spec_read(spec_layout(record)) == record,
{
    let region = spec_layout(record);
    let alive = spec_alive_code(record.is_alive);
    let state = record.server_state.spec_ordinal() as i64;
    let request = record.client_request.spec_ordinal() as i64;
    let duration = record.duration as i128;
    let fling = record.fling_direction_code() as i64;
    let size = record.points.len() as i64;
    let result = record.result as i64;
    lemma_word_round_trip(alive, duration);
    lemma_word_round_trip(state, duration);
    lemma_word_round_trip(request, duration);
    lemma_word_round_trip(fling, duration);
    lemma_word_round_trip(size, duration);
    lemma_word_round_trip(result, duration);
    assert(spec_header_bytes(record).len() == 64);
    assert(region.subrange(0, 8) =~= spec_word(alive));
    assert(region.subrange(8, 16) =~= spec_word(state));
    assert(region.subrange(16, 24) =~= spec_word(request));
    assert(region.subrange(24, 40) =~= spec_wide_word(duration));
    assert(region.subrange(40, 48) =~= spec_word(fling));
    assert(region.subrange(48, 56) =~= spec_word(size));
    assert(region.subrange(56, 64) =~= spec_word(result));
    record.server_state.lemma_from_ordinal_of_ordinal();
    record.client_request.lemma_from_ordinal_of_ordinal();
    match record.fling_direction {
        Some(direction) => direction.lemma_from_index_of_ordinal(),
        None => {},
    }
    let read = spec_read(region);
    assert(read.points.len() == record.points.len());
    assert forall|index: int| 0 <= index < record.points.len() implies read.points[index]
        == record.points[index] by {
        lemma_point_of_layout(record, index);
    }
    assert(read.points =~= record.points);
}

/// A point of a touch path is read back from its place in the layout.
proof fn lemma_point_of_layout(record: IpcRecord, index: int)
    requires
        0 <= index < record.points.len(),
    ensures
        spec_point_at(spec_layout(record), index) == record.points[index],
{
    lemma_auto_spec_u64_to_from_le_bytes();
    lemma_auto_spec_u128_to_from_le_bytes();
    let region = spec_layout(record);
    let point = record.points[index];
    let path = spec_path_bytes(record.points);
    assert(spec_header_bytes(record).len() == 64);
    let first = region.subrange(64 + 16 * index, 64 + 16 * index + 8);
    let second = region.subrange(64 + 16 * index + 8, 64 + 16 * index + 16);
    assert forall|at: int| 0 <= at < 8 implies first[at] == spec_u64_to_le_bytes(point.x)[at] by {
        assert(first[at] == path[16 * index + at]);
        assert((16 * index + at) / 16 == index);
        assert((16 * index + at) % 16 == at);
    }
    assert forall|at: int| 0 <= at < 8 implies second[at] == spec_u64_to_le_bytes(point.y)[at] by {
        assert(second[at] == path[16 * index + 8 + at]);
        assert((16 * index + 8 + at) / 16 == index);
        assert((16 * index + 8 + at) % 16 == 8 + at);
    }
    assert(first =~= spec_u64_to_le_bytes(point.x));
    assert(second =~= spec_u64_to_le_bytes(point.y));
}

/// Appends the eight bytes of a signed field.
pub(crate) fn put_word(out: &mut Vec<u8>, value: i64)
    ensures
        final(out)@ == old(out)@ + spec_word(value),
{
    let bytes = u64_to_le_bytes(#[verifier::truncate] (value as u64));
    out.extend_from_slice(bytes.as_slice());
}

/// Appends the sixteen bytes of the duration.
pub(crate) fn put_wide_word(out: &mut Vec<u8>, value: i128)
    ensures
        final(out)@ == old(out)@ + spec_wide_word(value),
{
    let bytes = u128_to_le_bytes(#[verifier::truncate] (value as u128));
    out.extend_from_slice(bytes.as_slice());
}

/// Appends the sixteen bytes of a point.
pub(crate) fn put_point(out: &mut Vec<u8>, point: Point)
    ensures
        final(out)@ == old(out)@ + spec_point_bytes(point),
{
    let x = u64_to_le_bytes(point.x);
    out.extend_from_slice(x.as_slice());
    let y = u64_to_le_bytes(point.y);
    out.extend_from_slice(y.as_slice());
    assert(out@ =~= old(out)@ + spec_point_bytes(point));
}

/// The unsigned word that lies at a distance from the region's first byte.
pub(crate) fn get_unsigned(region: &[u8], at: usize) -> (r: u64)
    requires
        at + 8 <= region@.len(),
    ensures
        r == spec_u64_from_le_bytes(region@.subrange(at as int, at + 8)),
{
    let length = region.len();
    let part = slice_subrange(region, at, at + 8);
    u64_from_le_bytes(part)
}

/// The signed field that lies at a distance from the region's first byte.
pub(crate) fn get_word(region: &[u8], at: usize) -> (r: i64)
    requires
        at + 8 <= region@.len(),
    ensures
        r == spec_field(region@, at as int),
{
    #[verifier::truncate]
    (get_unsigned(region, at) as i64)
}

/// The duration that lies at a distance from the region's first byte.
pub(crate) fn get_wide_word(region: &[u8], at: usize) -> (r: i128)
    requires
        at + 16 <= region@.len(),
    ensures
        r == spec_wide_word_value(region@.subrange(at as int, at + 16)),
{
    let length = region.len();
    let part = slice_subrange(region, at, at + 16);
    #[verifier::truncate]
    (u128_from_le_bytes(part) as i128)
}

} // verus!
