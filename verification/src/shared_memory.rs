use crate::client_request::ClientRequest;
use crate::direction::Direction;
use crate::memory_layout::{
    get_unsigned, get_wide_word, get_word, lemma_path_bytes_push, put_point, put_wide_word,
    put_word, spec_header_bytes, spec_holds_record, spec_layout, spec_path_bytes, spec_point_at,
    spec_read, SharedMemoryOffset, POINT_WIDTH,
};
use crate::point::Point;
use crate::server_state::ServerState;
use vstd::bytes::*;
use vstd::prelude::*;

verus! {

/// The value of the liveness field while the worker lives.
pub const IS_ALIVE: i64 = 1;

/// The value of the liveness field once the worker has halted.
pub const NOT_ALIVE: i64 = 0;

/// The value of the fling direction field where no direction is known.
pub const NO_FLING_DIRECTION: i64 = -1;

/// The number of points that the shared record has room for: a region of
/// 1024 words, less the eight of the header, at two words for each point.
pub const POINT_ARRAY_SIZE: usize = (1024 - 8) / 2;

/// What the shared record holds, as both parties read it.
pub struct IpcRecord {
    /// Whether the worker lives. False only once a halt has been processed.
    pub is_alive: bool,
    /// Where the worker stands.
    pub server_state: ServerState,
    /// The requester's last request.
    pub client_request: ClientRequest,
    /// How long the gesture lasted.
    pub duration: int,
    /// The direction that the end of the touch path implies, if any.
    pub fling_direction: Option<Direction>,
    /// The touch path.
    pub points: Seq<Point>,
    /// The packed result of the last detection.
    pub result: int,
}

impl IpcRecord {
    /// The record as it is when it is created: the worker lives and waits
    /// for a command, nothing is requested, and there is no touch path.
    pub open spec fn initial() -> IpcRecord {
        IpcRecord {
            is_alive: true,
            server_state: ServerState::WaitingForCommand,
            client_request: ClientRequest::Uninitialized,
            duration: 0,
            fling_direction: None,
            points: Seq::empty(),
            result: 0,
        }
    }

    /// The number that stands for the fling direction in the record: the
    /// direction's ordinal, or -1 where there is none.
    pub open spec fn fling_direction_code(self) -> int {
        match self.fling_direction {
            Some(direction) => direction.spec_ordinal(),
            None => -1,
        }
    }
}

/// The fling direction that a number in the record stands for: none for -1,
/// else the direction at that position, and east for any other number.
pub open spec fn spec_fling_direction_from_code(code: int) -> Option<Direction> {
    if code == -1 {
        None
    } else {
        Some(Direction::spec_from_index(code))
    }
}

/// The fling direction that a number in the record stands for.
pub fn fling_direction_from_code(code: i64) -> (r: Option<Direction>)
    ensures
        r == spec_fling_direction_from_code(code as int),
{
    if code == NO_FLING_DIRECTION {
        None
    } else if 0 <= code && code < 8 {
        Some(Direction::from_index(code as usize))
    } else {
        Some(Direction::East)
    }
}

/// The record through which the requester and the worker talk. It never
/// holds more points than it has room for.
#[derive(Debug, PartialEq, Eq)]
pub struct GestureDetectionIPCBuffer {
    is_alive: bool,
    server_state: ServerState,
    client_request: ClientRequest,
    duration: i128,
    fling_direction: Option<Direction>,
    points: Vec<Point>,
    result: i64,
}

impl View for GestureDetectionIPCBuffer {
    type V = IpcRecord;

    closed spec fn view(&self) -> IpcRecord {
        IpcRecord {
            is_alive: self.is_alive,
            server_state: self.server_state,
            client_request: self.client_request,
            duration: self.duration as int,
            fling_direction: self.fling_direction,
            points: self.points@,
            result: self.result as int,
        }
    }
}

impl Clone for GestureDetectionIPCBuffer {
    fn clone(&self) -> (r: Self)
        ensures
            r@ == self@,
    {
        proof {
            use_type_invariant(self);
        }
        let points = self.points.clone();
        assert(points@ =~= self.points@);
        GestureDetectionIPCBuffer {
            is_alive: self.is_alive,
            server_state: self.server_state,
            client_request: self.client_request,
            duration: self.duration,
            fling_direction: self.fling_direction,
            points,
            result: self.result,
        }
    }
}

impl GestureDetectionIPCBuffer {
    /// The touch path never exceeds the room that the record has.
    #[verifier::type_invariant]
    pub closed spec fn within_capacity(self) -> bool {
        self.points@.len() <= POINT_ARRAY_SIZE
    }

    pub fn new() -> (r: Self)
        ensures
            r@ == IpcRecord::initial(),
    {
        GestureDetectionIPCBuffer {
            is_alive: true,
            server_state: ServerState::WaitingForCommand,
            client_request: ClientRequest::Uninitialized,
            duration: 0,
            fling_direction: None,
            points: Vec::new(),
            result: 0,
        }
    }

    /// Reads the record out of a shared region. None where the region does
    /// not hold one: where it is shorter than the header, where its size
    /// field counts more points than a record has room for or fewer than
    /// none, or where the region ends before the last of them.
    pub fn from_raw(region: &[u8]) -> (r: Option<Self>)
        ensures
            r is Some <==> spec_holds_record(region@),
            r matches Some(buffer) ==> buffer@ == spec_read(region@),
    {
        let length = region.len();
        let start = SharedMemoryOffset::PointArrayStart.offset();
        if length < start {
            return None;
        }
        let size = get_word(region, SharedMemoryOffset::PointArraySize.offset());
        if size < 0 || size > POINT_ARRAY_SIZE as i64 {
            return None;
        }
        let count = size as usize;
        if (length - start) / POINT_WIDTH < count {
            return None;
        }
        let mut points: Vec<Point> = Vec::new();
        let mut index: usize = 0;
        while index < count
            invariant
                index <= count <= POINT_ARRAY_SIZE,
                length == region@.len(),
                start == 64,
                start + 16 * count <= length,
                points@.len() == index,
                forall|earlier: int|
                    0 <= earlier < index ==> points@[earlier] == spec_point_at(region@, earlier),
            decreases count - index,
        {
            let x = get_unsigned(region, start + POINT_WIDTH * index);
            let y = get_unsigned(region, start + POINT_WIDTH * index + 8);
            points.push(Point { x, y });
            index += 1;
        }
        let buffer = GestureDetectionIPCBuffer {
            is_alive: get_word(region, SharedMemoryOffset::IsAlive.offset()) != NOT_ALIVE,
            server_state: ServerState::from_java_ordinal(
                get_word(region, SharedMemoryOffset::ServiceState.offset()),
            ),
            client_request: ClientRequest::from_java_ordinal(
                get_word(region, SharedMemoryOffset::ClientRequest.offset()),
            ),
            duration: get_wide_word(region, SharedMemoryOffset::Duration.offset()),
            fling_direction: fling_direction_from_code(
                get_word(region, SharedMemoryOffset::FlingDirection.offset()),
            ),
            points,
            result: get_word(region, SharedMemoryOffset::Result.offset()),
        };
        assert(buffer@.points =~= spec_read(region@).points);
        Some(buffer)
    }

    /// The record as it lies in a shared region.
    pub fn to_bytes(&self) -> (r: Vec<u8>)
        ensures
            r@ == spec_layout(self@),
            r@.len() == 64 + 16 * self@.points.len(),
    {
        proof {
            use_type_invariant(self);
            lemma_auto_spec_u64_to_from_le_bytes();
            lemma_auto_spec_u128_to_from_le_bytes();
        }
        let mut out: Vec<u8> = Vec::with_capacity(64 + 16 * self.points.len());
        put_word(
            &mut out,
            if self.is_alive {
                IS_ALIVE
            } else {
                NOT_ALIVE
            },
        );
        put_word(&mut out, self.server_state.java_ordinal());
        put_word(&mut out, self.client_request.java_ordinal());
        put_wide_word(&mut out, self.duration);
        put_word(&mut out, self.fling_direction());
        put_word(&mut out, self.points.len() as i64);
        put_word(&mut out, self.result);
        assert(out@ =~= spec_header_bytes(self@));
        let mut index: usize = 0;
        while index < self.points.len()
            invariant
                index <= self.points@.len() <= POINT_ARRAY_SIZE,
                out@.len() == 64 + 16 * index,
                out@ == spec_header_bytes(self@) + spec_path_bytes(self.points@.take(index as int)),
            decreases self.points@.len() - index,
        {
            put_point(&mut out, self.points[index]);
            proof {
                lemma_path_bytes_push(self.points@.take(index as int), self.points@[index as int]);
                assert(self.points@.take(index as int).push(self.points@[index as int])
                    =~= self.points@.take(index + 1));
                lemma_auto_spec_u64_to_from_le_bytes();
            }
            index += 1;
        }
        assert(self.points@.take(index as int) =~= self.points@);
        out
    }

    pub fn is_alive(&self) -> (r: bool)
        ensures
            r == self@.is_alive,
    {
        self.is_alive
    }

    pub fn server_state(&self) -> (r: ServerState)
        ensures
            r == self@.server_state,
    {
        self.server_state
    }

    pub fn client_request(&self) -> (r: ClientRequest)
        ensures
            r == self@.client_request,
    {
        self.client_request
    }

    pub fn duration(&self) -> (r: i128)
        ensures
            r == self@.duration,
    {
        self.duration
    }

    /// The number that stands for the fling direction: its ordinal, or -1.
    pub fn fling_direction(&self) -> (r: i64)
        ensures
            r == self@.fling_direction_code(),
            -1 <= r <= 7,
    {
        match self.fling_direction {
            Some(direction) => direction.java_ordinal() as i64,
            None => NO_FLING_DIRECTION,
        }
    }

    /// The number of points of the touch path.
    pub fn point_array_size(&self) -> (r: i64)
        ensures
            r == self@.points.len(),
            0 <= r <= POINT_ARRAY_SIZE,
    {
        proof {
            use_type_invariant(self);
        }
        self.points.len() as i64
    }

    /// The touch path.
    pub fn points(&self) -> (r: &Vec<Point>)
        ensures
            r@ == self@.points,
    {
        &self.points
    }

    pub fn result(&self) -> (r: i64)
        ensures
            r == self@.result,
    {
        self.result
    }
}

/// The holder of the shared record. Whoever has it exclusively may act on
/// the record as the requester or as the worker.
#[derive(Debug, PartialEq, Eq)]
pub struct GestureDetectionIPC {
    memory: GestureDetectionIPCBuffer,
}

impl View for GestureDetectionIPC {
    type V = IpcRecord;

    closed spec fn view(&self) -> IpcRecord {
        self.memory@
    }
}

impl Clone for GestureDetectionIPC {
    fn clone(&self) -> (r: Self)
        ensures
            r@ == self@,
    {
        GestureDetectionIPC { memory: self.memory.clone() }
    }
}

impl GestureDetectionIPC {
    pub fn new(memory: GestureDetectionIPCBuffer) -> (r: Self)
        ensures
            r@ == memory@,
    {
        GestureDetectionIPC { memory }
    }

    /// The record that is held.
    pub closed spec fn spec_memory(&self) -> GestureDetectionIPCBuffer {
        self.memory
    }

    /// The record that is held.
    pub fn memory(&self) -> (r: &GestureDetectionIPCBuffer)
        ensures
            *r == self.spec_memory(),
            r@ == self@,
    {
        &self.memory
    }

    /// Runs a procedure on the record that is held, and hands its result
    /// on.
    pub fn with_buffer<F: FnOnce(&GestureDetectionIPCBuffer) -> i64>(&self, function: F) -> (r:
        i64)
        requires
            function.requires((&self.spec_memory(),)),
        ensures
            function.ensures((&self.spec_memory(),), r),
    {
        function(&self.memory)
    }

    pub(crate) fn set_alive(&mut self, is_alive: bool)
        ensures
            final(self)@ == (IpcRecord { is_alive, ..old(self)@ }),
    {
        proof {
            use_type_invariant(&self.memory);
        }
        self.memory.is_alive = is_alive;
    }

    pub(crate) fn set_server_state(&mut self, server_state: ServerState)
        ensures
            final(self)@ == (IpcRecord { server_state, ..old(self)@ }),
    {
        proof {
            use_type_invariant(&self.memory);
        }
        self.memory.server_state = server_state;
    }

    pub(crate) fn set_client_request(&mut self, client_request: ClientRequest)
        ensures
            final(self)@ == (IpcRecord { client_request, ..old(self)@ }),
    {
        proof {
            use_type_invariant(&self.memory);
        }
        self.memory.client_request = client_request;
    }

    pub(crate) fn set_duration(&mut self, duration: i128)
        ensures
            final(self)@ == (IpcRecord { duration: duration as int, ..old(self)@ }),
    {
        proof {
            use_type_invariant(&self.memory);
        }
        self.memory.duration = duration;
    }

    pub(crate) fn set_fling_direction(&mut self, fling_direction: Option<Direction>)
        ensures
            final(self)@ == (IpcRecord { fling_direction, ..old(self)@ }),
    {
        proof {
            use_type_invariant(&self.memory);
        }
        self.memory.fling_direction = fling_direction;
    }

    pub(crate) fn set_points(&mut self, points: Vec<Point>)
        requires
            points@.len() <= POINT_ARRAY_SIZE,
        ensures
            final(self)@ == (IpcRecord { points: points@, ..old(self)@ }),
    {
        proof {
            use_type_invariant(&self.memory);
        }
        self.memory.points = points;
    }

    pub(crate) fn set_result(&mut self, result: i64)
        ensures
            final(self)@ == (IpcRecord { result: result as int, ..old(self)@ }),
    {
        proof {
            use_type_invariant(&self.memory);
        }
        self.memory.result = result;
    }

    /// Two to the power of `exponent`.
    pub fn int_pow2(exponent: u32) -> (r: u32)
        requires
            exponent < 32,
        ensures
            r == vstd::arithmetic::power2::pow2(exponent as nat),
    {
        crate::packed_result::int_pow2(exponent)
    }
}

} // verus!
