//! Screen capture and streaming: the choices made while talking to the
//! compositor's screencopy protocol, the pixel conversion of captured frames,
//! the key-frame schedule of the encoder, and the queue of browser clients that
//! receive the stream.

use vstd::prelude::*;
use crate::text::{chars_of, eq_str};

verus! {

/// Why a frame could not be captured.
#[derive(PartialEq, Eq, Structural, Clone, Copy, Debug)]
pub enum Error {
    /// No connection to the Wayland compositor.
    Connect,
    /// Dispatching the compositor's events failed.
    Dispatch,
    /// The compositor offers no screencopy manager.
    ScreenManager,
    /// The compositor announced no output.
    Output,
    /// No buffer has been set up to copy a frame into.
    Buffer,
    /// The compositor did not report a frame as ready.
    NoFrame,
}

/// What a capture needs before it can be requested: a screencopy manager and
/// an output, checked in this order.
pub fn capture_precheck(has_screencopy_manager: bool, has_output: bool) -> (r: Result<(), Error>)
    ensures
        !has_screencopy_manager ==> r matches Err(Error::ScreenManager),
        has_screencopy_manager && !has_output ==> r matches Err(Error::Output),
        has_screencopy_manager && has_output ==> r is Ok,
{
    if !has_screencopy_manager {
        Err(Error::ScreenManager)
    } else if !has_output {
        Err(Error::Output)
    } else {
        Ok(())
    }
}

/// A compositor global that capture binds.
#[derive(PartialEq, Eq, Structural, Debug)]
pub enum CaptureGlobal {
    /// `zwlr_screencopy_manager_v1`
    ScreencopyManager,
    /// `wl_shm`
    Shm,
    /// `wl_output`
    Output,
}

/// The highest version of the screencopy manager interface that capture binds.
pub const SCREENCOPY_MAX_VERSION: u32 = 3;

/// Which global capture binds for an interface that the compositor announces,
/// and at which version: the screencopy manager at most at version 3, the
/// others at the version announced.
pub open spec fn capture_global_spec(interface: Seq<char>, version: u32) -> Option<
    (CaptureGlobal, u32),
> {
    if interface == "zwlr_screencopy_manager_v1"@ {
        Some(
            (
                CaptureGlobal::ScreencopyManager,
                if version < SCREENCOPY_MAX_VERSION {
                    version
                } else {
                    SCREENCOPY_MAX_VERSION
                },
            ),
        )
    } else if interface == "wl_shm"@ {
        Some((CaptureGlobal::Shm, version))
    } else if interface == "wl_output"@ {
        Some((CaptureGlobal::Output, version))
    } else {
        None
    }
}

/// Which global capture binds for an announced interface (see [`capture_global_spec`]).
pub fn capture_global(interface: &str, version: u32) -> (r: Option<(CaptureGlobal, u32)>)
    ensures
        r == capture_global_spec(interface@, version),
{
    let s = chars_of(interface);
    let n = s.len();
    assert(s@.subrange(0, n as int) =~= s@);
    if eq_str(&s, 0, n, "zwlr_screencopy_manager_v1") {
        Some(
            (
                CaptureGlobal::ScreencopyManager,
                if version < SCREENCOPY_MAX_VERSION {
                    version
                } else {
                    SCREENCOPY_MAX_VERSION
                },
            ),
        )
    } else if eq_str(&s, 0, n, "wl_shm") {
        Some((CaptureGlobal::Shm, version))
    } else if eq_str(&s, 0, n, "wl_output") {
        Some((CaptureGlobal::Output, version))
    } else {
        None
    }
}

/// The `wl_shm` code of the only pixel format that capture reads: 32-bit
/// pixels laid out in memory as blue, green, red, unused.
pub const FORMAT_XRGB8888: u32 = 1;

/// The `wl_shm` code of the format that capture starts out with, before the
/// compositor has described any buffer.
pub const FORMAT_ABGR1555: u32 = 0x35314241;

/// The buffer layout that the compositor last asked capture to provide.
#[derive(PartialEq, Eq, Structural, Clone, Copy, Debug)]
pub struct BufferGeometry {
    pub width: u32,
    pub height: u32,
    pub stride: u32,
    pub format: u32,
}

/// What capture must do when the compositor describes the buffer for a frame.
#[derive(PartialEq, Eq, Structural, Debug)]
pub enum BufferPlan {
    /// The layout is the one already set up: keep the buffer.
    Keep,
    /// Set up a new shared-memory pool of `pool_size` bytes and a buffer in it
    /// at offset 0 with these dimensions, as the protocol's signed integers.
    Allocate { size: u32, pool_size: i32, width: i32, height: i32, stride: i32 },
}

/// The plan for a buffer described as `described` while `current` is set up:
/// keep it if the layout is the same, else allocate `stride * height` bytes
/// (given to the protocol, like the dimensions, as a signed 32-bit integer).
pub open spec fn buffer_plan(current: BufferGeometry, described: BufferGeometry) -> BufferPlan {
    if current == described {
        BufferPlan::Keep
    } else {
        let size = (described.stride * described.height) as u32;
        BufferPlan::Allocate {
            size,
            pool_size: size as i32,
            width: described.width as i32,
            height: described.height as i32,
            stride: described.stride as i32,
        }
    }
}

/// A buffer described twice in a row is set up once: the second description
/// keeps it.
pub proof fn lemma_same_buffer_kept(current: BufferGeometry, described: BufferGeometry)
    ensures
        buffer_plan(described, described) == BufferPlan::Keep,
        buffer_plan(current, described) is Keep <==> current == described,
{
}

impl BufferGeometry {
    /// The layout before the compositor has described any buffer.
    pub fn initial() -> (r: Self)
        ensures
            r == (BufferGeometry { width: 0, height: 0, stride: 0, format: FORMAT_ABGR1555 }),
    {
        BufferGeometry { width: 0, height: 0, stride: 0, format: FORMAT_ABGR1555 }
    }

    /// Takes in the compositor's description of the buffer for the next frame.
    /// A layout other than the current one must be in the XRGB8888 format and
    /// its size in bytes, `stride * height`, must fit in 32 bits.
    pub fn on_buffer(&mut self, described: BufferGeometry) -> (r: BufferPlan)
        requires
            *old(self) != described ==> described.format == FORMAT_XRGB8888 && described.stride
                * described.height <= u32::MAX,
        ensures
            *final(self) == described,
            r == buffer_plan(*old(self), described),
    {
        if *self == described {
            return BufferPlan::Keep;
        }
        *self = described;
        let size = described.stride * described.height;
        BufferPlan::Allocate {
            size,
            pool_size: size as i32,
            width: described.width as i32,
            height: described.height as i32,
            stride: described.stride as i32,
        }
    }
}

/// The RGB bytes of a frame of XRGB8888 pixels: for each complete 4-byte pixel,
/// in order, its red, green and blue bytes (the pixel's bytes 2, 1 and 0).
pub open spec fn rgb_of_xrgb(pixels: Seq<u8>) -> Seq<u8> {
    Seq::new(((pixels.len() / 4) * 3) as nat, |i: int| pixels[4 * (i / 3) + 2 - i % 3])
}

/// Pixel by pixel: the `k`-th complete pixel gives the bytes `3k`, `3k + 1`
/// and `3k + 2` of the RGB frame, its red, green and blue.
pub proof fn lemma_rgb_pixel(pixels: Seq<u8>, k: int)
    requires
        0 <= k < pixels.len() / 4,
    ensures
        rgb_of_xrgb(pixels).len() == (pixels.len() / 4) * 3,
        rgb_of_xrgb(pixels)[3 * k] == pixels[4 * k + 2],
        rgb_of_xrgb(pixels)[3 * k + 1] == pixels[4 * k + 1],
        rgb_of_xrgb(pixels)[3 * k + 2] == pixels[4 * k],
{
    assert((3 * k) / 3 == k && (3 * k) % 3 == 0);
    assert((3 * k + 1) / 3 == k && (3 * k + 1) % 3 == 1);
    assert((3 * k + 2) / 3 == k && (3 * k + 2) % 3 == 2);
}

/// Refills `rgb` with the RGB bytes of the XRGB8888 frame `pixels`
/// (see [`rgb_of_xrgb`]).
pub fn fill_rgb(rgb: &mut Vec<u8>, pixels: &[u8])
    ensures
        final(rgb)@ == rgb_of_xrgb(pixels@),
{
    rgb.clear();
    let len = pixels.len();
    let count = len / 4;
    assert(4 * count <= len);
    let mut k: usize = 0;
    while k < count
        invariant
            count == pixels@.len() / 4,
            len == pixels@.len(),
            4 * count <= len,
            k <= count,
            rgb@.len() == 3 * k,
            forall|i: int| 0 <= i < 3 * k ==> #[trigger] rgb@[i] == pixels@[4 * (i / 3) + 2 - i % 3],
        decreases count - k,
    {
        assert(4 * k + 3 < pixels@.len());
        let base = 4 * k;
        rgb.push(pixels[base + 2]);
        rgb.push(pixels[base + 1]);
        rgb.push(pixels[base]);
        assert forall|i: int| 3 * k <= i < 3 * k + 3 implies #[trigger] rgb@[i] == pixels@[4 * (i
            / 3) + 2 - i % 3] by {
            assert(i / 3 == k);
        }
        k += 1;
    }
    assert(rgb@ =~= rgb_of_xrgb(pixels@));
}

/// How many frames in a row the encoder is made to send as key frames when a
/// client joins, so that the newcomer can start decoding.
pub const INTRA_CNT: usize = 60;

/// The key-frame schedule of the encoder: how many of the coming frames must
/// still be forced to be key frames.
pub struct IntraRefresh {
    remaining: usize,
}

/// One frame of the schedule, from `remaining` forced frames to come: a
/// refresh restarts the count at [`INTRA_CNT`]; the frame is forced while the
/// count is positive, and the count goes down by one. Gives the new count and
/// whether the frame is forced.
pub open spec fn intra_step(remaining: nat, refresh: bool) -> (nat, bool) {
    let start = if refresh {
        INTRA_CNT as nat
    } else {
        remaining
    };
    if start > 0 {
        ((start - 1) as nat, true)
    } else {
        (0, false)
    }
}

/// Which of a run of frames are forced to be key frames, from `remaining`
/// forced frames to come, where `refreshes[i]` tells whether a client joined
/// before frame `i`.
pub open spec fn intra_run(remaining: nat, refreshes: Seq<bool>) -> Seq<bool>
    decreases refreshes.len(),
{
    if refreshes.len() == 0 {
        seq![]
    } else {
        let (next, forced) = intra_step(remaining, refreshes[0]);
        seq![forced] + intra_run(next, refreshes.drop_first())
    }
}

impl View for IntraRefresh {
    type V = nat;

    closed spec fn view(&self) -> nat {
        self.remaining as nat
    }
}

impl IntraRefresh {
    #[verifier::type_invariant]
    spec fn well_formed(&self) -> bool {
        self.remaining <= INTRA_CNT
    }

    /// The schedule of a new encoder: its first [`INTRA_CNT`] frames are forced.
    pub fn new() -> (r: Self)
        ensures
            r@ == INTRA_CNT,
    {
        IntraRefresh { remaining: INTRA_CNT }
    }

    /// Advances the schedule by one frame (see [`intra_step`]); `refresh` tells
    /// whether a client has joined since the last frame. Gives whether this
    /// frame must be a key frame.
    pub fn step(&mut self, refresh: bool) -> (forced: bool)
        ensures
            (final(self)@, forced) == intra_step(old(self)@, refresh),
    {
        proof {
            use_type_invariant(&*self);
        }
        if refresh {
            self.remaining = INTRA_CNT;
        }
        if self.remaining > 0 {
            self.remaining -= 1;
            true
        } else {
            false
        }
    }
}

/// The sequence of `n` times `false`.
pub open spec fn no_refreshes(n: nat) -> Seq<bool> {
    Seq::new(n, |i: int| false)
}

/// After a client joins, exactly the frame sent then and the next
/// `INTRA_CNT - 1` frames are key frames, as long as no other client joins:
/// whatever the schedule was before.
pub proof fn lemma_refresh_forces_intra_frames(remaining: nat, n: nat)
    ensures
        intra_run(remaining, seq![true] + no_refreshes(n)).len() == n + 1,
        forall|i: int|
            0 <= i <= n ==> #[trigger] intra_run(remaining, seq![true] + no_refreshes(n))[i] == (i
                < INTRA_CNT),
{
    let run = seq![true] + no_refreshes(n);
    assert(run.drop_first() =~= no_refreshes(n));
    lemma_countdown((INTRA_CNT - 1) as nat, n);
    assert forall|i: int| 0 <= i <= n implies #[trigger] intra_run(remaining, run)[i] == (i
        < INTRA_CNT) by {
        if i > 0 {
            assert(intra_run(remaining, run)[i] == intra_run((INTRA_CNT - 1) as nat, no_refreshes(n))[i - 1]);
        }
    }
}

/// Without refreshes, a schedule with `remaining` forced frames to come forces
/// exactly the next `remaining` frames.
pub proof fn lemma_countdown(remaining: nat, n: nat)
    ensures
        intra_run(remaining, no_refreshes(n)).len() == n,
        forall|i: int| 0 <= i < n ==> #[trigger] intra_run(remaining, no_refreshes(n))[i] == (i < remaining),
    decreases n,
{
    if n > 0 {
        let rest = no_refreshes((n - 1) as nat);
        assert(no_refreshes(n).drop_first() =~= rest);
        let next = intra_step(remaining, false).0;
        lemma_countdown(next, (n - 1) as nat);
        assert forall|i: int| 0 <= i < n implies #[trigger] intra_run(remaining, no_refreshes(n))[i]
            == (i < remaining) by {
            if i > 0 {
                assert(intra_run(remaining, no_refreshes(n))[i] == intra_run(next, rest)[i - 1]);
            }
        }
    }
}

/// A new schedule forces exactly the first [`INTRA_CNT`] frames, as long as
/// no client joins.
pub proof fn lemma_new_schedule_key_frames(n: nat)
    ensures
        forall|i: int|
            0 <= i < n ==> #[trigger] intra_run(INTRA_CNT as nat, no_refreshes(n))[i] == (i
                < INTRA_CNT),
{
    lemma_countdown(INTRA_CNT as nat, n);
}

/// Whether a client joined at one of the [`INTRA_CNT`] frames up to and
/// including frame `i`.
pub open spec fn joined_recently(refreshes: Seq<bool>, i: int) -> bool {
    exists|j: int| 0 <= j <= i && i - j < INTRA_CNT && #[trigger] refreshes[j]
}

/// Whatever clients join, and whenever: a frame is a key frame exactly when
/// it is among the first `remaining` frames of the run, or a client joined at
/// it or at one of the `INTRA_CNT - 1` frames before it.
pub proof fn lemma_key_frames_after_joins(remaining: nat, refreshes: Seq<bool>)
    requires
        remaining <= INTRA_CNT,
    ensures
        intra_run(remaining, refreshes).len() == refreshes.len(),
        forall|i: int|
            0 <= i < refreshes.len() ==> #[trigger] intra_run(remaining, refreshes)[i] == (i
                < remaining || joined_recently(refreshes, i)),
    decreases refreshes.len(),
{
    if refreshes.len() > 0 {
        let rest = refreshes.drop_first();
        let (next, forced) = intra_step(remaining, refreshes[0]);
        lemma_key_frames_after_joins(next, rest);
        let run = intra_run(remaining, refreshes);
        assert forall|i: int| 0 <= i < refreshes.len() implies #[trigger] run[i] == (i < remaining
            || joined_recently(refreshes, i)) by {
            if i == 0 {
                if refreshes[0] {
                    assert(joined_recently(refreshes, 0));
                } else {
                    assert(!joined_recently(refreshes, 0));
                }
            } else {
                assert(run[i] == intra_run(next, rest)[i - 1]);
                if joined_recently(rest, i - 1) {
                    let j = choose|j: int| 0 <= j <= i - 1 && i - 1 - j < INTRA_CNT && #[trigger] rest[j];
                    assert(refreshes[j + 1]);
                    assert(joined_recently(refreshes, i));
                }
                if joined_recently(refreshes, i) {
                    let j = choose|j: int| 0 <= j <= i && i - j < INTRA_CNT && #[trigger] refreshes[j];
                    if j > 0 {
                        assert(rest[j - 1]);
                        assert(joined_recently(rest, i - 1));
                    }
                }
            }
        }
    }
}

/// What the streaming task must do when a client joins.
#[derive(PartialEq, Eq, Structural, Debug)]
pub enum NsAction {
    /// No client was being served: start capturing, encoding and sending.
    StartTask,
    /// Clients are already served: make the encoder send key frames again so
    /// that the newcomer can decode.
    RefreshEncoder,
}

/// A client joining `queue`: the new queue, and what the streaming task must do.
pub open spec fn join<T>(queue: Seq<T>, ns: T) -> (Seq<T>, NsAction) {
    (
        queue.push(ns),
        if queue.len() == 0 {
            NsAction::StartTask
        } else {
            NsAction::RefreshEncoder
        },
    )
}

/// What the streaming task is told as `clients` join `queue` one after another.
pub open spec fn join_all<T>(queue: Seq<T>, clients: Seq<T>) -> Seq<NsAction>
    decreases clients.len(),
{
    if clients.len() == 0 {
        seq![]
    } else {
        let (next, action) = join(queue, clients[0]);
        seq![action] + join_all(next, clients.drop_first())
    }
}

/// Clients joining one after another while the queue is not idle each make
/// the encoder refresh.
pub proof fn lemma_joins_while_streaming<T>(queue: Seq<T>, clients: Seq<T>)
    requires
        queue.len() > 0,
    ensures
        join_all(queue, clients).len() == clients.len(),
        forall|i: int|
            0 <= i < clients.len() ==> #[trigger] join_all(queue, clients)[i]
                == NsAction::RefreshEncoder,
    decreases clients.len(),
{
    if clients.len() > 0 {
        let next = queue.push(clients[0]);
        lemma_joins_while_streaming(next, clients.drop_first());
        assert forall|i: int| 0 <= i < clients.len() implies #[trigger] join_all(queue, clients)[i]
            == NsAction::RefreshEncoder by {
            if i > 0 {
                assert(join_all(queue, clients)[i] == join_all(next, clients.drop_first())[i - 1]);
            }
        }
    }
}

/// Clients joining an idle queue one after another: the first starts the
/// streaming task, every later one makes the encoder refresh.
pub proof fn lemma_joins_from_idle<T>(clients: Seq<T>)
    ensures
        join_all(Seq::empty(), clients).len() == clients.len(),
        forall|i: int|
            0 <= i < clients.len() ==> #[trigger] join_all(Seq::empty(), clients)[i] == (if i == 0 {
                NsAction::StartTask
            } else {
                NsAction::RefreshEncoder
            }),
{
    if clients.len() > 0 {
        let next = Seq::<T>::empty().push(clients[0]);
        lemma_joins_while_streaming(next, clients.drop_first());
        assert forall|i: int| 0 <= i < clients.len() implies #[trigger] join_all(
            Seq::<T>::empty(),
            clients,
        )[i] == (if i == 0 {
            NsAction::StartTask
        } else {
            NsAction::RefreshEncoder
        }) by {
            if i > 0 {
                assert(join_all(Seq::<T>::empty(), clients)[i] == join_all(
                    next,
                    clients.drop_first(),
                )[i - 1]);
            }
        }
    }
}

/// The queue of clients that receive the stream.
pub struct Cap<T> {
    ns_queue: Vec<T>,
}

impl<T> View for Cap<T> {
    type V = Seq<T>;

    closed spec fn view(&self) -> Seq<T> {
        self.ns_queue@
    }
}

impl<T> Cap<T> {
    /// A queue with no client.
    pub fn new() -> (r: Self)
        ensures
            r@ == Seq::<T>::empty(),
    {
        Cap { ns_queue: Vec::new() }
    }

    /// Adds a client to the queue. Streaming starts with the first client; a
    /// later one makes the encoder refresh.
    pub fn send_ns(&mut self, ns: T) -> (r: NsAction)
        ensures
            (final(self)@, r) == join(old(self)@, ns),
    {
        let was_empty = self.ns_queue.len() == 0;
        self.ns_queue.push(ns);
        if was_empty {
            NsAction::StartTask
        } else {
            NsAction::RefreshEncoder
        }
    }

    /// Whether no client is left, so that the streaming task stops.
    pub fn is_idle(&self) -> (r: bool)
        ensures
            r == (self@.len() == 0),
    {
        self.ns_queue.len() == 0
    }

    /// Takes every client out of the queue to send them a frame, the last
    /// one queued first.
    pub fn take_all(&mut self) -> (r: Vec<T>)
        ensures
            r@ == old(self)@.reverse(),
            final(self)@ == Seq::<T>::empty(),
    {
        let mut r: Vec<T> = Vec::new();
        while self.ns_queue.len() > 0
            invariant
                old(self)@ == self.ns_queue@ + r@.reverse(),
            decreases self.ns_queue@.len(),
        {
            let ghost before = self.ns_queue@;
            let ns = self.ns_queue.pop().unwrap();
            assert(before == self.ns_queue@.push(ns));
            r.push(ns);
            assert(r@.reverse() =~= seq![ns] + r@.drop_last().reverse());
        }
        assert(self.ns_queue@ + r@.reverse() =~= r@.reverse());
        r
    }

    /// The decision of the streaming task at a tick: with no client left it
    /// stops (`None`, the queue untouched); otherwise it takes every client
    /// out of the queue, the last one queued first, to send each the frame.
    pub fn start_round(&mut self) -> (r: Option<Vec<T>>)
        ensures
            old(self)@.len() == 0 ==> r is None && final(self)@ == old(self)@,
            old(self)@.len() > 0 ==> (r matches Some(clients) && clients@ == old(self)@.reverse()),
            old(self)@.len() > 0 ==> final(self)@ == Seq::<T>::empty(),
    {
        if self.is_idle() {
            None
        } else {
            Some(self.take_all())
        }
    }

    /// Puts back a client that took the last frame.
    pub fn requeue(&mut self, ns: T)
        ensures
            final(self)@ == old(self)@.push(ns),
    {
        self.ns_queue.push(ns);
    }

    /// Ends a round of sends: puts back, in order, the clients whose send
    /// succeeded; the others leave the stream.
    pub fn requeue_delivered(&mut self, outcomes: Vec<Option<T>>)
        ensures
            final(self)@ == old(self)@ + delivered(outcomes@),
    {
        let ghost all = outcomes@;
        let mut rest = outcomes;
        let ghost mut done: Seq<Option<T>> = Seq::empty();
        while rest.len() > 0
            invariant
                all == done + rest@,
                self.ns_queue@ == old(self).ns_queue@ + delivered(done),
            decreases rest@.len(),
        {
            let o = rest.remove(0);
            proof {
                assert(done.push(o).drop_last() =~= done);
                done = done.push(o);
            }
            match o {
                Some(ns) => {
                    self.ns_queue.push(ns);
                },
                None => {},
            }
            assert(self.ns_queue@ =~= old(self).ns_queue@ + delivered(done));
        }
        assert(done =~= all);
    }
}

/// The clients that took the frame, in the order their sends finished:
/// `outcomes[i]` is the client of the `i`-th finished send where it
/// succeeded, and `None` where it failed.
pub open spec fn delivered<T>(outcomes: Seq<Option<T>>) -> Seq<T>
    decreases outcomes.len(),
{
    if outcomes.len() == 0 {
        Seq::empty()
    } else {
        delivered(outcomes.drop_last()) + match outcomes.last() {
            Some(ns) => seq![ns],
            None => Seq::empty(),
        }
    }
}

/// The number of sends among `outcomes` that handed back `x`.
pub open spec fn times_delivered<T>(outcomes: Seq<Option<T>>, x: T) -> nat
    decreases outcomes.len(),
{
    if outcomes.len() == 0 {
        0
    } else {
        times_delivered(outcomes.drop_last(), x) + if outcomes.last() == Some(x) {
            1nat
        } else {
            0nat
        }
    }
}

/// After a round of sends, the queue holds exactly the clients whose send
/// succeeded: a client is back in the queue as many times as a send handed
/// it back, and no other client is.
pub proof fn lemma_round_keeps_delivered<T>(outcomes: Seq<Option<T>>, x: T)
    ensures
        delivered(outcomes).to_multiset().count(x) == times_delivered(outcomes, x),
        delivered(outcomes).contains(x) <==> exists|i: int|
            0 <= i < outcomes.len() && outcomes[i] == Some(x),
    decreases outcomes.len(),
{
    broadcast use vstd::seq_lib::group_to_multiset_ensures;

    if outcomes.len() > 0 {
        let init = outcomes.drop_last();
        lemma_round_keeps_delivered(init, x);
        let tail: Seq<T> = match outcomes.last() {
            Some(ns) => seq![ns],
            None => Seq::empty(),
        };
        vstd::seq_lib::lemma_multiset_commutative(delivered(init), tail);
        assert(delivered(outcomes) == delivered(init) + tail);
        if exists|i: int| 0 <= i < outcomes.len() && outcomes[i] == Some(x) {
            let i = choose|i: int| 0 <= i < outcomes.len() && outcomes[i] == Some(x);
            if i < init.len() {
                assert(init[i] == Some(x));
                let k = choose|k: int| 0 <= k < delivered(init).len() && delivered(init)[k] == x;
                assert(delivered(outcomes)[k] == x);
            } else {
                assert(delivered(outcomes)[delivered(init).len() as int] == x);
            }
        }
        if delivered(outcomes).contains(x) {
            let k = choose|k: int| 0 <= k < delivered(outcomes).len() && delivered(outcomes)[k] == x;
            if k < delivered(init).len() {
                assert(delivered(init)[k] == x);
                let i = choose|i: int| 0 <= i < init.len() && init[i] == Some(x);
                assert(outcomes[i] == Some(x));
            } else {
                assert(outcomes[outcomes.len() - 1] == Some(x));
            }
        }
    }
}

/// The time between two frames, in milliseconds, at `fps` frames per second.
pub fn frame_period_ms(fps: u16) -> (r: u64)
    requires
        fps > 0,
    ensures
        r == 1000int / (fps as int),
{
    (1000 / fps) as u64
}

/// What a non-blocking look at a client's socket found.
#[derive(PartialEq, Eq, Structural, Debug)]
pub enum RecvPoll {
    /// Nothing has arrived.
    Pending,
    /// A message, or a receive error, has arrived.
    Received,
    /// The client has closed the connection.
    Closed,
}

/// Whether a frame is to be sent to a client, given a look at its socket:
/// yes unless the client has closed the connection.
pub fn should_send(poll: RecvPoll) -> (r: bool)
    ensures
        r == (poll != RecvPoll::Closed),
{
    match poll {
        RecvPoll::Closed => false,
        _ => true,
    }
}

} // verus!
