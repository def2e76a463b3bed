use vstd::prelude::*;
use vstd::slice::slice_subrange;

use crate::parser::wrapers::ParsedPacket;
use crate::parser::{parse_ethernet_frame, spec_decode};

verus! {

/// Errors of the capture listener.
#[derive(Clone, Copy, Debug, PartialEq, Eq, Structural)]
pub enum ListenerError {
    /// The platform returned a capture channel that is not a supported
    /// link-layer type.
    UnhandledChannelType,
    /// The channel could not be created (permissions, device busy, ...).
    ChannelCreationError,
    /// The receiving side of the handoff queue was never set up.
    ReceiverIsNotSet,
}

/// One observation of the capture producer's loop: a frame arrived, a read
/// failed transiently, or the handoff queue's receiving side is gone.
pub enum CaptureEvent {
    Frame(Vec<u8>),
    ReadError,
    QueueClosed,
}

/// What the capture producer does next: forward a frame into the handoff
/// queue, skip this round, or leave the loop.
pub enum CaptureAction {
    Forward(Vec<u8>),
    Skip,
    Stop,
}

/// The capture producer's decision for one loop iteration: forward every
/// captured frame unmodified, in arrival order; swallow a transient read
/// error (frame loss, not process loss); terminate once the queue's
/// receiving side is closed.
pub fn capture_step(event: CaptureEvent) -> (action: CaptureAction)
    ensures
        match event {
            CaptureEvent::Frame(f) => action matches CaptureAction::Forward(g) && g@ == f@,
            CaptureEvent::ReadError => action is Skip,
            CaptureEvent::QueueClosed => action is Stop,
        },
{
    match event {
        CaptureEvent::Frame(f) => CaptureAction::Forward(f),
        CaptureEvent::ReadError => CaptureAction::Skip,
        CaptureEvent::QueueClosed => CaptureAction::Stop,
    }
}

/// The position of the first name in `names` equal to `wanted`, if any: how
/// a capture source is selected from the platform's interface list.
pub fn find_interface(names: &Vec<String>, wanted: &String) -> (r: Option<usize>)
    ensures
        match r {
            Some(i) => i < names@.len() && names@[i as int]@ == wanted@ && forall|j: int|
                0 <= j < i ==> names@[j]@ != wanted@,
            None => forall|j: int| 0 <= j < names@.len() ==> names@[j]@ != wanted@,
        },
{
    let mut idx: usize = 0;
    while idx < names.len()
        invariant
            idx <= names@.len(),
            forall|j: int| 0 <= j < idx ==> names@[j]@ != wanted@,
        decreases names@.len() - idx,
    {
        if names[idx].eq(wanted) {
            return Some(idx);
        }
        idx += 1;
    }
    None
}

/// An append-only, monotonically-indexed in-memory log of decoded records.
/// Written by the single consumer thread; records never change once
/// appended and the store only grows.
pub struct PacketStore {
    packets: Vec<ParsedPacket>,
}

impl View for PacketStore {
    type V = Seq<ParsedPacket>;

    closed spec fn view(&self) -> Seq<ParsedPacket> {
        self.packets@
    }
}

impl PacketStore {
    /// Well-formed: every record's id equals its append position, so ids are
    /// strictly increasing from 0 with no gaps, in receipt order.
    pub open spec fn wf(&self) -> bool {
        forall|i: int| 0 <= i < self@.len() ==> (#[trigger] self@[i])@.id == i
    }

    /// An empty store.
    pub fn new() -> (r: Self)
        ensures
            r@ == Seq::<ParsedPacket>::empty(),
            r.wf(),
    {
        PacketStore { packets: Vec::new() }
    }

    /// How many records the store holds.
    pub fn len(&self) -> (n: usize)
        ensures
            n == self@.len(),
    {
        self.packets.len()
    }

    /// Append one record whose id the caller assigned as the current length.
    /// Existing records are untouched: the store only grows.
    pub fn append(&mut self, packet: ParsedPacket)
        requires
            old(self).wf(),
            packet@.id == old(self)@.len(),
        ensures
            final(self)@ == old(self)@.push(packet),
            final(self).wf(),
    {
        self.packets.push(packet);
    }

    /// Decode one raw frame and append the record, assigning the next id in
    /// capture order.
    pub fn append_frame(&mut self, frame: &[u8])
        requires
            old(self).wf(),
            old(self)@.len() < usize::MAX,
        ensures
            final(self)@.len() == old(self)@.len() + 1,
            forall|i: int| 0 <= i < old(self)@.len() ==> final(self)@[i] == old(self)@[i],
            final(self)@[old(self)@.len() as int]@ == spec_decode(
                frame@,
                old(self)@.len() as int,
            ),
            final(self).wf(),
    {
        let id = self.packets.len();
        let packet = parse_ethernet_frame(frame, id);
        self.append(packet);
    }

    /// Decode and append each of `frames`, in order.
    pub fn append_frames(&mut self, frames: &Vec<Vec<u8>>)
        requires
            old(self).wf(),
            old(self)@.len() + frames@.len() <= usize::MAX,
        ensures
            final(self)@.len() == old(self)@.len() + frames@.len(),
            forall|i: int| 0 <= i < old(self)@.len() ==> final(self)@[i] == old(self)@[i],
            forall|k: int| 0 <= k < frames@.len() ==> final(self)@[old(self)@.len() + k]@
                == spec_decode(frames@[k]@, old(self)@.len() + k),
            final(self).wf(),
    {
        let mut k: usize = 0;
        while k < frames.len()
            invariant
                k <= frames@.len(),
                self@.len() == old(self)@.len() + k,
                self@.len() + (frames@.len() - k) <= usize::MAX,
                forall|i: int| 0 <= i < old(self)@.len() ==> self@[i] == old(self)@[i],
                forall|j: int| 0 <= j < k ==> self@[old(self)@.len() + j]@ == spec_decode(
                    frames@[j]@,
                    old(self)@.len() + j,
                ),
                self.wf(),
            decreases frames@.len() - k,
        {
            self.append_frame(frames[k].as_slice());
            k += 1;
        }
    }

    /// The records appended since the caller last saw `last_seen` of them,
    /// in append order.
    pub fn new_since(&self, last_seen: usize) -> (r: &[ParsedPacket])
        requires
            last_seen <= self@.len(),
        ensures
            r@ == self@.subrange(last_seen as int, self@.len() as int),
    {
        slice_subrange(self.packets.as_slice(), last_seen, self.packets.len())
    }
}

/// Ids in a well-formed store are exactly the append positions: starting at
/// 0, strictly increasing, with no gaps, in receipt order.
pub proof fn lemma_store_ids(s: &PacketStore)
    requires
        s.wf(),
    ensures
        forall|i: int| 0 <= i < s@.len() ==> (#[trigger] s@[i])@.id == i,
        forall|i: int, j: int| 0 <= i < j < s@.len() ==> (#[trigger] s@[i])@.id < (
        #[trigger] s@[j])@.id,
{
}

/// What `new_since` returns: reading from the current count (no appends in
/// between) yields nothing; reading from an older count after further
/// appends yields exactly the appended records, in append order.
pub proof fn lemma_new_since(older: Seq<ParsedPacket>, appended: Seq<ParsedPacket>)
    ensures
        older.subrange(older.len() as int, older.len() as int) == Seq::<ParsedPacket>::empty(),
        (older + appended).subrange(older.len() as int, (older + appended).len() as int)
            == appended,
{
    assert(older.subrange(older.len() as int, older.len() as int) =~= Seq::<
        ParsedPacket,
    >::empty());
    assert((older + appended).subrange(older.len() as int, (older + appended).len() as int)
        =~= appended);
}

} // verus!
