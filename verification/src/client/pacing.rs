//! The client session loop's frame pacing: which part of the desktop image
//! changed since the last frame went out, whether a frame is with the
//! presenter, and when the next one may go.
//!
//! The loop itself (reading frames, waiting on the pacing timer, copying
//! and sending the image) is the caller's: it reports server updates,
//! acknowledgements and timer expiries, and sends a frame when
//! [`FramePacer::begin_emit`] says so.

use vstd::prelude::*;

use crate::avc::InclusiveRectangle;
use crate::client::session::{
    bounding_box, finish_frame_present, should_emit_latest_image, union_dirty_region,
};

verus! {

/// The pacing state of a session.
pub struct FramePacer {
    /// A frame was sent and the presenter has not acknowledged it.
    pub frame_in_flight: bool,
    /// The image changed while a frame was in flight.
    pub latest_frame_dirty: bool,
    /// The pacing timer runs; a dirty frame goes out when it fires.
    pub pacing_armed: bool,
    /// The bounding box of the updates since the last frame went out;
    /// `None` asks for a full copy.
    pub dirty_region: Option<InclusiveRectangle>,
    /// How many frames went out (saturating).
    pub emitted_frame_count: u64,
}

/// `dirty` grown by `rect`.
pub open spec fn grown(dirty: Option<InclusiveRectangle>, rect: InclusiveRectangle) -> Option<InclusiveRectangle> {
    match dirty {
        None => Some(rect),
        Some(d) => Some(bounding_box(d, rect)),
    }
}

/// The state after a graphics update of `rect`.
pub open spec fn after_update(p: FramePacer, rect: InclusiveRectangle) -> FramePacer {
    FramePacer { dirty_region: grown(p.dirty_region, rect), ..p }
}

/// Whether a frame goes out when the image is queued in state `p`.
pub open spec fn emits(p: FramePacer) -> bool {
    !p.frame_in_flight
}

/// The state after the image was queued: a frame goes out when none is in
/// flight (the region is consumed), else the image is marked dirty.
pub open spec fn after_queue(p: FramePacer) -> FramePacer {
    if p.frame_in_flight {
        FramePacer { latest_frame_dirty: true, ..p }
    } else {
        FramePacer {
            frame_in_flight: true,
            latest_frame_dirty: false,
            dirty_region: None,
            emitted_frame_count: if p.emitted_frame_count == u64::MAX {
                u64::MAX
            } else {
                (p.emitted_frame_count + 1) as u64
            },
            ..p
        }
    }
}

/// Whether an acknowledgement in state `p` arms the pacing timer: the image
/// changed while the frame was in flight and no timer runs yet.
pub open spec fn arms_timer(p: FramePacer) -> bool {
    p.frame_in_flight && p.latest_frame_dirty && !p.pacing_armed
}

/// The state after the presenter acknowledged a frame.
pub open spec fn after_ack(p: FramePacer) -> FramePacer {
    FramePacer {
        frame_in_flight: false,
        latest_frame_dirty: false,
        pacing_armed: p.pacing_armed || (p.frame_in_flight && p.latest_frame_dirty),
        ..p
    }
}

/// Every part of `r` lies within `outer`.
pub open spec fn covers(outer: InclusiveRectangle, r: InclusiveRectangle) -> bool {
    outer.left <= r.left && outer.top <= r.top && r.right <= outer.right && r.bottom <= outer.bottom
}

impl FramePacer {
    /// A session that has sent nothing yet.
    pub fn new() -> (r: FramePacer)
        ensures
            r == (FramePacer {
                frame_in_flight: false,
                latest_frame_dirty: false,
                pacing_armed: false,
                dirty_region: None,
                emitted_frame_count: 0,
            }),
    {
        FramePacer {
            frame_in_flight: false,
            latest_frame_dirty: false,
            pacing_armed: false,
            dirty_region: None,
            emitted_frame_count: 0,
        }
    }

    /// The server updated `rect` of the image.
    pub fn record_update(&mut self, rect: InclusiveRectangle)
        ensures
            *final(self) == after_update(*old(self), rect),
    {
        union_dirty_region(&mut self.dirty_region, rect);
    }

    /// The image changed and may be sent: returns the region to copy
    /// (`Some(None)` for a full copy) when a frame goes out now, `None` when
    /// it waits for the acknowledgement of the frame in flight.
    pub fn begin_emit(&mut self) -> (r: Option<Option<InclusiveRectangle>>)
        ensures
            *final(self) == after_queue(*old(self)),
            r is Some <==> emits(*old(self)),
            r matches Some(region) ==> region == old(self).dirty_region,
    {
        if !should_emit_latest_image(self.frame_in_flight, &mut self.latest_frame_dirty) {
            return None;
        }
        let region = self.dirty_region.take();
        self.frame_in_flight = true;
        self.latest_frame_dirty = false;
        self.emitted_frame_count = self.emitted_frame_count.saturating_add(1);
        Some(region)
    }

    /// The presenter acknowledged the frame in flight; returns whether the
    /// pacing timer is to be started now.
    pub fn frame_presented(&mut self) -> (r: bool)
        ensures
            *final(self) == after_ack(*old(self)),
            r == arms_timer(*old(self)),
    {
        let send_latest = finish_frame_present(&mut self.frame_in_flight, &mut self.latest_frame_dirty);
        if send_latest && !self.pacing_armed {
            self.pacing_armed = true;
            true
        } else {
            false
        }
    }

    /// The pacing timer fired; the caller queues the image next.
    pub fn pacing_fired(&mut self)
        ensures
            *final(self) == (FramePacer { pacing_armed: false, ..*old(self) }),
    {
        self.pacing_armed = false;
    }

    /// The desktop was reactivated with a new image: the next frame is a
    /// full copy.
    pub fn reset_region(&mut self)
        ensures
            *final(self) == (FramePacer { dirty_region: None, ..*old(self) }),
    {
        self.dirty_region = None;
    }
}

/// The region that goes out covers every update recorded since the last
/// frame went out.
pub proof fn lemma_update_covered(p: FramePacer, rect: InclusiveRectangle)
    ensures
        grown(p.dirty_region, rect) matches Some(d) && covers(d, rect),
        p.dirty_region matches Some(old_d) ==> (grown(p.dirty_region, rect) matches Some(d) && covers(d, old_d)),
{
}

/// At most one frame is with the presenter: queueing while a frame is in
/// flight sends nothing and keeps the updates for later.
pub proof fn lemma_one_frame_in_flight(p: FramePacer)
    requires
        p.frame_in_flight,
    ensures
        !emits(p),
        after_queue(p).frame_in_flight,
        after_queue(p).dirty_region == p.dirty_region,
{
}

/// An update that arrives while a frame is in flight is sent after the
/// acknowledgement: the acknowledgement starts the pacing timer (unless one
/// runs), and queueing after the timer fires sends a frame whose region
/// covers the update.
pub proof fn lemma_update_in_flight_sent_after_ack(p: FramePacer, rect: InclusiveRectangle)
    requires
        p.frame_in_flight,
    ensures
        ({
            let held = after_queue(after_update(p, rect));
            let acked = after_ack(held);
            let fired = FramePacer { pacing_armed: false, ..acked };
            &&& !emits(after_update(p, rect))
            &&& arms_timer(held) == !p.pacing_armed
            &&& acked.pacing_armed
            &&& emits(fired)
            &&& fired.dirty_region matches Some(d) && covers(d, rect)
        }),
{
}

/// The outputs of one server frame, as far as pacing is concerned.
pub enum StageOutput<T> {
    /// Part of the image changed.
    GraphicsUpdate(InclusiveRectangle),
    /// Anything else (a response to send, a pointer change, ...).
    Other(T),
}

/// What the session loop does for one output.
pub enum DriverStep<T> {
    /// Grow the dirty region (see [`FramePacer::record_update`]).
    RecordUpdate(InclusiveRectangle),
    /// Queue the image (see [`FramePacer::begin_emit`]).
    QueueImage,
    /// Handle the output.
    Handle(T),
}

/// The steps for `outs`, where `pending` says whether updates were recorded
/// that no queueing followed yet: consecutive updates are coalesced and the
/// image is queued once, before the next other output or at the end.
pub open spec fn steps_from<T>(outs: Seq<StageOutput<T>>, pending: bool) -> Seq<DriverStep<T>>
    decreases outs.len(),
{
    if outs.len() == 0 {
        if pending {
            seq![DriverStep::QueueImage]
        } else {
            Seq::empty()
        }
    } else {
        match outs[0] {
            StageOutput::GraphicsUpdate(rect) => seq![DriverStep::RecordUpdate(rect)] + steps_from(
                outs.drop_first(),
                true,
            ),
            StageOutput::Other(t) => (if pending {
                seq![DriverStep::QueueImage]
            } else {
                Seq::empty()
            }) + seq![DriverStep::Handle(t)] + steps_from(outs.drop_first(), false),
        }
    }
}

/// Orders the work for the outputs of one server frame.
pub fn plan_stage_outputs<T>(outputs: Vec<StageOutput<T>>) -> (r: Vec<DriverStep<T>>)
    ensures
        r@ == steps_from(outputs@, false),
{
    let ghost all = outputs@;
    let mut outputs = outputs;
    let mut steps: Vec<DriverStep<T>> = Vec::new();
    let mut pending = false;
    while outputs.len() > 0
        invariant
            steps@ + steps_from(outputs@, pending) == steps_from(all, false),
        decreases outputs@.len(),
    {
        let ghost rest = outputs@;
        let ghost was_pending = pending;
        let ghost before = steps@;
        let out = outputs.remove(0);
        assert(outputs@ =~= rest.drop_first());
        match out {
            StageOutput::GraphicsUpdate(rect) => {
                steps.push(DriverStep::RecordUpdate(rect));
                pending = true;
                assert(steps@ + steps_from(outputs@, pending) =~= before + steps_from(rest, was_pending));
            },
            StageOutput::Other(t) => {
                if pending {
                    steps.push(DriverStep::QueueImage);
                }
                steps.push(DriverStep::Handle(t));
                pending = false;
                assert(steps@ + steps_from(outputs@, pending) =~= before + steps_from(rest, was_pending));
            },
        }
    }
    let ghost before = steps@;
    let ghost tail = steps_from(outputs@, pending);
    if pending {
        steps.push(DriverStep::QueueImage);
    }
    assert(steps@ =~= before + tail);
    steps
}

} // verus!
