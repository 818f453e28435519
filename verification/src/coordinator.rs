use vstd::prelude::*;
use crate::control::Command;
use crate::hyprctl::Monitor;
use crate::orientation::Orientation;
use crate::orientation::parse_orientation;

verus! {

/// One pending apply attempt: the external tool is to be invoked with this
/// transform value, and the outcome reported back through `finish`.
#[derive(Debug, PartialEq, Eq, Structural, Clone, Copy)]
pub struct ApplyPlan {
    pub orientation: Orientation,
    pub transform: u8,
}

/// One event from one of the three sources the daemon races: the sensor
/// stream, the control channel, and the periodic configuration reload.
pub enum Event {
    /// The sensor reported a new raw orientation label.
    Sensor(String),
    /// A lock or unlock instruction arrived on the control channel.
    Control(Command),
    /// The periodic tick re-read the dynamic configuration.
    Tick { transforms: [u8; 4], lock: bool },
}

/// The coordinator: owns the current orientation, the lock state, the queued
/// request, the transform table, and the immutable capability snapshot.
/// Mutated only through its methods, from a single thread of control.
pub struct Context {
    /// Current device orientation; changes only when an apply succeeds.
    pub now: Orientation,
    /// Request buffered while locked; released on unlock.
    pub queued: Option<Orientation>,
    /// The monitor this daemon drives, as resolved at startup.
    pub output: Monitor,
    /// Transform table, indexed by rotation index.
    pub transforms: [u8; 4],
    /// While locked, requests are buffered instead of applied.
    pub is_locked: bool,
    /// Whether touch input devices are present (probed once at startup).
    pub has_touch: bool,
    /// Whether tablet input devices are present (probed once at startup).
    pub has_tablet: bool,
    /// Services to restart, best-effort, after a successful apply.
    pub restart_services: Vec<String>,
}

impl Context {
    /// A request is queued only while locked.
    pub open spec fn wf(self) -> bool {
        self.queued is Some ==> self.is_locked
    }

    /// The transform value the table gives for an orientation.
    pub open spec fn transform_for(self, o: Orientation) -> u8 {
        self.transforms@[o.rotation_spec()]
    }

    pub open spec fn with_queued(self, o: Orientation) -> Context {
        Context { queued: Some(o), ..self }
    }

    pub open spec fn with_now(self, o: Orientation) -> Context {
        Context { now: o, ..self }
    }

    pub open spec fn with_locked(self, locked: bool) -> Context {
        Context { is_locked: locked, ..self }
    }

    pub open spec fn without_queued(self) -> Context {
        Context { queued: None, ..self }
    }

    pub open spec fn with_transforms(self, transforms: [u8; 4]) -> Context {
        Context { transforms, ..self }
    }
}

/// What one orientation request does: while locked it only overwrites the
/// queued request; unlocked, it plans an apply unless the orientation is
/// already current and the request is not forced. The state itself never
/// moves here; `current` moves only in `finish_step`, on success.
pub open spec fn orient_step(s: Context, o: Orientation, force: bool) -> (Context, Option<
    ApplyPlan,
>) {
    if s.is_locked {
        (s.with_queued(o), None)
    } else if o == s.now && !force {
        (s, None)
    } else {
        (s, Some(ApplyPlan { orientation: o, transform: s.transform_for(o) }))
    }
}

/// What the outcome of an apply attempt does: success moves `current` to the
/// planned orientation; failure leaves the state exactly as it was.
pub open spec fn finish_step(s: Context, plan: ApplyPlan, applied: bool) -> Context {
    if applied {
        s.with_now(plan.orientation)
    } else {
        s
    }
}

/// What a lock-state change does: locking buffers; unlocking releases any
/// queued request as a forced apply, because the transform table may have
/// changed while locked.
pub open spec fn set_lock_step(s: Context, lock: bool) -> (Context, Option<ApplyPlan>) {
    if lock {
        (s.with_locked(true), None)
    } else {
        match s.queued {
            Some(q) => orient_step(s.with_locked(false).without_queued(), q, true),
            None => (s.with_locked(false), None),
        }
    }
}

/// What a transform-table replacement does: the table is swapped whole; if
/// the value at the current orientation's rotation index changed, a forced
/// re-apply of the current orientation follows (queued for the next unlock
/// when locked).
pub open spec fn update_transforms_step(s: Context, transforms: [u8; 4]) -> (Context, Option<
    ApplyPlan,
>) {
    let s1 = s.with_transforms(transforms);
    if transforms@[s.now.rotation_spec()] != s.transforms@[s.now.rotation_spec()] {
        orient_step(s1, s.now, true)
    } else {
        (s1, None)
    }
}

impl Context {
    pub fn new(
        now: Orientation,
        output: Monitor,
        transforms: [u8; 4],
        is_locked: bool,
        has_touch: bool,
        has_tablet: bool,
        restart_services: Vec<String>,
    ) -> (r: Context)
        ensures
            r == (Context {
                now,
                queued: None,
                output,
                transforms,
                is_locked,
                has_touch,
                has_tablet,
                restart_services,
            }),
            r.wf(),
    {
        Context { now, queued: None, output, transforms, is_locked, has_touch, has_tablet, restart_services }
    }

    /// Request a new orientation. While locked, the request is buffered
    /// (last write wins) and nothing is applied. Unlocked, a request for the
    /// current orientation without `force` is a no-op; otherwise the returned
    /// plan must be carried out by the caller, who then reports the outcome
    /// through `finish`. The state never changes here beyond the queue.
    pub fn orient(&mut self, orientation: Orientation, force: bool) -> (plan: Option<ApplyPlan>)
        ensures
            (*final(self), plan) == orient_step(*old(self), orientation, force),
            old(self).wf() ==> final(self).wf(),
    {
        if self.is_locked {
            self.queued = Some(orientation);
            return None;
        }
        if self.now == orientation && !force {
            return None;
        }
        let rotation = orientation.rotation();
        let transform = self.transforms[rotation];
        Some(ApplyPlan { orientation, transform })
    }

    /// Record the outcome of one apply attempt. Only a successful attempt
    /// moves `current`; a failed one leaves the state exactly as before.
    pub fn finish(&mut self, plan: ApplyPlan, applied: bool)
        ensures
            *final(self) == finish_step(*old(self), plan, applied),
            old(self).wf() ==> final(self).wf(),
    {
        if applied {
            self.now = plan.orientation;
        }
    }

    /// Change the lock state. Locking (or re-locking) only sets the flag;
    /// unlocking releases any queued request as a forced apply plan.
    pub fn set_lock(&mut self, lock: bool) -> (plan: Option<ApplyPlan>)
        ensures
            (*final(self), plan) == set_lock_step(*old(self), lock),
            final(self).wf(),
    {
        if lock {
            self.is_locked = true;
            return None;
        }
        self.is_locked = false;
        let queued = self.queued;
        match queued {
            Some(q) => {
                self.queued = None;
                self.orient(q, true)
            },
            None => None,
        }
    }

    /// Replace the transform table as a whole. If the value at the current
    /// orientation's rotation index changed, re-issue a forced request for
    /// the current orientation so the live device matches the new mapping;
    /// while locked that request is buffered until the next unlock.
    pub fn update_transforms(&mut self, transforms: [u8; 4]) -> (plan: Option<ApplyPlan>)
        ensures
            (*final(self), plan) == update_transforms_step(*old(self), transforms),
            old(self).wf() ==> final(self).wf(),
    {
        let rotation = self.now.rotation();
        let old_value = self.transforms[rotation];
        let new_value = transforms[rotation];
        self.transforms = transforms;
        if new_value != old_value {
            let o = self.now;
            self.orient(o, true)
        } else {
            None
        }
    }
}

/// Multiplexer decision for one event from one source. A sensor label is
/// normalized first; an unrecognized label is dropped with the state
/// untouched. A control command maps to a lock-state change. A reload tick
/// feeds the re-read table and lock flag through the coordinator operations,
/// which themselves ignore an unchanged value.
pub open spec fn event_step(s: Context, event: Event) -> (Context, Option<ApplyPlan>) {
    match event {
        Event::Sensor(label) => match parse_orientation(label@) {
            Some(o) => orient_step(s, o, false),
            None => (s, None),
        },
        Event::Control(cmd) => set_lock_step(s, cmd == Command::Lock),
        Event::Tick { transforms, lock } => {
            let r1 = update_transforms_step(s, transforms);
            let r2 = set_lock_step(r1.0, lock);
            (
                r2.0,
                if r1.1 is Some {
                    r1.1
                } else {
                    r2.1
                },
            )
        },
    }
}

impl Context {
    /// Handle exactly one ready event from exactly one source, as the event
    /// loop does each iteration. Returns the apply plan the event calls for,
    /// if any; the caller carries it out and reports back through `finish`.
    pub fn handle_event(&mut self, event: Event) -> (plan: Option<ApplyPlan>)
        ensures
            (*final(self), plan) == event_step(*old(self), event),
            old(self).wf() ==> final(self).wf(),
    {
        match event {
            Event::Sensor(label) => {
                match Orientation::new(label.as_str()) {
                    Some(o) => self.orient(o, false),
                    None => None,
                }
            },
            Event::Control(cmd) => self.set_lock(cmd == Command::Lock),
            Event::Tick { transforms, lock } => {
                let p1 = self.update_transforms(transforms);
                let p2 = self.set_lock(lock);
                if p1.is_some() {
                    p1
                } else {
                    p2
                }
            },
        }
    }
}

/// Idempotent no-op (law): unlocked, requesting the current orientation
/// without force changes nothing and plans no apply, so the external applier
/// is never invoked for a duplicate sensor reading.
pub proof fn lemma_idempotent_noop(s: Context)
    requires
        !s.is_locked,
    ensures
        orient_step(s, s.now, false) == (s, Option::<ApplyPlan>::None),
{
}

/// Forced re-apply (law): unlocked, a forced request plans an apply even when
/// the orientation equals the current one.
pub proof fn lemma_forced_reapply(s: Context)
    requires
        !s.is_locked,
    ensures
        orient_step(s, s.now, true) == (
            s,
            Some((ApplyPlan { orientation: s.now, transform: s.transform_for(s.now) })),
        ),
{
}

/// Failure atomicity (law): when the apply attempt fails, the state after
/// `finish` equals the state before the request, whatever was planned.
pub proof fn lemma_failure_atomicity(s: Context, plan: ApplyPlan)
    ensures
        finish_step(s, plan, false) == s,
{
}

/// Current moves only on success (law): no event ever moves the current
/// orientation by itself. It moves only when `finish` records a successful
/// apply, never optimistically.
pub proof fn lemma_current_moves_only_on_success(s: Context, event: Event)
    ensures
        event_step(s, event).0.now == s.now,
{
}

/// The state after a sequence of unforced orientation requests.
pub open spec fn queue_all(s: Context, os: Seq<Orientation>) -> Context
    decreases os.len(),
{
    if os.len() == 0 {
        s
    } else {
        queue_all(orient_step(s, os[0], false).0, os.skip(1))
    }
}

proof fn lemma_queue_all_locked(s: Context, os: Seq<Orientation>)
    requires
        s.is_locked,
        os.len() > 0,
    ensures
        queue_all(s, os) == s.with_queued(os.last()),
    decreases os.len(),
{
    let s1 = orient_step(s, os[0], false).0;
    assert(queue_all(s, os) == queue_all(s1, os.skip(1)));
    if os.len() == 1 {
        assert(os.skip(1).len() == 0);
        assert(os.last() == os[0]);
    } else {
        lemma_queue_all_locked(s1, os.skip(1));
        assert(os.skip(1).last() == os.last());
        assert(s1.with_queued(os.last()) == s.with_queued(os.last()));
    }
}

/// Lock buffers requests (law): for any sequence of unforced requests made
/// while locked, the state records exactly the last one and `current` does
/// not move; unlocking then plans a forced apply of that last request, and
/// once the apply succeeds, `current` is that orientation, nothing stays
/// queued, and the lock is released.
pub proof fn lemma_lock_buffers_requests(s: Context, os: Seq<Orientation>)
    requires
        s.is_locked,
        os.len() > 0,
    ensures
        queue_all(s, os) == s.with_queued(os.last()),
        ({
            let step = set_lock_step(queue_all(s, os), false);
            step.1 matches Some(p) && p.orientation == os.last() && p.transform
                == s.transform_for(os.last()) && finish_step(step.0, p, true).now == os.last()
                && finish_step(step.0, p, true).queued is None && !finish_step(
                step.0,
                p,
                true,
            ).is_locked
        }),
{
    lemma_queue_all_locked(s, os);
}

} // verus!
