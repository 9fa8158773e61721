//! The touch event multiplexer: per-process state, the coordinator, and its
//! event-intake and syscall-command surfaces.
//!
//! The coordinator owns one record per registered process, keyed by a
//! registration index, and fans hardware events out to all of them. The
//! asynchronous notification channel is modeled by value: every intake entry
//! point returns the ordered sequence of notifications it schedules, and the
//! external scheduler owns their delivery.

use vstd::prelude::*;

use crate::codec::{packed_size_pressure, packed_xy, pack_size_pressure, pack_xy, record_bytes,
    write_record};
use crate::events::{gesture_number, gesture_ordinal, status_code, touch_status_to_number,
    GestureEvent, TouchEvent, TouchStatus};
use crate::geometry::{in_bounds, transform_xy, transformed_xy, Screen, ScreenRotation};

verus! {

/// Failure conditions surfaced to callers.
#[derive(Clone, Copy, Debug, PartialEq, Eq, Structural)]
pub enum ErrorCode {
    /// The hardware capability addressed by the operation is absent.
    NoDevice,
    /// The command or allow operation is not supported.
    NoSupport,
    /// The per-process state entry could not be reached.
    Fail,
}

/// Result of a syscall command.
#[derive(Clone, Copy, Debug, PartialEq, Eq, Structural)]
pub enum CommandReturn {
    Success,
    SuccessU32(u32),
    Failure(ErrorCode),
}

/// One scheduled upcall: the registration index of the target process, the
/// logical channel, and the three payload words.
#[derive(Clone, Copy, Debug, PartialEq, Eq, Structural)]
pub struct Notification {
    pub process: usize,
    pub channel: usize,
    pub arg0: usize,
    pub arg1: usize,
    pub arg2: usize,
}

/// The single-touch hardware capability, when present: only its enable state
/// is visible to this layer.
#[derive(Clone, Copy, Debug, PartialEq, Eq, Structural)]
pub struct TouchHardware {
    pub enabled: bool,
}

/// The multi-touch hardware capability, when present: its enable state and
/// the touch count it reports.
#[derive(Clone, Copy, Debug, PartialEq, Eq, Structural)]
pub struct MultiTouchHardware {
    pub enabled: bool,
    pub num_touches: u32,
}

/// State kept for one registered process.
#[derive(Debug)]
pub struct App {
    /// Shared output buffer for multi-touch batches, swapped in by the
    /// process through the allow operation. Starts empty.
    pub events_buffer: Vec<u8>,
    /// Flow-control credit: true when the process may receive the next
    /// multi-touch batch. Starts true.
    pub ack: bool,
    /// Batches skipped since the last successful delivery.
    pub dropped_events: usize,
    /// Last reported single-touch sample, for deduplication.
    pub x: u16,
    pub y: u16,
    pub status: usize,
    /// Per-process enable requests.
    pub touch_enable: bool,
    pub multi_touch_enable: bool,
}

/// Mathematical model of one process's record.
#[verifier::ext_equal]
pub struct AppModel {
    pub buffer: Seq<u8>,
    pub ack: bool,
    pub dropped_events: usize,
    pub x: u16,
    pub y: u16,
    pub status: usize,
    pub touch_enable: bool,
    pub multi_touch_enable: bool,
}

impl AppModel {
    /// The state of a process on first contact.
    pub open spec fn initial() -> AppModel {
        AppModel {
            buffer: Seq::empty(),
            ack: true,
            dropped_events: 0,
            x: 0,
            y: 0,
            status: status_code(TouchStatus::Unstarted) as usize,
            touch_enable: false,
            multi_touch_enable: false,
        }
    }
}

impl View for App {
    type V = AppModel;

    open spec fn view(&self) -> AppModel {
        AppModel {
            buffer: self.events_buffer@,
            ack: self.ack,
            dropped_events: self.dropped_events,
            x: self.x,
            y: self.y,
            status: self.status,
            touch_enable: self.touch_enable,
            multi_touch_enable: self.multi_touch_enable,
        }
    }
}

impl Default for App {
    /// The record of a process on first contact.
    fn default() -> (a: App)
        ensures
            a@ == AppModel::initial(),
    {
        App {
            events_buffer: Vec::new(),
            ack: true,
            dropped_events: 0,
            x: 0,
            y: 0,
            status: touch_status_to_number(&TouchStatus::Unstarted),
            touch_enable: false,
            multi_touch_enable: false,
        }
    }
}

/// The models of a sequence of process records.
pub open spec fn models(apps: Seq<App>) -> Seq<AppModel> {
    apps.map_values(|a: App| a@)
}

/// Some registered process has single-touch reporting enabled.
pub open spec fn any_touch_enabled(apps: Seq<AppModel>) -> bool {
    exists|i: int| 0 <= i < apps.len() && apps[i].touch_enable
}

/// Some registered process has multi-touch reporting enabled.
pub open spec fn any_multi_touch_enabled(apps: Seq<AppModel>) -> bool {
    exists|i: int| 0 <= i < apps.len() && apps[i].multi_touch_enable
}

/// A process's view of a single-touch sample differs from its last reported
/// one: some of transformed x, transformed y, or status code changed.
pub open spec fn st_changed(app: AppModel, p: (int, int), code: int) -> bool {
    app.x != p.0 || app.y != p.1 || app.status != code
}

/// A process's record after one single-touch sample: a changed sample is
/// stored as the new last reported one, an unchanged sample leaves the
/// record as it was.
pub open spec fn st_app_next(app: AppModel, p: (int, int), code: int) -> AppModel {
    if st_changed(app, p, code) {
        AppModel { x: p.0 as u16, y: p.1 as u16, status: code as usize, ..app }
    } else {
        app
    }
}

/// The channel 0 notification that process `i` gets for a changed
/// single-touch sample: status code, packed position, packed size/pressure.
pub open spec fn st_notification(
    i: int,
    p: (int, int),
    code: int,
    size: Option<u8>,
    pressure: Option<u8>,
) -> Notification {
    Notification {
        process: i as usize,
        channel: 0,
        arg0: code as usize,
        arg1: packed_xy(p.0 as u16, p.1 as u16) as usize,
        arg2: packed_size_pressure(size, pressure) as usize,
    }
}

/// The notifications one single-touch sample schedules: one per process
/// whose view of it changed, in registration order.
pub open spec fn st_notifs(
    apps: Seq<AppModel>,
    p: (int, int),
    code: int,
    size: Option<u8>,
    pressure: Option<u8>,
) -> Seq<Notification>
    decreases apps.len(),
{
    if apps.len() == 0 {
        Seq::empty()
    } else {
        let prefix = st_notifs(apps.drop_last(), p, code, size, pressure);
        if st_changed(apps.last(), p, code) {
            prefix.push(st_notification(apps.len() - 1, p, code, size, pressure))
        } else {
            prefix
        }
    }
}

/// Effective length of a batch: the count bound capped by the sequence
/// actually supplied.
pub open spec fn eff_len(events_len: int, num_events: int) -> int {
    if events_len < num_events {
        events_len
    } else {
        num_events
    }
}

/// How many events of a batch of effective length `elen` fit a process's
/// shared buffer: one 8-byte record per event.
pub open spec fn mt_num(app: AppModel, elen: int) -> int {
    let cap = app.buffer.len() as int / 8;
    if cap < elen {
        cap
    } else {
        elen
    }
}

/// A batch of effective length `elen` is delivered to this process: it holds
/// the flow-control credit and at least one record fits its buffer.
pub open spec fn mt_delivers(app: AppModel, elen: int) -> bool {
    app.ack && mt_num(app, elen) > 0
}

/// The 8-byte record of an event after the coordinate transform.
pub open spec fn transformed_record(
    screen: Option<Screen>,
    offset: ScreenRotation,
    e: TouchEvent,
) -> Seq<u8> {
    let p = transformed_xy(screen, offset, e.x, e.y);
    record_bytes(TouchEvent { x: p.0 as u16, y: p.1 as u16, ..e })
}

/// A process's shared buffer after a batch: on delivery the first
/// `8 * mt_num` bytes hold the transformed records, record `k` at offset
/// `8 * k`, and the remaining bytes keep their old values; otherwise the
/// buffer is untouched.
pub open spec fn mt_buffer_next(
    app: AppModel,
    events: Seq<TouchEvent>,
    elen: int,
    screen: Option<Screen>,
    offset: ScreenRotation,
) -> Seq<u8> {
    if mt_delivers(app, elen) {
        Seq::new(
            app.buffer.len(),
            |j: int|
                if j < 8 * mt_num(app, elen) {
                    transformed_record(screen, offset, events[j / 8])[j % 8]
                } else {
                    app.buffer[j]
                },
        )
    } else {
        app.buffer
    }
}

/// A process's record after a batch of effective length `elen`: without the
/// credit the batch is skipped and counted as dropped; on delivery the
/// credit is spent and the dropped counter resets; a batch that fits no
/// record leaves the record untouched.
pub open spec fn mt_app_next(
    app: AppModel,
    events: Seq<TouchEvent>,
    elen: int,
    screen: Option<Screen>,
    offset: ScreenRotation,
) -> AppModel {
    if !app.ack {
        AppModel { dropped_events: (app.dropped_events + 1) as usize, ..app }
    } else if mt_num(app, elen) > 0 {
        AppModel {
            ack: false,
            dropped_events: 0,
            buffer: mt_buffer_next(app, events, elen, screen, offset),
            ..app
        }
    } else {
        app
    }
}

/// The channel 2 notification process `i` gets for a delivered batch:
/// delivered count, batches dropped since the last delivery, and how many
/// events of this batch were truncated away.
pub open spec fn mt_notification(i: int, app: AppModel, elen: int) -> Notification {
    Notification {
        process: i as usize,
        channel: 2,
        arg0: mt_num(app, elen) as usize,
        arg1: app.dropped_events,
        arg2: (elen - mt_num(app, elen)) as usize,
    }
}

/// The notifications one batch schedules: one per process it is delivered
/// to, in registration order.
pub open spec fn mt_notifs(apps: Seq<AppModel>, elen: int) -> Seq<Notification>
    decreases apps.len(),
{
    if apps.len() == 0 {
        Seq::empty()
    } else {
        let prefix = mt_notifs(apps.drop_last(), elen);
        if mt_delivers(apps.last(), elen) {
            prefix.push(mt_notification(apps.len() - 1, apps.last(), elen))
        } else {
            prefix
        }
    }
}

/// The per-process records after setting one process's single-touch enable
/// flag; an absent process leaves them unchanged.
pub open spec fn set_touch_flag(apps: Seq<AppModel>, pid: int, v: bool) -> Seq<AppModel> {
    if 0 <= pid < apps.len() {
        apps.update(pid, AppModel { touch_enable: v, ..apps[pid] })
    } else {
        apps
    }
}

/// The per-process records after setting one process's multi-touch enable
/// flag; an absent process leaves them unchanged.
pub open spec fn set_multi_touch_flag(apps: Seq<AppModel>, pid: int, v: bool) -> Seq<AppModel> {
    if 0 <= pid < apps.len() {
        apps.update(pid, AppModel { multi_touch_enable: v, ..apps[pid] })
    } else {
        apps
    }
}

/// The per-process records after one process acknowledges its outstanding
/// batch, re-arming its flow-control credit; an absent process leaves them
/// unchanged.
pub open spec fn set_ack(apps: Seq<AppModel>, pid: int) -> Seq<AppModel> {
    if 0 <= pid < apps.len() {
        apps.update(pid, AppModel { ack: true, ..apps[pid] })
    } else {
        apps
    }
}

/// The per-process records after a command: the enable commands set the
/// caller's flag, the acknowledge command re-arms its credit, every other
/// command leaves the records unchanged.
pub open spec fn command_apps_next(apps: Seq<AppModel>, cmd: int, pid: int) -> Seq<AppModel> {
    if cmd == 1 {
        set_touch_flag(apps, pid, true)
    } else if cmd == 2 {
        set_touch_flag(apps, pid, false)
    } else if cmd == 10 {
        set_ack(apps, pid)
    } else if cmd == 11 {
        set_multi_touch_flag(apps, pid, true)
    } else if cmd == 12 {
        set_multi_touch_flag(apps, pid, false)
    } else {
        apps
    }
}

/// The single-touch hardware state after a best-effort sync against the
/// given records: present hardware is enabled exactly when some process
/// requests it, absent hardware stays absent.
pub open spec fn touch_hw_synced(
    hw: Option<TouchHardware>,
    apps: Seq<AppModel>,
) -> Option<TouchHardware> {
    match hw {
        Option::None => Option::None,
        Option::Some(_) => Option::Some(TouchHardware { enabled: any_touch_enabled(apps) }),
    }
}

/// The multi-touch hardware state after a best-effort sync against the
/// given records.
pub open spec fn multi_touch_hw_synced(
    hw: Option<MultiTouchHardware>,
    apps: Seq<AppModel>,
) -> Option<MultiTouchHardware> {
    match hw {
        Option::None => Option::None,
        Option::Some(m) => Option::Some(
            MultiTouchHardware {
                enabled: any_multi_touch_enabled(apps),
                num_touches: m.num_touches,
            },
        ),
    }
}

/// The result a command reports: the known opcodes succeed whatever the
/// hardware state (the touch-count query reports the hardware-reported
/// count, else 1 with bare single-touch hardware, else 0); unknown opcodes
/// are not supported.
pub open spec fn command_result(
    cmd: int,
    touch: Option<TouchHardware>,
    multi_touch: Option<MultiTouchHardware>,
) -> CommandReturn {
    if cmd == 0 || cmd == 1 || cmd == 2 || cmd == 10 || cmd == 11 || cmd == 12 {
        CommandReturn::Success
    } else if cmd == 100 {
        CommandReturn::SuccessU32(
            match multi_touch {
                Option::Some(m) => m.num_touches,
                Option::None => if touch is Some {
                    1
                } else {
                    0
                },
            },
        )
    } else {
        CommandReturn::Failure(ErrorCode::NoSupport)
    }
}

/// The touch event multiplexer. It owns the per-process records and
/// non-owning views of the optional hardware capabilities and screen.
pub struct Touch {
    /// Single-touch hardware, if wired up.
    pub touch: Option<TouchHardware>,
    /// Multi-touch hardware, if wired up.
    pub multi_touch: Option<MultiTouchHardware>,
    /// The display under the panel, if one is attached.
    pub screen: Option<Screen>,
    /// Correction composed with the screen's intrinsic rotation, set at boot.
    pub screen_rotation_offset: ScreenRotation,
    /// One record per registered process, in registration order.
    pub apps: Vec<App>,
}

impl Touch {
    /// A multiplexer over the given capabilities, with no process registered
    /// yet and no rotation offset configured.
    pub fn new(
        touch: Option<TouchHardware>,
        multi_touch: Option<MultiTouchHardware>,
        screen: Option<Screen>,
    ) -> (t: Touch)
        ensures
            t.touch == touch,
            t.multi_touch == multi_touch,
            t.screen == screen,
            t.screen_rotation_offset == ScreenRotation::Normal,
            t.apps@.len() == 0,
    {
        Touch {
            touch,
            multi_touch,
            screen,
            screen_rotation_offset: ScreenRotation::Normal,
            apps: Vec::new(),
        }
    }

    /// Configure the rotation offset composed with the screen's intrinsic
    /// rotation on every event.
    pub fn set_screen_rotation_offset(&mut self, screen_rotation_offset: ScreenRotation)
        ensures
            final(self).screen_rotation_offset == screen_rotation_offset,
            final(self).touch == old(self).touch,
            final(self).multi_touch == old(self).multi_touch,
            final(self).screen == old(self).screen,
            final(self).apps == old(self).apps,
    {
        self.screen_rotation_offset = screen_rotation_offset;
    }

    /// Ensure the per-process record for `processid` exists. Records live in
    /// an arena indexed in registration order, so only the next free index
    /// can be newly allocated; a gap means the identity is not allocatable.
    pub fn allocate_grant(&mut self, processid: usize) -> (r: Result<(), ErrorCode>)
        ensures
            final(self).touch == old(self).touch,
            final(self).multi_touch == old(self).multi_touch,
            final(self).screen == old(self).screen,
            final(self).screen_rotation_offset == old(self).screen_rotation_offset,
            processid < old(self).apps@.len() ==> r == Ok::<(), ErrorCode>(()) && final(self).apps == old(self).apps,
            processid == old(self).apps@.len() ==> r == Ok::<(), ErrorCode>(()) && models(
                final(self).apps@,
            ) == models(old(self).apps@).push(AppModel::initial()),
            processid > old(self).apps@.len() ==> r == Err::<(), ErrorCode>(ErrorCode::Fail)
                && final(self).apps == old(self).apps,
    {
        let n = self.apps.len();
        if processid < n {
            Ok(())
        } else if processid == n {
            self.apps.push(App::default());
            proof {
                assert(models(self.apps@) =~= models(old(self).apps@).push(AppModel::initial()));
            }
            Ok(())
        } else {
            Err(ErrorCode::Fail)
        }
    }

    /// The display-space point of a raw event under this multiplexer's
    /// screen and offset configuration.
    pub open spec fn st_point(self, e: TouchEvent) -> (int, int) {
        transformed_xy(self.screen, self.screen_rotation_offset, e.x, e.y)
    }

    /// Rotate an event's raw position into display space, per the attached
    /// screen and the configured offset. No screen means no change.
    pub fn update_rotation(&self, touch_event: &mut TouchEvent)
        requires
            in_bounds(self.screen, old(touch_event).x, old(touch_event).y),
        ensures
            final(touch_event).x as int == self.st_point(*old(touch_event)).0,
            final(touch_event).y as int == self.st_point(*old(touch_event)).1,
            final(touch_event).id == old(touch_event).id,
            final(touch_event).status == old(touch_event).status,
            final(touch_event).size == old(touch_event).size,
            final(touch_event).pressure == old(touch_event).pressure,
    {
        let (tx, ty) = transform_xy(
            self.screen,
            self.screen_rotation_offset,
            touch_event.x,
            touch_event.y,
        );
        touch_event.x = tx;
        touch_event.y = ty;
    }

    /// Report one single-touch sample to every registered process.
    ///
    /// The transformed sample is compared against each process's last
    /// reported one; a process whose view is unchanged is skipped
    /// (deduplication), the others store the sample and get a notification
    /// on channel 0 carrying the status code and the packed position and
    /// size/pressure words. Delivery is fire-and-forget: the returned
    /// notifications are handed to the scheduler and nothing is reported
    /// back to the hardware driver.
    pub fn touch_event(&mut self, event: TouchEvent) -> (notifs: Vec<Notification>)
        requires
            in_bounds(old(self).screen, event.x, event.y),
        ensures
            final(self).touch == old(self).touch,
            final(self).multi_touch == old(self).multi_touch,
            final(self).screen == old(self).screen,
            final(self).screen_rotation_offset == old(self).screen_rotation_offset,
            final(self).apps@.len() == old(self).apps@.len(),
            forall|i: int|
                0 <= i < old(self).apps@.len() ==> final(self).apps@[i]@ == st_app_next(
                    old(self).apps@[i]@,
                    old(self).st_point(event),
                    status_code(event.status),
                ),
            notifs@ == st_notifs(
                models(old(self).apps@),
                old(self).st_point(event),
                status_code(event.status),
                event.size,
                event.pressure,
            ),
    {
        let ghost p = old(self).st_point(event);
        let (tx, ty) = transform_xy(self.screen, self.screen_rotation_offset, event.x, event.y);
        let code = touch_status_to_number(&event.status);
        let packed_pos = pack_xy(tx, ty);
        let packed_sp = pack_size_pressure(event.size, event.pressure);
        let mut notifs: Vec<Notification> = Vec::new();
        let n = self.apps.len();
        let mut i: usize = 0;
        while i < n
            invariant
                n == self.apps@.len(),
                n == old(self).apps@.len(),
                i <= n,
                self.touch == old(self).touch,
                self.multi_touch == old(self).multi_touch,
                self.screen == old(self).screen,
                self.screen_rotation_offset == old(self).screen_rotation_offset,
                p == old(self).st_point(event),
                tx as int == p.0,
                ty as int == p.1,
                code == status_code(event.status),
                packed_pos == packed_xy(tx, ty),
                packed_sp == packed_size_pressure(event.size, event.pressure),
                forall|j: int|
                    0 <= j < i ==> self.apps@[j]@ == st_app_next(
                        old(self).apps@[j]@,
                        p,
                        status_code(event.status),
                    ),
                forall|j: int| i <= j < n ==> self.apps@[j] == old(self).apps@[j],
                notifs@ == st_notifs(
                    models(old(self).apps@).take(i as int),
                    p,
                    status_code(event.status),
                    event.size,
                    event.pressure,
                ),
            decreases n - i,
        {
            proof {
                assert(models(old(self).apps@).take(i + 1).drop_last() =~= models(
                    old(self).apps@,
                ).take(i as int));
                assert(models(old(self).apps@).take(i + 1).last() == old(self).apps@[i as int]@);
            }
            let changed = self.apps[i].x != tx || self.apps[i].y != ty || self.apps[i].status
                != code;
            if changed {
                let app = &mut self.apps[i];
                app.x = tx;
                app.y = ty;
                app.status = code;
                notifs.push(
                    Notification {
                        process: i,
                        channel: 0,
                        arg0: code,
                        arg1: packed_pos,
                        arg2: packed_sp,
                    },
                );
            }
            i += 1;
        }
        proof {
            assert(models(old(self).apps@).take(n as int) =~= models(old(self).apps@));
        }
        notifs
    }

    /// Report a gesture to every registered process: each gets a channel 1
    /// notification carrying the gesture's 1-based ordinal. No deduplication
    /// and no backpressure — gestures are rare and always delivered.
    pub fn gesture_event(&self, event: GestureEvent) -> (notifs: Vec<Notification>)
        ensures
            notifs@.len() == self.apps@.len(),
            forall|i: int|
                0 <= i < self.apps@.len() ==> notifs@[i] == (Notification {
                    process: i as usize,
                    channel: 1,
                    arg0: gesture_ordinal(event) as usize,
                    arg1: 0,
                    arg2: 0,
                }),
    {
        let gesture_id = gesture_number(&event);
        let mut notifs: Vec<Notification> = Vec::new();
        let n = self.apps.len();
        let mut i: usize = 0;
        while i < n
            invariant
                n == self.apps@.len(),
                i <= n,
                gesture_id == gesture_ordinal(event),
                notifs@.len() == i,
                forall|j: int|
                    0 <= j < i ==> notifs@[j] == (Notification {
                        process: j as usize,
                        channel: 1,
                        arg0: gesture_ordinal(event) as usize,
                        arg1: 0,
                        arg2: 0,
                    }),
            decreases n - i,
        {
            notifs.push(
                Notification { process: i, channel: 1, arg0: gesture_id, arg1: 0, arg2: 0 },
            );
            i += 1;
        }
        notifs
    }

    /// Deliver a multi-touch batch to every registered process under the
    /// one-credit backpressure protocol.
    ///
    /// The effective batch is the first `num_events` supplied events. For a
    /// process without the credit the batch is only counted as dropped. For
    /// a process holding the credit, as many transformed events as fit its
    /// shared buffer are encoded into it as 8-byte records; if at least one
    /// was, the credit is spent, the dropped counter is captured into a
    /// channel 2 notification and reset, and the truncated remainder is
    /// reported in that notification.
    pub fn touch_events(&mut self, events: &Vec<TouchEvent>, num_events: usize) -> (notifs: Vec<
        Notification,
    >)
        requires
            forall|k: int|
                0 <= k < eff_len(events@.len() as int, num_events as int) ==> in_bounds(
                    old(self).screen,
                    events@[k].x,
                    events@[k].y,
                ),
            forall|j: int|
                0 <= j < old(self).apps@.len() ==> old(self).apps@[j]@.dropped_events
                    < usize::MAX,
        ensures
            final(self).touch == old(self).touch,
            final(self).multi_touch == old(self).multi_touch,
            final(self).screen == old(self).screen,
            final(self).screen_rotation_offset == old(self).screen_rotation_offset,
            final(self).apps@.len() == old(self).apps@.len(),
            forall|i: int|
                0 <= i < old(self).apps@.len() ==> final(self).apps@[i]@ == mt_app_next(
                    old(self).apps@[i]@,
                    events@,
                    eff_len(events@.len() as int, num_events as int),
                    old(self).screen,
                    old(self).screen_rotation_offset,
                ),
            notifs@ == mt_notifs(
                models(old(self).apps@),
                eff_len(events@.len() as int, num_events as int),
            ),
    {
        let elen = if events.len() < num_events {
            events.len()
        } else {
            num_events
        };
        let screen = self.screen;
        let offset = self.screen_rotation_offset;
        let mut notifs: Vec<Notification> = Vec::new();
        let n = self.apps.len();
        let mut i: usize = 0;
        while i < n
            invariant
                n == self.apps@.len(),
                n == old(self).apps@.len(),
                i <= n,
                self.touch == old(self).touch,
                self.multi_touch == old(self).multi_touch,
                self.screen == old(self).screen,
                self.screen_rotation_offset == old(self).screen_rotation_offset,
                screen == old(self).screen,
                offset == old(self).screen_rotation_offset,
                elen == eff_len(events@.len() as int, num_events as int),
                elen <= events@.len(),
                forall|k: int| 0 <= k < elen ==> in_bounds(screen, events@[k].x, events@[k].y),
                forall|j: int|
                    0 <= j < i ==> self.apps@[j]@ == mt_app_next(
                        old(self).apps@[j]@,
                        events@,
                        elen as int,
                        screen,
                        offset,
                    ),
                forall|j: int| i <= j < n ==> self.apps@[j] == old(self).apps@[j],
                forall|j: int|
                    i <= j < n ==> old(self).apps@[j]@.dropped_events < usize::MAX,
                notifs@ == mt_notifs(models(old(self).apps@).take(i as int), elen as int),
            decreases n - i,
        {
            proof {
                assert(models(old(self).apps@).take(i + 1).drop_last() =~= models(
                    old(self).apps@,
                ).take(i as int));
                assert(models(old(self).apps@).take(i + 1).last() == old(self).apps@[i as int]@);
            }
            let ghost orig = self.apps@[i as int]@;
            let ack = self.apps[i].ack;
            if !ack {
                let d = self.apps[i].dropped_events;
                self.apps[i].dropped_events = d + 1;
                proof {
                    assert(self.apps@[i as int]@ =~= mt_app_next(
                        orig,
                        events@,
                        elen as int,
                        screen,
                        offset,
                    ));
                }
            } else {
                let mut buffer: Vec<u8> = Vec::new();
                let app = &mut self.apps[i];
                core::mem::swap(&mut app.events_buffer, &mut buffer);
                let cap = buffer.len() / 8;
                let num = if cap < elen {
                    cap
                } else {
                    elen
                };
                proof {
                    assert(num as int == mt_num(orig, elen as int));
                    assert(8 * num <= buffer@.len());
                }
                let mut k: usize = 0;
                while k < num
                    invariant
                        k <= num,
                        num <= elen,
                        elen <= events@.len(),
                        8 * num <= buffer@.len(),
                        buffer@.len() == orig.buffer.len(),
                        num as int == mt_num(orig, elen as int),
                        forall|kk: int|
                            0 <= kk < elen ==> in_bounds(screen, events@[kk].x, events@[kk].y),
                        forall|j: int|
                            0 <= j < buffer@.len() ==> buffer@[j] == (if j < 8 * k {
                                transformed_record(screen, offset, events@[j / 8])[j % 8]
                            } else {
                                orig.buffer[j]
                            }),
                    decreases num - k,
                {
                    let mut ev = events[k];
                    let (tx, ty) = transform_xy(screen, offset, ev.x, ev.y);
                    ev.x = tx;
                    ev.y = ty;
                    proof {
                        let p = transformed_xy(screen, offset, events@[k as int].x, events@[k as int].y);
                        assert(ev == (TouchEvent {
                            x: p.0 as u16,
                            y: p.1 as u16,
                            ..events@[k as int]
                        }));
                        assert(record_bytes(ev) == transformed_record(
                            screen,
                            offset,
                            events@[k as int],
                        ));
                    }
                    write_record(&mut buffer, k, &ev);
                    proof {
                        assert forall|j: int| 8 * k <= j < 8 * k + 8 implies #[trigger] (j / 8)
                            == k as int && j % 8 == j - 8 * k by {
                            vstd::arithmetic::div_mod::lemma_fundamental_div_mod(j, 8);
                        }
                    }
                    k += 1;
                }
                let app = &mut self.apps[i];
                core::mem::swap(&mut app.events_buffer, &mut buffer);
                if num > 0 {
                    let dropped = self.apps[i].dropped_events;
                    self.apps[i].ack = false;
                    self.apps[i].dropped_events = 0;
                    notifs.push(
                        Notification {
                            process: i,
                            channel: 2,
                            arg0: num,
                            arg1: dropped,
                            arg2: elen - num,
                        },
                    );
                    proof {
                        assert(self.apps@[i as int]@.buffer =~= mt_buffer_next(
                            orig,
                            events@,
                            elen as int,
                            screen,
                            offset,
                        ));
                        assert(self.apps@[i as int]@ =~= mt_app_next(
                            orig,
                            events@,
                            elen as int,
                            screen,
                            offset,
                        ));
                    }
                } else {
                    proof {
                        assert(self.apps@[i as int]@ =~= mt_app_next(
                            orig,
                            events@,
                            elen as int,
                            screen,
                            offset,
                        ));
                    }
                }
            }
            i += 1;
        }
        proof {
            assert(models(old(self).apps@).take(n as int) =~= models(old(self).apps@));
        }
        notifs
    }

    /// Recompute the aggregate single-touch enable decision and apply it to
    /// the hardware: enabled exactly when some registered process requests
    /// it. Fails when no single-touch hardware is wired up.
    pub fn touch_enable(&mut self) -> (r: Result<(), ErrorCode>)
        ensures
            final(self).multi_touch == old(self).multi_touch,
            final(self).screen == old(self).screen,
            final(self).screen_rotation_offset == old(self).screen_rotation_offset,
            final(self).apps == old(self).apps,
            old(self).touch is Some ==> r == Ok::<(), ErrorCode>(()) && final(self).touch == Some(TouchHardware { enabled: any_touch_enabled(models(old(self).apps@)) }),
            old(self).touch is None ==> r == Err::<(), ErrorCode>(ErrorCode::NoDevice) && final(self).touch is None,
    {
        let mut enabled = false;
        let n = self.apps.len();
        let mut i: usize = 0;
        while i < n
            invariant
                n == self.apps@.len(),
                i <= n,
                enabled == exists|j: int| 0 <= j < i && models(self.apps@)[j].touch_enable,
            decreases n - i,
        {
            if self.apps[i].touch_enable {
                enabled = true;
                proof {
                    assert(models(self.apps@)[i as int].touch_enable);
                }
            }
            i += 1;
        }
        match self.touch {
            Option::Some(_) => {
                self.touch = Some(TouchHardware { enabled });
                Ok(())
            },
            Option::None => Err(ErrorCode::NoDevice),
        }
    }

    /// Recompute the aggregate multi-touch enable decision and apply it to
    /// the hardware: enabled exactly when some registered process requests
    /// it. Fails when no multi-touch hardware is wired up.
    pub fn multi_touch_enable(&mut self) -> (r: Result<(), ErrorCode>)
        ensures
            final(self).touch == old(self).touch,
            final(self).screen == old(self).screen,
            final(self).screen_rotation_offset == old(self).screen_rotation_offset,
            final(self).apps == old(self).apps,
            old(self).multi_touch is Some ==> r == Ok::<(), ErrorCode>(()) && final(self).multi_touch == Some(
                MultiTouchHardware {
                    enabled: any_multi_touch_enabled(models(old(self).apps@)),
                    num_touches: old(self).multi_touch->Some_0.num_touches,
                },
            ),
            old(self).multi_touch is None ==> r == Err::<(), ErrorCode>(ErrorCode::NoDevice)
                && final(self).multi_touch is None,
    {
        let mut enabled = false;
        let n = self.apps.len();
        let mut i: usize = 0;
        while i < n
            invariant
                n == self.apps@.len(),
                i <= n,
                enabled == exists|j: int| 0 <= j < i && models(self.apps@)[j].multi_touch_enable,
            decreases n - i,
        {
            if self.apps[i].multi_touch_enable {
                enabled = true;
                proof {
                    assert(models(self.apps@)[i as int].multi_touch_enable);
                }
            }
            i += 1;
        }
        match self.multi_touch {
            Option::Some(hw) => {
                self.multi_touch = Some(
                    MultiTouchHardware { enabled, num_touches: hw.num_touches },
                );
                Ok(())
            },
            Option::None => Err(ErrorCode::NoDevice),
        }
    }

    /// Accept a shared output buffer from a process: slot 2 swaps the
    /// caller's multi-touch buffer for the supplied one and hands the old
    /// one back. The slot is wired up only when multi-touch hardware is;
    /// every other slot is not supported. A caller whose record cannot be
    /// reached gets its buffer back with the failure.
    pub fn allow_readwrite(&mut self, appid: usize, allow_num: usize, slice: Vec<u8>) -> (r:
        Result<Vec<u8>, (Vec<u8>, ErrorCode)>)
        ensures
            final(self).touch == old(self).touch,
            final(self).multi_touch == old(self).multi_touch,
            final(self).screen == old(self).screen,
            final(self).screen_rotation_offset == old(self).screen_rotation_offset,
            allow_num == 2 && old(self).multi_touch is Some && appid < old(self).apps@.len()
                ==> r == Ok::<Vec<u8>, (Vec<u8>, ErrorCode)>(
                old(self).apps@[appid as int].events_buffer,
            ) && models(final(self).apps@) == models(old(self).apps@).update(
                appid as int,
                (AppModel { buffer: slice@, ..old(self).apps@[appid as int]@ }),
            ),
            allow_num == 2 && old(self).multi_touch is Some && appid >= old(self).apps@.len()
                ==> r == Err::<Vec<u8>, (Vec<u8>, ErrorCode)>((slice, ErrorCode::Fail))
                && final(self).apps == old(self).apps,
            !(allow_num == 2 && old(self).multi_touch is Some) ==> r == Err::<
                Vec<u8>,
                (Vec<u8>, ErrorCode),
            >((slice, ErrorCode::NoSupport)) && final(self).apps == old(self).apps,
    {
        if allow_num == 2 {
            if self.multi_touch.is_some() {
                if appid < self.apps.len() {
                    let mut s = slice;
                    let app = &mut self.apps[appid];
                    core::mem::swap(&mut app.events_buffer, &mut s);
                    proof {
                        assert(models(self.apps@) =~= models(old(self).apps@).update(
                            appid as int,
                            (AppModel {
                                buffer: slice@,
                                ..old(self).apps@[appid as int]@
                            }),
                        ));
                    }
                    Ok(s)
                } else {
                    Err((slice, ErrorCode::Fail))
                }
            } else {
                Err((slice, ErrorCode::NoSupport))
            }
        } else {
            Err((slice, ErrorCode::NoSupport))
        }
    }

    /// Execute one numeric command for the calling process.
    ///
    /// Opcode 0 probes for existence; 1/2 set and clear the caller's
    /// single-touch enable flag; 10 acknowledges the outstanding multi-touch
    /// batch; 11/12 set and clear the caller's multi-touch enable flag; 100
    /// queries the touch count. The enable commands re-sync the hardware
    /// state best-effort and succeed even without hardware, since the
    /// process-visible flag was updated; a caller whose record cannot be
    /// reached is a silent no-op. Unknown opcodes fail as not supported.
    pub fn command(
        &mut self,
        command_num: usize,
        _data1: usize,
        _data2: usize,
        processid: usize,
    ) -> (r: CommandReturn)
        ensures
            final(self).screen == old(self).screen,
            final(self).screen_rotation_offset == old(self).screen_rotation_offset,
            models(final(self).apps@) == command_apps_next(
                models(old(self).apps@),
                command_num as int,
                processid as int,
            ),
            final(self).touch == (if command_num == 1 || command_num == 2 {
                touch_hw_synced(old(self).touch, models(final(self).apps@))
            } else {
                old(self).touch
            }),
            final(self).multi_touch == (if command_num == 11 || command_num == 12 {
                multi_touch_hw_synced(old(self).multi_touch, models(final(self).apps@))
            } else {
                old(self).multi_touch
            }),
            r == command_result(command_num as int, old(self).touch, old(self).multi_touch),
    {
        match command_num {
            0 => CommandReturn::Success,
            1 => {
                if processid < self.apps.len() {
                    self.apps[processid].touch_enable = true;
                }
                proof {
                    assert(models(self.apps@) =~= set_touch_flag(
                        models(old(self).apps@),
                        processid as int,
                        true,
                    ));
                }
                let _ = self.touch_enable();
                CommandReturn::Success
            },
            2 => {
                if processid < self.apps.len() {
                    self.apps[processid].touch_enable = false;
                }
                proof {
                    assert(models(self.apps@) =~= set_touch_flag(
                        models(old(self).apps@),
                        processid as int,
                        false,
                    ));
                }
                let _ = self.touch_enable();
                CommandReturn::Success
            },
            10 => {
                if processid < self.apps.len() {
                    self.apps[processid].ack = true;
                }
                proof {
                    assert(models(self.apps@) =~= set_ack(
                        models(old(self).apps@),
                        processid as int,
                    ));
                }
                CommandReturn::Success
            },
            11 => {
                if processid < self.apps.len() {
                    self.apps[processid].multi_touch_enable = true;
                }
                proof {
                    assert(models(self.apps@) =~= set_multi_touch_flag(
                        models(old(self).apps@),
                        processid as int,
                        true,
                    ));
                }
                let _ = self.multi_touch_enable();
                CommandReturn::Success
            },
            12 => {
                if processid < self.apps.len() {
                    self.apps[processid].multi_touch_enable = false;
                }
                proof {
                    assert(models(self.apps@) =~= set_multi_touch_flag(
                        models(old(self).apps@),
                        processid as int,
                        false,
                    ));
                }
                let _ = self.multi_touch_enable();
                CommandReturn::Success
            },
            100 => {
                let num_touches: u32 = match self.multi_touch {
                    Option::Some(m) => m.num_touches,
                    Option::None => if self.touch.is_some() {
                        1
                    } else {
                        0
                    },
                };
                CommandReturn::SuccessU32(num_touches)
            },
            _ => CommandReturn::Failure(ErrorCode::NoSupport),
        }
    }
}

/// Reporting a sample absorbs it: the process's record then matches the
/// sample, so delivering the same transformed sample again is not a change.
pub proof fn lemma_event_absorbed(app: AppModel, p: (int, int), code: int)
    requires
        0 <= p.0 <= u16::MAX,
        0 <= p.1 <= u16::MAX,
        0 <= code <= usize::MAX,
    ensures
        !st_changed(st_app_next(app, p, code), p, code),
{
}

/// Processes whose records already match a sample are all skipped: the
/// sample schedules no notification at all.
pub proof fn lemma_unchanged_sample_notifies_nobody(
    apps: Seq<AppModel>,
    p: (int, int),
    code: int,
    size: Option<u8>,
    pressure: Option<u8>,
)
    requires
        forall|i: int| 0 <= i < apps.len() ==> !st_changed(#[trigger] apps[i], p, code),
    ensures
        st_notifs(apps, p, code, size, pressure) == Seq::<Notification>::empty(),
    decreases apps.len(),
{
    if apps.len() > 0 {
        lemma_unchanged_sample_notifies_nobody(apps.drop_last(), p, code, size, pressure);
    }
}

/// Deduplication: after a single-touch sample has been reported once, an
/// identical transformed sample notifies no process.
pub proof fn lemma_dedup(
    apps: Seq<AppModel>,
    p: (int, int),
    code: int,
    size: Option<u8>,
    pressure: Option<u8>,
)
    requires
        0 <= p.0 <= u16::MAX,
        0 <= p.1 <= u16::MAX,
        0 <= code <= usize::MAX,
    ensures
        st_notifs(
            apps.map_values(|a: AppModel| st_app_next(a, p, code)),
            p,
            code,
            size,
            pressure,
        ) == Seq::<Notification>::empty(),
{
    let stepped = apps.map_values(|a: AppModel| st_app_next(a, p, code));
    assert forall|i: int| 0 <= i < stepped.len() implies !st_changed(
        #[trigger] stepped[i],
        p,
        code,
    ) by {
        lemma_event_absorbed(apps[i], p, code);
    }
    lemma_unchanged_sample_notifies_nobody(stepped, p, code, size, pressure);
}

/// Re-arming: a sample that differs from the reported one in any of the
/// transformed position or the status code is a change again for every
/// process that just stored the reported one.
pub proof fn lemma_changed_field_rearms(
    app: AppModel,
    p1: (int, int),
    code1: int,
    p2: (int, int),
    code2: int,
)
    requires
        0 <= p1.0 <= u16::MAX,
        0 <= p1.1 <= u16::MAX,
        0 <= code1 <= usize::MAX,
        p1.0 != p2.0 || p1.1 != p2.1 || code1 != code2,
    ensures
        st_changed(st_app_next(app, p1, code1), p2, code2),
{
}

/// Backpressure: a delivered batch spends the credit and resets the dropped
/// counter; a process without the credit only counts the batch as dropped
/// and can receive nothing further until the acknowledge command re-arms it.
pub proof fn lemma_backpressure(
    app: AppModel,
    events: Seq<TouchEvent>,
    elen: int,
    screen: Option<Screen>,
    offset: ScreenRotation,
    elen2: int,
)
    requires
        app.dropped_events < usize::MAX,
    ensures
        mt_delivers(app, elen) ==> !mt_app_next(app, events, elen, screen, offset).ack,
        mt_delivers(app, elen) ==> mt_app_next(
            app,
            events,
            elen,
            screen,
            offset,
        ).dropped_events == 0,
        !app.ack ==> mt_app_next(app, events, elen, screen, offset).dropped_events
            == app.dropped_events + 1,
        !app.ack ==> !mt_delivers(mt_app_next(app, events, elen, screen, offset), elen2),
        mt_delivers(app, elen) ==> !mt_delivers(
            mt_app_next(app, events, elen, screen, offset),
            elen2,
        ),
{
}

/// A batch schedules no notification to processes without the credit or
/// without room for a single record.
pub proof fn lemma_no_credit_no_notification(apps: Seq<AppModel>, elen: int)
    requires
        forall|i: int| 0 <= i < apps.len() ==> !mt_delivers(#[trigger] apps[i], elen),
    ensures
        mt_notifs(apps, elen) == Seq::<Notification>::empty(),
    decreases apps.len(),
{
    if apps.len() > 0 {
        lemma_no_credit_no_notification(apps.drop_last(), elen);
    }
}

/// Aggregation: the synced hardware state is the disjunction of all
/// processes' flags. Enabling on one process enables the hardware whatever
/// the others request; disabling on one process disables it exactly when
/// every other process is also disabled, and it stays disabled until some
/// process re-enables.
pub proof fn lemma_enable_aggregation(apps: Seq<AppModel>, a: int, hw: TouchHardware)
    requires
        0 <= a < apps.len(),
    ensures
        touch_hw_synced(Some(hw), set_touch_flag(apps, a, true)) == Some(
            TouchHardware { enabled: true },
        ),
        (forall|i: int| 0 <= i < apps.len() && i != a ==> !(#[trigger] apps[i]).touch_enable)
            ==> touch_hw_synced(Some(hw), set_touch_flag(apps, a, false)) == Some(
            TouchHardware { enabled: false },
        ),
{
    let up = set_touch_flag(apps, a, true);
    assert(up[a].touch_enable);
    if forall|i: int| 0 <= i < apps.len() && i != a ==> !(#[trigger] apps[i]).touch_enable {
        let down = set_touch_flag(apps, a, false);
        assert forall|i: int| 0 <= i < down.len() implies !(#[trigger] down[i]).touch_enable by {}
        assert(!any_touch_enabled(down));
    }
}

/// Capacity: a batch of effective length `elen` delivers exactly
/// `min(elen, floor(buffer length / 8))` events to a process, every record
/// fits the buffer, and the delivery notification reports that count and
/// the non-negative truncated remainder.
pub proof fn lemma_capacity(i: int, app: AppModel, elen: int)
    requires
        0 <= i <= usize::MAX,
        0 <= elen <= usize::MAX,
    ensures
        0 <= mt_num(app, elen) <= elen,
        8 * mt_num(app, elen) <= app.buffer.len(),
        mt_num(app, elen) == (if elen <= app.buffer.len() as int / 8 {
            elen
        } else {
            app.buffer.len() as int / 8
        }),
        mt_notification(i, app, elen).arg0 == mt_num(app, elen),
        mt_notification(i, app, elen).arg2 == elen - mt_num(app, elen),
{
}

} // verus!
