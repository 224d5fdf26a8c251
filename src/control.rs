//! One pass of the control loop, as decisions on the device registries.
//!
//! The caller owns the loop and the hardware: it reads each sensor board and
//! hands the byte to `process_sensor_value`, writes the bytes that
//! `prepare_write` returns and confirms them with `commit_write`, tells the
//! engine when night begins or ends, and delivers the notices it collects.
use vstd::prelude::*;
use crate::device::{
    input_bit, input_bit_set, is_bit_on, is_valid_sensor_byte, set_bit_off, set_bit_on, bit_is_on,
    valid_sensor_byte, Relay, RelayBoard, RelayDevices, SensorBoard, SensorDevices, Yeelight,
    DS2408_INITIAL_STATE,
};
use crate::messages::{
    db_notice, task_views, CommandCode, Notice, NoticeView, OneWireTask, RfidTag, TaskCommand,
    TaskView,
};
use crate::rules::{has_tag, relay_excluded, relay_monitor_notices, sensor_step, tags_contain, MachineView, StateMachine};
use crate::text::same_text;
use crate::transition::{
    apply_event, event_next, is_flipflop_blocked, timer_expired, kind_of_code, kind_from_code, ActuatorState,
    HoldConfig, Outcome, RelayEvent, SensorKind,
};

verus! {

broadcast use vstd::std_specs::hash::group_hash_axioms;

// ------------------------------------------------------------ relay slots

/// A relay's state as the transition rules see it, with its output bit
/// read from `state`.
pub open spec fn actuator_of(r: Relay, state: u8, i: u8) -> ActuatorState {
    ActuatorState {
        on: is_bit_on(state, i),
        override_mode: r.override_mode,
        last_toggled: r.last_toggled,
        stop_after: r.stop_after,
    }
}

pub open spec fn config_of(r: Relay) -> HoldConfig {
    HoldConfig {
        pir_exclude: r.pir_exclude,
        pir_all_day: r.pir_all_day,
        pir_hold_ms: r.pir_hold_ms,
        switch_hold_ms: r.switch_hold_ms,
    }
}

/// The relay with the timer of `a`.
pub open spec fn with_actuator(r: Relay, a: ActuatorState) -> Relay {
    Relay {
        override_mode: a.override_mode,
        last_toggled: a.last_toggled,
        stop_after: a.stop_after,
        ..r
    }
}

/// `new` is `old` with its identity and last written byte kept.
pub open spec fn same_board(old: RelayBoard, new: RelayBoard) -> bool {
    &&& new.wf()
    &&& new.ow_family == old.ow_family
    &&& new.ow_address == old.ow_address
    &&& new.last_value == old.last_value
}

/// Slot `i` of `new` is slot `i` of `old` after event `e` (none: untouched).
pub open spec fn slot_after(
    old: RelayBoard,
    new: RelayBoard,
    i: u8,
    e: Option<RelayEvent>,
    now: u64,
) -> bool {
    match (old.relay@[i as int], e) {
        (Some(r), Some(ev)) => {
            let a = event_next(ev, actuator_of(r, old.staged(), i), config_of(r), now).0;
            new.relay@[i as int] == Some(with_actuator(r, a)) && is_bit_on(new.staged(), i) == a.on
        },
        _ => new.relay@[i as int] == old.relay@[i as int] && is_bit_on(new.staged(), i) == is_bit_on(
            old.staged(),
            i,
        ),
    }
}

proof fn lemma_slot_chain(a: RelayBoard, b: RelayBoard, c: RelayBoard, i: u8, e: Option<RelayEvent>, now: u64)
    requires
        (slot_after(a, b, i, e, now) && slot_after(b, c, i, None, now)) || (slot_after(
            a,
            b,
            i,
            None,
            now,
        ) && slot_after(b, c, i, e, now)),
    ensures
        slot_after(a, c, i, e, now),
{
}

/// Applies `e` to the relay in slot `i`, if there is one, and stages its
/// output bit. Returns the relay's id and what happened.
pub fn apply_slot(rb: &mut RelayBoard, i: u8, e: RelayEvent, now: u64) -> (r: Option<(i32, Outcome)>)
    requires
        old(rb).wf(),
        i < 8,
    ensures
        same_board(*old(rb), *final(rb)),
        slot_after(*old(rb), *final(rb), i, Some(e), now),
        forall|j: u8| j < 8 && j != i ==> slot_after(*old(rb), *final(rb), j, None, now),
        r == match old(rb).relay@[i as int] {
            Some(rel) => Some(
                (
                    rel.id_relay,
                    event_next(e, actuator_of(rel, old(rb).staged(), i), config_of(rel), now).1,
                ),
            ),
            None => None,
        },
{
    let state = rb.staged_state();
    let on = bit_is_on(state, i);
    let ghost before = *rb;
    let (result, turn) = match &mut rb.relay[i as usize] {
        Some(relay) => {
            let s = ActuatorState {
                on,
                override_mode: relay.override_mode,
                last_toggled: relay.last_toggled,
                stop_after: relay.stop_after,
            };
            let c = HoldConfig {
                pir_exclude: relay.pir_exclude,
                pir_all_day: relay.pir_all_day,
                pir_hold_ms: relay.pir_hold_ms,
                switch_hold_ms: relay.switch_hold_ms,
            };
            let (a, o) = apply_event(s, c, e, now);
            relay.override_mode = a.override_mode;
            relay.last_toggled = a.last_toggled;
            relay.stop_after = a.stop_after;
            (Some((relay.id_relay, o)), if a.on != on {
                Some(a.on)
            } else {
                None
            })
        },
        None => (None, None),
    };
    match turn {
        Some(true) => {
            rb.new_value = Some(set_bit_on(state, i));
        },
        Some(false) => {
            rb.new_value = Some(set_bit_off(state, i));
        },
        None => {},
    }
    result
}

// ------------------------------------------------------------ selections

/// Which event a whole-board operation sends to each relay.
#[derive(Clone, Copy, Debug, PartialEq, Eq, Structural)]
pub enum Selector {
    /// The auto-off sweep, to every relay.
    Sweep,
    /// The day/night switch, to relays tagged `all_night`.
    Night { night: bool },
    /// A sensor event, to the sensor's associated relays that accept it.
    Wire { kind: SensorKind, sensor_on: bool, night: bool },
}

/// The event relay `r` receives from `sel`; `assoc` lists the relays
/// associated with the sensor.
pub open spec fn selected_event(sel: Selector, assoc: Seq<i32>, r: Relay) -> Option<RelayEvent> {
    match sel {
        Selector::Sweep => Some(RelayEvent::Sweep),
        Selector::Night { night } => if has_tag(r.tags@, "all_night"@) {
            Some(RelayEvent::ForceNight { night })
        } else {
            None
        },
        Selector::Wire { kind, sensor_on, night } => if !assoc.contains(r.id_relay)
            || relay_excluded(kind, sensor_on, r.tags@, night) {
            None
        } else {
            match kind {
                SensorKind::PirTrigger => Some(RelayEvent::Motion { sensor_on, night }),
                SensorKind::Switch => Some(RelayEvent::Switch),
                SensorKind::Other => None,
            }
        },
    }
}

pub open spec fn slot_event(b: RelayBoard, i: u8, sel: Selector, assoc: Seq<i32>) -> Option<
    RelayEvent,
> {
    match b.relay@[i as int] {
        Some(r) => selected_event(sel, assoc, r),
        None => None,
    }
}

/// `new` is `old` after `sel` reached every slot.
pub open spec fn board_after(
    old: RelayBoard,
    new: RelayBoard,
    sel: Selector,
    assoc: Seq<i32>,
    now: u64,
) -> bool {
    &&& same_board(old, new)
    &&& forall|i: u8| i < 8 ==> slot_after(old, new, i, #[trigger] slot_event(old, i, sel, assoc), now)
}

/// Only the outbox of the context changed: `added` was appended to it.
pub open spec fn notified(old: StateMachine, new: StateMachine, added: Seq<NoticeView>) -> bool {
    &&& new@ == (MachineView { outbox: old@.outbox + added, ..old@ })
    &&& new.name == old.name
}

/// The metrics notice that counts one toggle of relay `id`.
pub open spec fn relay_counter(id: i32) -> NoticeView {
    db_notice_view(CommandCode::IncrementRelayCounter, id)
}

proof fn lemma_notified_none(a: StateMachine)
    ensures
        notified(a, a, Seq::empty()),
{
    assert(a@.outbox + Seq::empty() =~= a@.outbox);
}

proof fn lemma_notified_chain(
    a: StateMachine,
    b: StateMachine,
    c: StateMachine,
    x: Seq<NoticeView>,
    y: Seq<NoticeView>,
)
    requires
        notified(a, b, x),
        notified(b, c, y),
    ensures
        notified(a, c, x + y),
{
    assert(a@.outbox + x + y =~= a@.outbox + (x + y));
}

/// Sends one metrics notice.
fn notify_db(sm: &mut StateMachine, command: CommandCode, id: i32)
    ensures
        notified(*old(sm), *final(sm), seq![db_notice_view(command, id)]),
{
    sm.notify(db_notice(command, id));
    assert(old(sm)@.outbox.push(db_notice_view(command, id)) =~= old(sm)@.outbox + seq![
        db_notice_view(command, id),
    ]);
}

/// Metrics notices the relay hook sends for relay `r` under `sel`.
pub open spec fn hook_notices(sel: Selector, assoc: Seq<i32>, r: Relay) -> Seq<NoticeView> {
    match sel {
        Selector::Wire { kind, sensor_on, night } => if assoc.contains(r.id_relay)
            && !relay_excluded(kind, sensor_on, r.tags@, night) {
            relay_monitor_notices(r.tags@, sensor_on, r.id_relay)
        } else {
            Seq::empty()
        },
        _ => Seq::empty(),
    }
}

/// Which outcomes of a whole-board operation are counted there: the sweep
/// counts relays it switched off, the day/night change every relay it
/// drove; relays switched by a sensor are counted when written.
pub open spec fn counted(sel: Selector, o: Outcome) -> bool {
    match sel {
        Selector::Sweep => o == Outcome::TurnedOff,
        Selector::Night { .. } => true,
        Selector::Wire { .. } => false,
    }
}

/// The notices sent for slot `i` of board `b` under `sel`.
pub open spec fn slot_notices(b: RelayBoard, i: u8, sel: Selector, assoc: Seq<i32>, now: u64) -> Seq<
    NoticeView,
> {
    match b.relay@[i as int] {
        None => Seq::empty(),
        Some(r) => hook_notices(sel, assoc, r) + match selected_event(sel, assoc, r) {
            Some(e) => if counted(
                sel,
                event_next(e, actuator_of(r, b.staged(), i), config_of(r), now).1,
            ) {
                seq![relay_counter(r.id_relay)]
            } else {
                Seq::empty()
            },
            None => Seq::empty(),
        },
    }
}

/// The sweep counts a relay exactly when its timer has run out while its
/// bit was on, and sends nothing else for it.
pub proof fn lemma_sweep_counts_iff_on(b: RelayBoard, i: u8, now: u64)
    requires
        b.relay@[i as int] is Some,
    ensures
        ({
            let r = b.relay@[i as int]->0;
            slot_notices(b, i, Selector::Sweep, Seq::empty(), now) == if timer_expired(
                actuator_of(r, b.staged(), i),
                now,
            ) && is_bit_on(b.staged(), i) {
                seq![relay_counter(r.id_relay)]
            } else {
                Seq::empty()
            }
        }),
{
    let r = b.relay@[i as int]->0;
    assert(hook_notices(Selector::Sweep, Seq::empty(), r) =~= Seq::empty());
    assert(Seq::<NoticeView>::empty() + Seq::<NoticeView>::empty() =~= Seq::empty());
    assert(Seq::<NoticeView>::empty() + seq![relay_counter(r.id_relay)] =~= seq![
        relay_counter(r.id_relay),
    ]);
}

/// The notices sent for the first `n` slots of board `b`, in slot order.
pub open spec fn board_notices(b: RelayBoard, sel: Selector, assoc: Seq<i32>, now: u64, n: nat) -> Seq<
    NoticeView,
>
    decreases n,
{
    if n == 0 {
        Seq::empty()
    } else {
        board_notices(b, sel, assoc, now, (n - 1) as nat) + slot_notices(
            b,
            (n - 1) as u8,
            sel,
            assoc,
            now,
        )
    }
}

/// The notices sent for boards `bs`, in board order.
pub open spec fn boards_notices(bs: Seq<RelayBoard>, sel: Selector, assoc: Seq<i32>, now: u64) -> Seq<
    NoticeView,
>
    decreases bs.len(),
{
    if bs.len() == 0 {
        Seq::empty()
    } else {
        boards_notices(bs.drop_last(), sel, assoc, now) + board_notices(bs.last(), sel, assoc, now, 8)
    }
}

fn contains_id(ids: &Vec<i32>, id: i32) -> (r: bool)
    ensures
        r == ids@.contains(id),
{
    let mut k: usize = 0;
    while k < ids.len()
        invariant
            k <= ids@.len(),
            forall|j: int| 0 <= j < k ==> ids@[j] != id,
        decreases ids@.len() - k,
    {
        if ids[k] == id {
            return true;
        }
        k = k + 1;
    }
    false
}

/// Decides the event for slot `i` under `sel`, asking the relay hook for
/// sensor events.
fn choose_event(
    rb: &RelayBoard,
    i: u8,
    sel: Selector,
    assoc: &Vec<i32>,
    sm: &mut StateMachine,
    now: u64,
) -> (r: Option<RelayEvent>)
    requires
        rb.wf(),
        i < 8,
    ensures
        r == slot_event(*rb, i, sel, assoc@),
        notified(
            *old(sm),
            *final(sm),
            match rb.relay@[i as int] {
                Some(rel) => hook_notices(sel, assoc@, rel),
                None => Seq::empty(),
            },
        ),
{
    proof {
        lemma_notified_none(*sm);
    }
    match &rb.relay[i as usize] {
        Some(relay) => match sel {
            Selector::Sweep => Some(RelayEvent::Sweep),
            Selector::Night { night } => {
                if tags_contain(&relay.tags, "all_night") {
                    Some(RelayEvent::ForceNight { night })
                } else {
                    None
                }
            },
            Selector::Wire { kind, sensor_on, night } => {
                if !contains_id(assoc, relay.id_relay) {
                    return None;
                }
                let blocked = is_flipflop_blocked(relay.last_toggled, now);
                let go = sm.relay_hook(kind, sensor_on, &relay.tags, night, blocked, relay.id_relay);
                if !go {
                    assert(old(sm)@.outbox + Seq::empty() =~= old(sm)@.outbox);
                    return None;
                }
                match kind {
                    SensorKind::PirTrigger => Some(RelayEvent::Motion { sensor_on, night }),
                    SensorKind::Switch => Some(RelayEvent::Switch),
                    SensorKind::Other => None,
                }
            },
        },
        None => None,
    }
}

/// Sends `sel` to every slot of one board. Relays turned off by the sweep,
/// and relays switched by the day/night change, are counted.
pub fn apply_board(
    rb: &mut RelayBoard,
    sel: Selector,
    assoc: &Vec<i32>,
    sm: &mut StateMachine,
    now: u64,
)
    requires
        old(rb).wf(),
    ensures
        board_after(*old(rb), *final(rb), sel, assoc@, now),
        notified(*old(sm), *final(sm), board_notices(*old(rb), sel, assoc@, now, 8)),
{
    let ghost b0 = *rb;
    proof {
        lemma_notified_none(*sm);
    }
    let mut i: u8 = 0;
    while i < 8
        invariant
            i <= 8,
            same_board(b0, *rb),
            forall|j: u8| j < i ==> slot_after(b0, *rb, j, #[trigger] slot_event(b0, j, sel, assoc@), now),
            forall|j: u8| i <= j < 8 ==> #[trigger] slot_after(b0, *rb, j, None, now),
            notified(*old(sm), *sm, board_notices(b0, sel, assoc@, now, i as nat)),
        decreases 8 - i,
    {
        let ghost b1 = *rb;
        let ghost s1 = *sm;
        let ev = choose_event(rb, i, sel, assoc, sm, now);
        let ghost s2 = *sm;
        let ghost hook = match b0.relay@[i as int] {
            Some(rel) => hook_notices(sel, assoc@, rel),
            None => Seq::empty(),
        };
        proof {
            assert(slot_after(b0, b1, i, None, now));
            assert(ev == slot_event(b0, i, sel, assoc@));
            lemma_notified_chain(*old(sm), s1, s2, board_notices(b0, sel, assoc@, now, i as nat), hook);
        }
        let ghost mut count: Seq<NoticeView> = Seq::empty();
        proof {
            lemma_notified_none(*sm);
        }
        match ev {
            Some(e) => {
                let res = apply_slot(rb, i, e, now);
                let counted_id = match (sel, res) {
                    (Selector::Sweep, Some((id, Outcome::TurnedOff))) => Some(id),
                    (Selector::Night { .. }, Some((id, _))) => Some(id),
                    _ => None,
                };
                match counted_id {
                    Some(id) => {
                        notify_db(sm, CommandCode::IncrementRelayCounter, id);
                        proof {
                            count = seq![relay_counter(id)];
                        }
                    },
                    None => {},
                }
                proof {
                    assert forall|j: u8| j < i + 1 implies slot_after(
                        b0,
                        *rb,
                        j,
                        #[trigger] slot_event(b0, j, sel, assoc@),
                        now,
                    ) by {
                        if j < i {
                            lemma_slot_chain(b0, b1, *rb, j, slot_event(b0, j, sel, assoc@), now);
                        } else {
                            lemma_slot_chain(b0, b1, *rb, j, Some(e), now);
                        }
                    }
                    assert forall|j: u8| i + 1 <= j < 8 implies #[trigger] slot_after(
                        b0,
                        *rb,
                        j,
                        None,
                        now,
                    ) by {
                        lemma_slot_chain(b0, b1, *rb, j, None, now);
                    }
                }
            },
            None => {},
        }
        proof {
            assert(slot_notices(b0, i, sel, assoc@, now) == hook + count);
            lemma_notified_chain(
                *old(sm),
                s2,
                *sm,
                board_notices(b0, sel, assoc@, now, i as nat) + hook,
                count,
            );
            assert(board_notices(b0, sel, assoc@, now, (i + 1) as nat) =~= board_notices(
                b0,
                sel,
                assoc@,
                now,
                i as nat,
            ) + hook + count);
        }
        i = i + 1;
    }
}

/// Sends `sel` to every relay board.
pub fn apply_boards(
    devices: &mut RelayDevices,
    sel: Selector,
    assoc: &Vec<i32>,
    sm: &mut StateMachine,
    now: u64,
)
    requires
        old(devices).wf(),
    ensures
        final(devices).wf(),
        final(devices).yeelight@ == old(devices).yeelight@,
        final(devices).relay_boards@.len() == old(devices).relay_boards@.len(),
        forall|b: int|
            0 <= b < old(devices).relay_boards@.len() ==> board_after(
                #[trigger] old(devices).relay_boards@[b],
                final(devices).relay_boards@[b],
                sel,
                assoc@,
                now,
            ),
        notified(*old(sm), *final(sm), boards_notices(old(devices).relay_boards@, sel, assoc@, now)),
{
    proof {
        lemma_notified_none(*sm);
    }
    let n = devices.relay_boards.len();
    let mut k: usize = 0;
    while k < n
        invariant
            k <= n == devices.relay_boards@.len() == old(devices).relay_boards@.len(),
            devices.wf(),
            devices.yeelight@ == old(devices).yeelight@,
            forall|b: int|
                0 <= b < k ==> board_after(
                    #[trigger] old(devices).relay_boards@[b],
                    devices.relay_boards@[b],
                    sel,
                    assoc@,
                    now,
                ),
            forall|b: int|
                k <= b < n ==> #[trigger] devices.relay_boards@[b] == old(devices).relay_boards@[b],
            notified(
                *old(sm),
                *sm,
                boards_notices(old(devices).relay_boards@.subrange(0, k as int), sel, assoc@, now),
            ),
        decreases n - k,
    {
        let ghost s1 = *sm;
        apply_board(&mut devices.relay_boards[k], sel, assoc, sm, now);
        proof {
            let bs = old(devices).relay_boards@;
            assert(bs.subrange(0, k + 1).drop_last() =~= bs.subrange(0, k as int));
            lemma_notified_chain(
                *old(sm),
                s1,
                *sm,
                boards_notices(bs.subrange(0, k as int), sel, assoc@, now),
                board_notices(bs[k as int], sel, assoc@, now, 8),
            );
        }
        k = k + 1;
    }
    assert(old(devices).relay_boards@.subrange(0, n as int) =~= old(devices).relay_boards@);
}

// ------------------------------------------------------------ queued tasks

/// A task concerns a relay by its id, or, without an id, by a tag it carries.
pub open spec fn task_matches(t: TaskView, r: Relay) -> bool {
    match t.id_relay {
        Some(id) => r.id_relay == id,
        None => match t.tag_group {
            Some(g) => has_tag(r.tags@, g),
            None => false,
        },
    }
}

/// The event a task stands for; a night-only task is void by day.
pub open spec fn task_event(t: TaskView, night: bool) -> Option<RelayEvent> {
    match t.command {
        TaskCommand::TurnOnProlong => Some(RelayEvent::TurnOnProlong { duration: t.duration }),
        TaskCommand::TurnOnProlongNight => if night {
            Some(RelayEvent::TurnOnProlong { duration: t.duration })
        } else {
            None
        },
        TaskCommand::TurnOff => Some(RelayEvent::TurnOff),
    }
}

/// The state of relay `r` after the tasks that concern it, in queue order.
pub open spec fn tasks_fold(
    tasks: Seq<TaskView>,
    r: Relay,
    a: ActuatorState,
    night: bool,
    now: u64,
) -> ActuatorState
    decreases tasks.len(),
{
    if tasks.len() == 0 {
        a
    } else {
        let p = tasks_fold(tasks.drop_last(), r, a, night, now);
        let t = tasks.last();
        if task_matches(t, r) {
            match task_event(t, night) {
                Some(e) => event_next(e, p, config_of(r), now).0,
                None => p,
            }
        } else {
            p
        }
    }
}

/// Slot `i` of `new` is slot `i` of `old` after the queued tasks.
pub open spec fn slot_after_tasks(
    old: RelayBoard,
    new: RelayBoard,
    i: u8,
    tasks: Seq<TaskView>,
    night: bool,
    now: u64,
) -> bool {
    match old.relay@[i as int] {
        Some(r) => {
            let a = tasks_fold(tasks, r, actuator_of(r, old.staged(), i), night, now);
            new.relay@[i as int] == Some(with_actuator(r, a)) && is_bit_on(new.staged(), i) == a.on
        },
        None => new.relay@[i as int] == old.relay@[i as int] && is_bit_on(new.staged(), i)
            == is_bit_on(old.staged(), i),
    }
}

proof fn lemma_tasks_chain(
    a: RelayBoard,
    b: RelayBoard,
    c: RelayBoard,
    i: u8,
    tasks: Seq<TaskView>,
    night: bool,
    now: u64,
)
    requires
        (slot_after_tasks(a, b, i, tasks, night, now) && slot_after(b, c, i, None, now)) || (
        slot_after(a, b, i, None, now) && slot_after_tasks(b, c, i, tasks, night, now)),
    ensures
        slot_after_tasks(a, c, i, tasks, night, now),
{
}

/// External requests count a relay when they turn it on or off.
pub open spec fn task_counted(o: Outcome) -> bool {
    o == Outcome::TurnedOn || o == Outcome::TurnedOff
}

/// The counter notices the tasks send for relay `r`, starting in state `a`.
pub open spec fn tasks_notices(
    tasks: Seq<TaskView>,
    r: Relay,
    a: ActuatorState,
    night: bool,
    now: u64,
) -> Seq<NoticeView>
    decreases tasks.len(),
{
    if tasks.len() == 0 {
        Seq::empty()
    } else {
        let p = tasks_fold(tasks.drop_last(), r, a, night, now);
        let prev = tasks_notices(tasks.drop_last(), r, a, night, now);
        let t = tasks.last();
        if task_matches(t, r) {
            match task_event(t, night) {
                Some(e) => if task_counted(event_next(e, p, config_of(r), now).1) {
                    prev + seq![relay_counter(r.id_relay)]
                } else {
                    prev
                },
                None => prev,
            }
        } else {
            prev
        }
    }
}

pub open spec fn slot_task_notices(
    b: RelayBoard,
    i: u8,
    tasks: Seq<TaskView>,
    night: bool,
    now: u64,
) -> Seq<NoticeView> {
    match b.relay@[i as int] {
        Some(r) => tasks_notices(tasks, r, actuator_of(r, b.staged(), i), night, now),
        None => Seq::empty(),
    }
}

/// The notices the tasks send for the first `n` slots of board `b`.
pub open spec fn board_task_notices(
    b: RelayBoard,
    tasks: Seq<TaskView>,
    night: bool,
    now: u64,
    n: nat,
) -> Seq<NoticeView>
    decreases n,
{
    if n == 0 {
        Seq::empty()
    } else {
        board_task_notices(b, tasks, night, now, (n - 1) as nat) + slot_task_notices(
            b,
            (n - 1) as u8,
            tasks,
            night,
            now,
        )
    }
}

/// The notices the tasks send for boards `bs`, in board order.
pub open spec fn boards_task_notices(
    bs: Seq<RelayBoard>,
    tasks: Seq<TaskView>,
    night: bool,
    now: u64,
) -> Seq<NoticeView>
    decreases bs.len(),
{
    if bs.len() == 0 {
        Seq::empty()
    } else {
        boards_task_notices(bs.drop_last(), tasks, night, now) + board_task_notices(
            bs.last(),
            tasks,
            night,
            now,
            8,
        )
    }
}

fn task_matches_exec(t: &OneWireTask, r: &Relay) -> (b: bool)
    ensures
        b == task_matches(t@, *r),
{
    match t.id_relay {
        Some(id) => r.id_relay == id,
        None => match &t.tag_group {
            Some(g) => tags_contain(&r.tags, g.as_str()),
            None => false,
        },
    }
}

fn task_event_exec(t: &OneWireTask, night: bool) -> (r: Option<RelayEvent>)
    ensures
        r == task_event(t@, night),
{
    match t.command {
        TaskCommand::TurnOnProlong => Some(RelayEvent::TurnOnProlong { duration: t.duration }),
        TaskCommand::TurnOnProlongNight => if night {
            Some(RelayEvent::TurnOnProlong { duration: t.duration })
        } else {
            None
        },
        TaskCommand::TurnOff => Some(RelayEvent::TurnOff),
    }
}

/// Runs the queued tasks on the relay in slot `i`; turning it on or off is
/// counted.
fn apply_tasks_slot(
    rb: &mut RelayBoard,
    i: u8,
    tasks: &Vec<OneWireTask>,
    night: bool,
    sm: &mut StateMachine,
    now: u64,
)
    requires
        old(rb).wf(),
        i < 8,
    ensures
        same_board(*old(rb), *final(rb)),
        slot_after_tasks(*old(rb), *final(rb), i, task_views(tasks@), night, now),
        forall|j: u8| j < 8 && j != i ==> slot_after(*old(rb), *final(rb), j, None, now),
        notified(*old(sm), *final(sm), slot_task_notices(*old(rb), i, task_views(tasks@), night, now)),
{
    let ghost b0 = *rb;
    proof {
        lemma_notified_none(*sm);
    }
    let mut k: usize = 0;
    while k < tasks.len()
        invariant
            i < 8,
            k <= tasks@.len(),
            same_board(b0, *rb),
            slot_after_tasks(b0, *rb, i, task_views(tasks@).subrange(0, k as int), night, now),
            forall|j: u8| j < 8 && j != i ==> slot_after(b0, *rb, j, None, now),
            notified(
                *old(sm),
                *sm,
                slot_task_notices(b0, i, task_views(tasks@).subrange(0, k as int), night, now),
            ),
        decreases tasks@.len() - k,
    {
        let ghost b1 = *rb;
        let ghost s1 = *sm;
        assert(task_views(tasks@).subrange(0, k + 1).drop_last() =~= task_views(tasks@).subrange(
            0,
            k as int,
        ));
        assert(task_views(tasks@).subrange(0, k + 1).last() == tasks@[k as int]@);
        let ev = match &rb.relay[i as usize] {
            Some(relay) => if task_matches_exec(&tasks[k], relay) {
                task_event_exec(&tasks[k], night)
            } else {
                None
            },
            None => None,
        };
        match ev {
            Some(e) => {
                let res = apply_slot(rb, i, e, now);
                match res {
                    Some((id, Outcome::TurnedOn)) | Some((id, Outcome::TurnedOff)) => {
                        notify_db(sm, CommandCode::IncrementRelayCounter, id);
                        proof {
                            lemma_notified_chain(
                                *old(sm),
                                s1,
                                *sm,
                                slot_task_notices(
                                    b0,
                                    i,
                                    task_views(tasks@).subrange(0, k as int),
                                    night,
                                    now,
                                ),
                                seq![relay_counter(id)],
                            );
                        }
                    },
                    _ => {},
                }
                proof {
                    assert forall|j: u8| j < 8 && j != i implies slot_after(b0, *rb, j, None, now) by {
                        lemma_slot_chain(b0, b1, *rb, j, None, now);
                    }
                }
            },
            None => {},
        }
        k = k + 1;
    }
    assert(task_views(tasks@).subrange(0, k as int) =~= task_views(tasks@));
}

/// Runs the queued tasks on every relay of one board.
pub fn apply_tasks_board(
    rb: &mut RelayBoard,
    tasks: &Vec<OneWireTask>,
    night: bool,
    sm: &mut StateMachine,
    now: u64,
)
    requires
        old(rb).wf(),
    ensures
        same_board(*old(rb), *final(rb)),
        forall|i: u8|
            i < 8 ==> #[trigger] slot_after_tasks(
                *old(rb),
                *final(rb),
                i,
                task_views(tasks@),
                night,
                now,
            ),
        notified(*old(sm), *final(sm), board_task_notices(*old(rb), task_views(tasks@), night, now, 8)),
{
    let ghost b0 = *rb;
    proof {
        lemma_notified_none(*sm);
    }
    let mut i: u8 = 0;
    while i < 8
        invariant
            i <= 8,
            same_board(b0, *rb),
            forall|j: u8| j < i ==> #[trigger] slot_after_tasks(b0, *rb, j, task_views(tasks@), night, now),
            forall|j: u8| i <= j < 8 ==> #[trigger] slot_after(b0, *rb, j, None, now),
            notified(*old(sm), *sm, board_task_notices(b0, task_views(tasks@), night, now, i as nat)),
        decreases 8 - i,
    {
        let ghost b1 = *rb;
        let ghost s1 = *sm;
        apply_tasks_slot(rb, i, tasks, night, sm, now);
        proof {
            assert(slot_after(b0, b1, i, None, now));
            assert(slot_task_notices(b1, i, task_views(tasks@), night, now) == slot_task_notices(
                b0,
                i,
                task_views(tasks@),
                night,
                now,
            ));
            lemma_notified_chain(
                *old(sm),
                s1,
                *sm,
                board_task_notices(b0, task_views(tasks@), night, now, i as nat),
                slot_task_notices(b0, i, task_views(tasks@), night, now),
            );
            assert forall|j: u8| j < i + 1 implies #[trigger] slot_after_tasks(
                b0,
                *rb,
                j,
                task_views(tasks@),
                night,
                now,
            ) by {
                lemma_tasks_chain(b0, b1, *rb, j, task_views(tasks@), night, now);
            }
            assert forall|j: u8| i + 1 <= j < 8 implies #[trigger] slot_after(b0, *rb, j, None, now) by {
                lemma_slot_chain(b0, b1, *rb, j, None, now);
            }
        }
        i = i + 1;
    }
}

// ------------------------------------------------------------ smart lights

pub open spec fn light_state(y: Yeelight) -> ActuatorState {
    ActuatorState {
        on: y.powered_on,
        override_mode: y.override_mode,
        last_toggled: y.last_toggled,
        stop_after: y.stop_after,
    }
}

pub open spec fn light_config(y: Yeelight) -> HoldConfig {
    HoldConfig {
        pir_exclude: y.pir_exclude,
        pir_all_day: y.pir_all_day,
        pir_hold_ms: y.pir_hold_ms,
        switch_hold_ms: y.switch_hold_ms,
    }
}

/// The light after event `e`. A light is switched at once, so a change of
/// power stamps its toggle time, except in the sweep, which clears it.
pub open spec fn light_after(y: Yeelight, e: RelayEvent, now: u64) -> Yeelight {
    let a = event_next(e, light_state(y), light_config(y), now).0;
    let stamp = a.on != y.powered_on && e != RelayEvent::Sweep;
    Yeelight {
        powered_on: a.on,
        override_mode: a.override_mode,
        stop_after: a.stop_after,
        last_toggled: if stamp {
            Some(now)
        } else {
            a.last_toggled
        },
        ..y
    }
}

/// The event light `y` receives from `sel`: sensor events reach the
/// associated lights, the sweep reaches all of them, the day/night change
/// none.
pub open spec fn light_event(sel: Selector, assoc: Seq<i32>, y: Yeelight) -> Option<RelayEvent> {
    match sel {
        Selector::Sweep => Some(RelayEvent::Sweep),
        Selector::Night { .. } => None,
        Selector::Wire { kind, sensor_on, night } => if assoc.contains(y.id_yeelight) {
            match kind {
                SensorKind::PirTrigger => Some(RelayEvent::Motion { sensor_on, night }),
                SensorKind::Switch => Some(RelayEvent::Switch),
                SensorKind::Other => None,
            }
        } else {
            None
        },
    }
}

/// The notices for light `y` under event `e`: a power command when its
/// power changes, and a counter when it turned on, toggled or turned off.
pub open spec fn light_notices(y: Yeelight, e: RelayEvent, now: u64) -> Seq<NoticeView> {
    let r = event_next(e, light_state(y), light_config(y), now);
    (if r.0.on != y.powered_on {
        seq![NoticeView::Yeelight { name: y.name@, ip_address: y.ip_address@, turn_on: r.0.on }]
    } else {
        Seq::empty()
    }) + (if r.1 == Outcome::TurnedOn || r.1 == Outcome::Toggled || r.1 == Outcome::TurnedOff {
        seq![db_notice_view(CommandCode::IncrementYeelightCounter, y.id_yeelight)]
    } else {
        Seq::empty()
    })
}

/// The notices for lights `ys` under `sel`, in order.
pub open spec fn lights_notices(ys: Seq<Yeelight>, sel: Selector, assoc: Seq<i32>, now: u64) -> Seq<
    NoticeView,
>
    decreases ys.len(),
{
    if ys.len() == 0 {
        Seq::empty()
    } else {
        lights_notices(ys.drop_last(), sel, assoc, now) + match light_event(sel, assoc, ys.last()) {
            Some(e) => light_notices(ys.last(), e, now),
            None => Seq::empty(),
        }
    }
}

/// Applies `e` to a light. A change of power is sent as a notice; turning
/// on, toggling and turning off are counted.
pub fn apply_light(y: &mut Yeelight, e: RelayEvent, sm: &mut StateMachine, now: u64) -> (r: Outcome)
    ensures
        *final(y) == light_after(*old(y), e, now),
        r == event_next(e, light_state(*old(y)), light_config(*old(y)), now).1,
        notified(*old(sm), *final(sm), light_notices(*old(y), e, now)),
{
    proof {
        lemma_notified_none(*sm);
    }
    let s = ActuatorState {
        on: y.powered_on,
        override_mode: y.override_mode,
        last_toggled: y.last_toggled,
        stop_after: y.stop_after,
    };
    let c = HoldConfig {
        pir_exclude: y.pir_exclude,
        pir_all_day: y.pir_all_day,
        pir_hold_ms: y.pir_hold_ms,
        switch_hold_ms: y.switch_hold_ms,
    };
    let (a, o) = apply_event(s, c, e, now);
    let changed = a.on != y.powered_on;
    y.powered_on = a.on;
    y.override_mode = a.override_mode;
    y.stop_after = a.stop_after;
    y.last_toggled = if changed && e != RelayEvent::Sweep {
        Some(now)
    } else {
        a.last_toggled
    };
    let ghost first: Seq<NoticeView> = if changed {
        seq![NoticeView::Yeelight { name: y.name@, ip_address: y.ip_address@, turn_on: a.on }]
    } else {
        Seq::empty()
    };
    if changed {
        let ghost s1 = *sm;
        sm.notify(
            Notice::Yeelight {
                name: y.name.clone(),
                ip_address: y.ip_address.clone(),
                turn_on: a.on,
            },
        );
        assert(s1@.outbox.push(first[0]) =~= s1@.outbox + first);
    }
    let ghost s2 = *sm;
    match o {
        Outcome::TurnedOn | Outcome::Toggled | Outcome::TurnedOff => {
            notify_db(sm, CommandCode::IncrementYeelightCounter, y.id_yeelight);
            proof {
                lemma_notified_chain(
                    *old(sm),
                    s2,
                    *sm,
                    first,
                    seq![db_notice_view(CommandCode::IncrementYeelightCounter, y.id_yeelight)],
                );
            }
        },
        _ => {
            assert(old(sm)@.outbox + first + Seq::empty() =~= old(sm)@.outbox + first);
        },
    }
    o
}

/// Sends `sel` to every light.
pub fn apply_lights(
    devices: &mut RelayDevices,
    sel: Selector,
    assoc: &Vec<i32>,
    sm: &mut StateMachine,
    now: u64,
)
    ensures
        final(devices).relay_boards@ == old(devices).relay_boards@,
        final(devices).yeelight@.len() == old(devices).yeelight@.len(),
        forall|k: int|
            0 <= k < old(devices).yeelight@.len() ==> final(devices).yeelight@[k] == match light_event(
                sel,
                assoc@,
                #[trigger] old(devices).yeelight@[k],
            ) {
                Some(e) => light_after(old(devices).yeelight@[k], e, now),
                None => old(devices).yeelight@[k],
            },
        notified(*old(sm), *final(sm), lights_notices(old(devices).yeelight@, sel, assoc@, now)),
{
    proof {
        lemma_notified_none(*sm);
    }
    let n = devices.yeelight.len();
    let mut k: usize = 0;
    while k < n
        invariant
            k <= n == devices.yeelight@.len() == old(devices).yeelight@.len(),
            devices.relay_boards@ == old(devices).relay_boards@,
            forall|j: int|
                0 <= j < k ==> devices.yeelight@[j] == match light_event(
                    sel,
                    assoc@,
                    #[trigger] old(devices).yeelight@[j],
                ) {
                    Some(e) => light_after(old(devices).yeelight@[j], e, now),
                    None => old(devices).yeelight@[j],
                },
            forall|j: int| k <= j < n ==> #[trigger] devices.yeelight@[j] == old(devices).yeelight@[j],
            notified(
                *old(sm),
                *sm,
                lights_notices(old(devices).yeelight@.subrange(0, k as int), sel, assoc@, now),
            ),
        decreases n - k,
    {
        let ghost s0 = *sm;
        let ghost ys = old(devices).yeelight@;
        assert(ys.subrange(0, k + 1).drop_last() =~= ys.subrange(0, k as int));
        let ev = match sel {
            Selector::Sweep => Some(RelayEvent::Sweep),
            Selector::Night { .. } => None,
            Selector::Wire { kind, sensor_on, night } => {
                if contains_id(assoc, devices.yeelight[k].id_yeelight) {
                    let light = &devices.yeelight[k];
                    let blocked = is_flipflop_blocked(light.last_toggled, now);
                    let go = sm.yeelight_hook(kind, sensor_on, &light.tags, night, blocked);
                    if go {
                        match kind {
                            SensorKind::PirTrigger => Some(RelayEvent::Motion { sensor_on, night }),
                            SensorKind::Switch => Some(RelayEvent::Switch),
                            SensorKind::Other => None,
                        }
                    } else {
                        None
                    }
                } else {
                    None
                }
            },
        };
        match ev {
            Some(e) => {
                apply_light(&mut devices.yeelight[k], e, sm, now);
                proof {
                    lemma_notified_chain(
                        *old(sm),
                        s0,
                        *sm,
                        lights_notices(ys.subrange(0, k as int), sel, assoc@, now),
                        light_notices(ys[k as int], e, now),
                    );
                }
            },
            None => {
                assert(lights_notices(ys.subrange(0, k + 1), sel, assoc@, now) =~= lights_notices(
                    ys.subrange(0, k as int),
                    sel,
                    assoc@,
                    now,
                ) + Seq::empty());
            },
        }
        k = k + 1;
    }
    assert(old(devices).yeelight@.subrange(0, n as int) =~= old(devices).yeelight@);
}

// ------------------------------------------------------------ writing

/// The byte last written to a board, or all off before the first write.
pub open spec fn written(rb: RelayBoard) -> u8 {
    match rb.last_value {
        Some(v) => v,
        None => DS2408_INITIAL_STATE,
    }
}

/// The counters for the first `n` relays of board `b` whose bit differs
/// between `v` and the byte last written.
pub open spec fn write_notices(b: RelayBoard, v: u8, n: nat) -> Seq<NoticeView>
    decreases n,
{
    if n == 0 {
        Seq::empty()
    } else {
        let i = (n - 1) as u8;
        write_notices(b, v, (n - 1) as nat) + match b.relay@[i as int] {
            Some(rel) => if is_bit_on(v, i) != is_bit_on(written(b), i) {
                seq![relay_counter(rel.id_relay)]
            } else {
                Seq::empty()
            },
            None => Seq::empty(),
        }
    }
}

/// The notices `prepare_write` sends: with `stamp`, a counter for each relay
/// that the write toggles.
pub open spec fn write_sent(b: RelayBoard, stamp: bool) -> Seq<NoticeView> {
    match b.new_value {
        Some(v) => if stamp && v != written(b) {
            write_notices(b, v, 8)
        } else {
            Seq::empty()
        },
        None => Seq::empty(),
    }
}

/// Decides what to write to a board. A staged byte equal to the written
/// one is dropped; a different one is returned for writing, and, with
/// `stamp`, each relay whose bit changes gets its toggle time set and is
/// counted.
pub fn prepare_write(rb: &mut RelayBoard, stamp: bool, sm: &mut StateMachine, now: u64) -> (r:
    Option<u8>)
    requires
        old(rb).wf(),
    ensures
        final(rb).wf(),
        final(rb).ow_family == old(rb).ow_family,
        final(rb).ow_address == old(rb).ow_address,
        final(rb).last_value == old(rb).last_value,
        notified(*old(sm), *final(sm), write_sent(*old(rb), stamp)),
        match old(rb).new_value {
            None => r is None && *final(rb) == *old(rb),
            Some(v) => if v == written(*old(rb)) {
                r is None && final(rb).new_value is None && final(rb).relay@ == old(rb).relay@
            } else {
                &&& r == Some(v)
                &&& final(rb).new_value == old(rb).new_value
                &&& forall|i: u8|
                    i < 8 ==> #[trigger] final(rb).relay@[i as int] == match old(rb).relay@[i as int] {
                        Some(rel) => if stamp && is_bit_on(v, i) != is_bit_on(written(*old(rb)), i) {
                            Some(Relay { last_toggled: Some(now), ..rel })
                        } else {
                            Some(rel)
                        },
                        None => None,
                    }
            },
        },
{
    proof {
        lemma_notified_none(*sm);
    }
    let v = match rb.new_value {
        Some(v) => v,
        None => {
            return None;
        },
    };
    let base = match rb.last_value {
        Some(l) => l,
        None => DS2408_INITIAL_STATE,
    };
    if v == base {
        rb.new_value = None;
        return None;
    }
    if stamp {
        let ghost b0 = *rb;
        let mut i: u8 = 0;
        while i < 8
            invariant
                i <= 8,
                rb.wf(),
                rb.ow_family == b0.ow_family,
                rb.ow_address == b0.ow_address,
                rb.last_value == b0.last_value,
                rb.new_value == b0.new_value,
                b0.new_value == Some(v),
                base == written(b0),
                forall|j: u8|
                    j < i ==> #[trigger] rb.relay@[j as int] == match b0.relay@[j as int] {
                        Some(rel) => if is_bit_on(v, j) != is_bit_on(base, j) {
                            Some(Relay { last_toggled: Some(now), ..rel })
                        } else {
                            Some(rel)
                        },
                        None => None,
                    },
                forall|j: u8| i <= j < 8 ==> #[trigger] rb.relay@[j as int] == b0.relay@[j as int],
                notified(*old(sm), *sm, write_notices(b0, v, i as nat)),
            decreases 8 - i,
        {
            let ghost s1 = *sm;
            let ghost step: Seq<NoticeView> = match b0.relay@[i as int] {
                Some(rel) => if is_bit_on(v, i) != is_bit_on(written(b0), i) {
                    seq![relay_counter(rel.id_relay)]
                } else {
                    Seq::empty()
                },
                None => Seq::empty(),
            };
            assert(write_notices(b0, v, (i + 1) as nat) == write_notices(b0, v, i as nat) + step);
            if bit_is_on(v, i) != bit_is_on(base, i) {
                match &mut rb.relay[i as usize] {
                    Some(relay) => {
                        relay.last_toggled = Some(now);
                        let id = relay.id_relay;
                        notify_db(sm, CommandCode::IncrementRelayCounter, id);
                        proof {
                            lemma_notified_chain(*old(sm), s1, *sm, write_notices(b0, v, i as nat), step);
                        }
                    },
                    None => {
                        assert(write_notices(b0, v, i as nat) + step =~= write_notices(b0, v, i as nat));
                    },
                }
            } else {
                assert(write_notices(b0, v, i as nat) + step =~= write_notices(b0, v, i as nat));
            }
            i = i + 1;
        }
    }
    Some(v)
}

/// Records that `v` was written to the board.
pub fn commit_write(rb: &mut RelayBoard, v: u8)
    ensures
        *final(rb) == (RelayBoard { last_value: Some(v), new_value: None, ..*old(rb) }),
{
    rb.last_value = Some(v);
    rb.new_value = None;
}

// ------------------------------------------------------------ the engine

/// The device-automation engine: registries, rule context, the tasks queued
/// for this pass, and whether it is night.
pub struct OneWire {
    pub name: String,
    pub sensor_devices: SensorDevices,
    pub relay_devices: RelayDevices,
    pub state_machine: StateMachine,
    pub pending_tasks: Vec<OneWireTask>,
    pub night: bool,
}

/// Resolves a sensor's kind id through the kind table.
pub fn lookup_kind(kinds: &std::collections::HashMap<i32, String>, id_kind: i32) -> (r: Option<
    SensorKind,
>)
    ensures
        kinds@.contains_key(id_kind) ==> r == Some(kind_of_code(kinds@[id_kind]@)),
        !kinds@.contains_key(id_kind) ==> r is None,
{
    match kinds.get(&id_kind) {
        Some(code) => Some(kind_from_code(code.as_str())),
        None => None,
    }
}

/// The frame kept by the steps of a pass: the sensor side, the night flag
/// and the shape of the relay side do not change.
pub open spec fn pass_frame(old: OneWire, new: OneWire) -> bool {
    &&& new.name == old.name
    &&& new.night == old.night
    &&& new.sensor_devices == old.sensor_devices
    &&& new.relay_devices.wf()
    &&& new.relay_devices.relay_boards@.len() == old.relay_devices.relay_boards@.len()
    &&& new.relay_devices.yeelight@.len() == old.relay_devices.yeelight@.len()
    &&& new.state_machine.name == old.state_machine.name
}

/// `n` is `o` after the first read `value` of sensor board `board`, as
/// input `bit` sees it: the rules see the sensor's state for bookkeeping
/// (metrics, cesspool probes) and nothing else changes.
pub open spec fn sensor_initial_after(
    o: OneWire,
    n: OneWire,
    board: int,
    bit: u8,
    value: u8,
    now: u64,
) -> bool {
    let sb = o.sensor_devices.sensor_boards@[board];
    let slot = if bit == 0 {
        sb.pio_a
    } else {
        sb.pio_b
    };
    let kinds = o.sensor_devices.kinds@;
    if slot is None || !kinds.contains_key(slot->0.id_kind) {
        n == o
    } else {
        let sensor = slot->0;
        let step = sensor_step(
            o.state_machine@,
            task_views(o.pending_tasks@),
            kind_of_code(kinds[sensor.id_kind]@),
            sensor.name@,
            input_bit_set(value, bit),
            sensor.tags@,
            o.night,
            true,
            sensor.id_sensor,
            now,
        );
        &&& pass_frame(o, n)
        &&& n.relay_devices == o.relay_devices
        &&& n.state_machine@ == step.0
        &&& task_views(n.pending_tasks@) == step.1
    }
}

/// `n` is `o` after input `bit` of sensor board `board` went from `last` to
/// `value`: the sensor (if any) is counted; if its kind is known the rules
/// run (`sensor_step`), and unless they stop the event it reaches the
/// sensor's associated relays and lights.
pub open spec fn sensor_change_after(
    o: OneWire,
    n: OneWire,
    board: int,
    bit: u8,
    last: u8,
    value: u8,
    now: u64,
) -> bool {
    let sb = o.sensor_devices.sensor_boards@[board];
    let slot = if bit == 0 {
        sb.pio_a
    } else {
        sb.pio_b
    };
    if input_bit_set(value, bit) == input_bit_set(last, bit) || slot is None {
        n == o
    } else {
        let sensor = slot->0;
        let m1 = MachineView {
            outbox: o.state_machine@.outbox.push(
                db_notice_view(CommandCode::IncrementSensorCounter, sensor.id_sensor),
            ),
            ..o.state_machine@
        };
        let kinds = o.sensor_devices.kinds@;
        &&& pass_frame(o, n)
        &&& if !kinds.contains_key(sensor.id_kind) {
            &&& n.state_machine@ == m1
            &&& n.relay_devices == o.relay_devices
            &&& n.pending_tasks == o.pending_tasks
        } else {
            let kind = kind_of_code(kinds[sensor.id_kind]@);
            let on = input_bit_set(value, bit);
            let step = sensor_step(
                m1,
                task_views(o.pending_tasks@),
                kind,
                sensor.name@,
                on,
                sensor.tags@,
                o.night,
                false,
                sensor.id_sensor,
                now,
            );
            let sel = Selector::Wire { kind, sensor_on: on, night: o.night };
            &&& task_views(n.pending_tasks@) == step.1
            &&& !step.2 ==> n.state_machine@ == step.0 && n.relay_devices == o.relay_devices
            &&& step.2 ==> {
                &&& n.state_machine@ == (MachineView {
                    outbox: step.0.outbox + boards_notices(
                        o.relay_devices.relay_boards@,
                        sel,
                        sensor.associated_relays@,
                        now,
                    ) + lights_notices(
                        o.relay_devices.yeelight@,
                        sel,
                        sensor.associated_yeelights@,
                        now,
                    ),
                    ..step.0
                })
                &&& forall|b: int|
                    0 <= b < o.relay_devices.relay_boards@.len() ==> board_after(
                        #[trigger] o.relay_devices.relay_boards@[b],
                        n.relay_devices.relay_boards@[b],
                        sel,
                        sensor.associated_relays@,
                        now,
                    )
                &&& forall|k: int|
                    0 <= k < o.relay_devices.yeelight@.len() ==> n.relay_devices.yeelight@[k]
                        == match light_event(
                        sel,
                        sensor.associated_yeelights@,
                        #[trigger] o.relay_devices.yeelight@[k],
                    ) {
                        Some(e) => light_after(o.relay_devices.yeelight@[k], e, now),
                        None => o.relay_devices.yeelight@[k],
                    }
            }
        }
    }
}

impl OneWire {
    pub open spec fn wf(&self) -> bool {
        self.relay_devices.wf()
    }

    /// An engine over the given registries: by day, with nothing queued.
    pub fn new(
        name: String,
        sensor_devices: SensorDevices,
        relay_devices: RelayDevices,
        alarm_panel: bool,
    ) -> (r: OneWire)
        requires
            relay_devices.wf(),
        ensures
            r.wf(),
            r.name == name,
            r.sensor_devices == sensor_devices,
            r.relay_devices == relay_devices,
            r.pending_tasks@.len() == 0,
            !r.night,
            r.state_machine@.outbox.len() == 0,
            !r.state_machine@.bedroom_mode,
            r.state_machine@.wicket_gate_started is None,
            r.state_machine@.alarm_panel == alarm_panel,
    {
        proof {
            reveal_strlit("statemachine");
        }
        let state_machine = StateMachine::new(String::from_str("statemachine"), alarm_panel);
        OneWire {
            name,
            sensor_devices,
            relay_devices,
            state_machine,
            pending_tasks: Vec::new(),
            night: false,
        }
    }

    /// Sends a relay counter increment to the metrics store.
    pub fn increment_relay_counter(&mut self, id_relay: i32)
        ensures
            final(self).state_machine@ == (MachineView {
                outbox: old(self).state_machine@.outbox.push(
                    db_notice_view(CommandCode::IncrementRelayCounter, id_relay),
                ),
                ..old(self).state_machine@
            }),
    {
        self.state_machine.notify(db_notice(CommandCode::IncrementRelayCounter, id_relay));
    }

    /// Sends a light counter increment to the metrics store.
    pub fn increment_yeelight_counter(&mut self, id_yeelight: i32)
        ensures
            final(self).state_machine@ == (MachineView {
                outbox: old(self).state_machine@.outbox.push(
                    db_notice_view(CommandCode::IncrementYeelightCounter, id_yeelight),
                ),
                ..old(self).state_machine@
            }),
    {
        self.state_machine.notify(db_notice(CommandCode::IncrementYeelightCounter, id_yeelight));
    }

    /// Queues an externally submitted task for this pass. A night-only task
    /// is dropped by day and becomes a plain turn-on at night.
    pub fn accept_task(&mut self, t: OneWireTask)
        ensures
            task_views(final(self).pending_tasks@) == match t.command {
                TaskCommand::TurnOnProlongNight => if old(self).night {
                    task_views(old(self).pending_tasks@).push(
                        TaskView { command: TaskCommand::TurnOnProlong, ..t@ },
                    )
                } else {
                    task_views(old(self).pending_tasks@)
                },
                _ => task_views(old(self).pending_tasks@).push(t@),
            },
            final(self).sensor_devices == old(self).sensor_devices,
            final(self).relay_devices == old(self).relay_devices,
            final(self).state_machine == old(self).state_machine,
            final(self).night == old(self).night,
            final(self).name == old(self).name,
    {
        let ghost before = self.pending_tasks@;
        match t.command {
            TaskCommand::TurnOnProlongNight => {
                if self.night {
                    let mut t = t;
                    t.command = TaskCommand::TurnOnProlong;
                    self.pending_tasks.push(t);
                }
            },
            _ => {
                self.pending_tasks.push(t);
            },
        }
        assert(task_views(self.pending_tasks@) =~= match t.command {
            TaskCommand::TurnOnProlongNight => if old(self).night {
                task_views(before).push(TaskView { command: TaskCommand::TurnOnProlong, ..t@ })
            } else {
                task_views(before)
            },
            _ => task_views(before).push(t@),
        });
    }

    /// Adds cesspool probes until there are as many as the sensors declare.
    pub fn sync_cesspool_size(&mut self)
        requires
            old(self).wf(),
        ensures
            final(self).state_machine@ == (MachineView {
                level: final(self).state_machine@.level,
                ..old(self).state_machine@
            }),
            final(self).state_machine@.level.len() == if old(self).sensor_devices.max_cesspool_level > old(self).state_machine@.level.len() {
                old(self).sensor_devices.max_cesspool_level as nat
            } else {
                old(self).state_machine@.level.len()
            },
            forall|i: int|
                0 <= i < old(self).state_machine@.level.len() ==> final(self).state_machine@.level[i]
                    == old(self).state_machine@.level[i],
            forall|i: int|
                old(self).state_machine@.level.len() <= i < final(self).state_machine@.level.len()
                    ==> final(self).state_machine@.level[i] is None,
            pass_frame(*old(self), *final(self)),
            final(self).relay_devices == old(self).relay_devices,
            final(self).pending_tasks == old(self).pending_tasks,
    {
        let n = self.sensor_devices.max_cesspool_level;
        self.state_machine.cesspool_level.grow_to(n);
    }

    /// First read of a sensor: the rules see it for bookkeeping only.
    fn sensor_initial(&mut self, board: usize, bit: u8, value: u8, now: u64)
        requires
            board < old(self).sensor_devices.sensor_boards@.len(),
            bit == 0 || bit == 2,
            old(self).wf(),
        ensures
            pass_frame(*old(self), *final(self)),
            final(self).relay_devices == old(self).relay_devices,
            task_views(final(self).pending_tasks@) == task_views(old(self).pending_tasks@),
            sensor_initial_after(*old(self), *final(self), board as int, bit, value, now),
    {
        let sb = &self.sensor_devices.sensor_boards[board];
        let slot = if bit == 0 {
            &sb.pio_a
        } else {
            &sb.pio_b
        };
        match slot {
            Some(sensor) => match lookup_kind(&self.sensor_devices.kinds, sensor.id_kind) {
                Some(kind) => {
                    let on = input_bit(value, bit);
                    self.state_machine.sensor_hook(
                        kind,
                        sensor.name.as_str(),
                        on,
                        &sensor.tags,
                        self.night,
                        true,
                        &mut self.pending_tasks,
                        sensor.id_sensor,
                        now,
                    );
                },
                None => {},
            },
            None => {},
        }
    }

    /// A sensor input flipped from `last` to `value`: it is counted, the
    /// rules run, and unless they stop it the event reaches the sensor's
    /// relays and lights.
    fn sensor_change(&mut self, board: usize, bit: u8, last: u8, value: u8, now: u64)
        requires
            board < old(self).sensor_devices.sensor_boards@.len(),
            bit == 0 || bit == 2,
            old(self).wf(),
        ensures
            pass_frame(*old(self), *final(self)),
            sensor_change_after(*old(self), *final(self), board as int, bit, last, value, now),
    {
        if input_bit(value, bit) == input_bit(last, bit) {
            return;
        }
        let sb = &self.sensor_devices.sensor_boards[board];
        let slot = if bit == 0 {
            &sb.pio_a
        } else {
            &sb.pio_b
        };
        match slot {
            Some(sensor) => {
                self.state_machine.notify(
                    db_notice(CommandCode::IncrementSensorCounter, sensor.id_sensor),
                );
                match lookup_kind(&self.sensor_devices.kinds, sensor.id_kind) {
                    Some(kind) => {
                        let on = input_bit(value, bit);
                        let go = self.state_machine.sensor_hook(
                            kind,
                            sensor.name.as_str(),
                            on,
                            &sensor.tags,
                            self.night,
                            false,
                            &mut self.pending_tasks,
                            sensor.id_sensor,
                            now,
                        );
                        if go {
                            let sel = Selector::Wire { kind, sensor_on: on, night: self.night };
                            apply_boards(
                                &mut self.relay_devices,
                                sel,
                                &sensor.associated_relays,
                                &mut self.state_machine,
                                now,
                            );
                            apply_lights(
                                &mut self.relay_devices,
                                sel,
                                &sensor.associated_yeelights,
                                &mut self.state_machine,
                                now,
                            );
                        }
                    },
                    None => {},
                }
            },
            None => {},
        }
    }

    /// Handles a byte read from sensor board `board`. A byte outside the
    /// allow-list (or an unknown board) is discarded and nothing changes.
    /// The first byte of a board only informs the rules; later, each input
    /// (bits 0 and 2) that changed is an event. The byte becomes the board's
    /// last value. Relay outputs are only staged: see `prepare_write`.
    pub fn process_sensor_value(&mut self, board: usize, value: u8, now: u64) -> (r: bool)
        requires
            old(self).wf(),
        ensures
            r == (board < old(self).sensor_devices.sensor_boards@.len() && is_valid_sensor_byte(
                value,
            )),
            !r ==> *final(self) == *old(self),
            final(self).wf(),
            final(self).name == old(self).name,
            final(self).night == old(self).night,
            final(self).relay_devices.relay_boards@.len() == old(self).relay_devices.relay_boards@.len(),
            final(self).sensor_devices.sensor_boards@.len() == old(self).sensor_devices.sensor_boards@.len(),
            final(self).sensor_devices.kinds == old(self).sensor_devices.kinds,
            r ==> final(self).sensor_devices.sensor_boards@[board as int] == (SensorBoard {
                last_value: Some(value),
                ..old(self).sensor_devices.sensor_boards@[board as int]
            }),
            forall|k: int|
                0 <= k < old(self).sensor_devices.sensor_boards@.len() && k != board
                    ==> final(self).sensor_devices.sensor_boards@[k] == old(self).sensor_devices.sensor_boards@[k],
            ({
                let last = old(self).sensor_devices.sensor_boards@[board as int].last_value;
                r && last is Some && last->0 != value ==> exists|mid: OneWire, fin: OneWire|
                #[trigger] sensor_change_after(*old(self), mid, board as int, 0, last->0, value, now)
                    && #[trigger] sensor_change_after(mid, fin, board as int, 2, last->0, value, now)
                    && final(self).relay_devices == fin.relay_devices
                    && final(self).state_machine == fin.state_machine
                    && final(self).pending_tasks == fin.pending_tasks
            }),
            r && old(self).sensor_devices.sensor_boards@[board as int].last_value is None ==> {
                &&& exists|mid: OneWire, fin: OneWire|
                    #[trigger] sensor_initial_after(*old(self), mid, board as int, 0, value, now)
                        && #[trigger] sensor_initial_after(mid, fin, board as int, 2, value, now)
                        && final(self).state_machine == fin.state_machine
                        && final(self).pending_tasks == fin.pending_tasks
                &&& final(self).relay_devices == old(self).relay_devices
                &&& task_views(final(self).pending_tasks@) == task_views(old(self).pending_tasks@)
            },
            r && old(self).sensor_devices.sensor_boards@[board as int].last_value == Some(value) ==> {
                &&& final(self).relay_devices == old(self).relay_devices
                &&& final(self).state_machine == old(self).state_machine
                &&& final(self).pending_tasks == old(self).pending_tasks
            },
    {
        if board >= self.sensor_devices.sensor_boards.len() || !valid_sensor_byte(value) {
            return false;
        }
        let last = self.sensor_devices.sensor_boards[board].last_value;
        match last {
            None => {
                let ghost o = *self;
                self.sensor_initial(board, 0, value, now);
                let ghost mid = *self;
                self.sensor_initial(board, 2, value, now);
                let ghost fin = *self;
                self.sensor_devices.sensor_boards[board].last_value = Some(value);
                assert(sensor_initial_after(o, mid, board as int, 0, value, now));
                assert(sensor_initial_after(mid, fin, board as int, 2, value, now));
                return true;
            },
            Some(lv) => {
                if lv != value {
                    let ghost o = *self;
                    self.sensor_change(board, 0, lv, value, now);
                    let ghost mid = *self;
                    self.sensor_change(board, 2, lv, value, now);
                    let ghost fin = *self;
                    self.sensor_devices.sensor_boards[board].last_value = Some(value);
                    assert(sensor_change_after(o, mid, board as int, 0, lv, value, now));
                    assert(sensor_change_after(mid, fin, board as int, 2, lv, value, now));
                    return true;
                }
            },
        }
        self.sensor_devices.sensor_boards[board].last_value = Some(value);
        true
    }

    /// Decides what to write to relay board `b`: the staged byte when it
    /// differs from the one last written, else nothing (and the stage is
    /// dropped). With `stamp`, each relay the write toggles gets its toggle
    /// time set to `now` and is counted.
    pub fn prepare_write(&mut self, b: usize, stamp: bool, now: u64) -> (r: Option<u8>)
        requires
            old(self).wf(),
            b < old(self).relay_devices.relay_boards@.len(),
        ensures
            pass_frame(*old(self), *final(self)),
            ({
                let ob = old(self).relay_devices.relay_boards@[b as int];
                let fb = final(self).relay_devices.relay_boards@[b as int];
                &&& fb.last_value == ob.last_value
                &&& match ob.new_value {
                    None => r is None && fb == ob,
                    Some(v) => if v == written(ob) {
                        r is None && fb.new_value is None && fb.relay@ == ob.relay@
                    } else {
                        &&& r == Some(v)
                        &&& fb.new_value == ob.new_value
                        &&& forall|i: u8|
                            i < 8 ==> #[trigger] fb.relay@[i as int] == match ob.relay@[i as int] {
                                Some(rel) => if stamp && is_bit_on(v, i) != is_bit_on(written(ob), i) {
                                    Some(Relay { last_toggled: Some(now), ..rel })
                                } else {
                                    Some(rel)
                                },
                                None => None,
                            }
                    },
                }
                &&& notified(
                    old(self).state_machine,
                    final(self).state_machine,
                    write_sent(ob, stamp),
                )
            }),
            forall|k: int|
                0 <= k < old(self).relay_devices.relay_boards@.len() && k != b ==> final(self).relay_devices.relay_boards@[k] == old(self).relay_devices.relay_boards@[k],
            final(self).relay_devices.yeelight@ == old(self).relay_devices.yeelight@,
            final(self).pending_tasks == old(self).pending_tasks,
    {
        prepare_write(&mut self.relay_devices.relay_boards[b], stamp, &mut self.state_machine, now)
    }

    /// Records that `v` was written to relay board `b`.
    pub fn commit_write(&mut self, b: usize, v: u8)
        requires
            old(self).wf(),
            b < old(self).relay_devices.relay_boards@.len(),
        ensures
            pass_frame(*old(self), *final(self)),
            final(self).relay_devices.relay_boards@[b as int] == (RelayBoard {
                last_value: Some(v),
                new_value: None,
                ..old(self).relay_devices.relay_boards@[b as int]
            }),
            forall|k: int|
                0 <= k < old(self).relay_devices.relay_boards@.len() && k != b ==> final(self).relay_devices.relay_boards@[k] == old(self).relay_devices.relay_boards@[k],
            final(self).state_machine == old(self).state_machine,
            final(self).pending_tasks == old(self).pending_tasks,
    {
        commit_write(&mut self.relay_devices.relay_boards[b], v);
    }

    /// Day turned to night or back: every relay tagged `all_night` follows
    /// at once and is counted. Returns whether night changed.
    pub fn set_night(&mut self, night: bool, now: u64) -> (r: bool)
        requires
            old(self).wf(),
        ensures
            r == (night != old(self).night),
            final(self).night == night,
            final(self).wf(),
            final(self).sensor_devices == old(self).sensor_devices,
            final(self).pending_tasks == old(self).pending_tasks,
            notified(
                old(self).state_machine,
                final(self).state_machine,
                if r {
                    boards_notices(
                        old(self).relay_devices.relay_boards@,
                        Selector::Night { night },
                        Seq::empty(),
                        now,
                    )
                } else {
                    Seq::empty()
                },
            ),
            !r ==> final(self).relay_devices == old(self).relay_devices,
            final(self).relay_devices.yeelight@ == old(self).relay_devices.yeelight@,
            final(self).relay_devices.relay_boards@.len() == old(self).relay_devices.relay_boards@.len(),
            r ==> forall|b: int|
                0 <= b < old(self).relay_devices.relay_boards@.len() ==> board_after(
                    #[trigger] old(self).relay_devices.relay_boards@[b],
                    final(self).relay_devices.relay_boards@[b],
                    Selector::Night { night },
                    Seq::empty(),
                    now,
                ),
    {
        if night == self.night {
            proof {
                lemma_notified_none(self.state_machine);
            }
            return false;
        }
        self.night = night;
        let none: Vec<i32> = Vec::new();
        apply_boards(&mut self.relay_devices, Selector::Night { night }, &none, &mut self.state_machine, now);
        assert(none@ =~= Seq::<i32>::empty());
        true
    }

    /// Handles the RFID tags seen since the last pass (see
    /// `StateMachine::process_rfid_tags`).
    pub fn process_rfid(&mut self, rfid_tags: &Vec<RfidTag>, rfid_pending_tags: &mut Vec<u32>, now: u64)
        ensures
            (final(self).state_machine@, task_views(final(self).pending_tasks@)) == crate::rules::rfid_fold(
                old(self).state_machine@,
                task_views(old(self).pending_tasks@),
                rfid_tags@,
                old(rfid_pending_tags)@,
                old(self).night,
                now,
            ),
            final(rfid_pending_tags)@.len() == 0,
            final(self).sensor_devices == old(self).sensor_devices,
            final(self).relay_devices == old(self).relay_devices,
            final(self).night == old(self).night,
    {
        self.state_machine.process_rfid_tags(
            rfid_tags,
            rfid_pending_tags,
            &mut self.pending_tasks,
            self.night,
            now,
        );
    }

    /// Runs the tasks queued for this pass on every relay they concern, in
    /// queue order, and empties the queue. Each relay a task turns on or off
    /// is counted.
    pub fn apply_pending_tasks(&mut self, now: u64)
        requires
            old(self).wf(),
        ensures
            final(self).wf(),
            final(self).pending_tasks@.len() == 0,
            final(self).sensor_devices == old(self).sensor_devices,
            final(self).night == old(self).night,
            notified(
                old(self).state_machine,
                final(self).state_machine,
                boards_task_notices(
                    old(self).relay_devices.relay_boards@,
                    task_views(old(self).pending_tasks@),
                    old(self).night,
                    now,
                ),
            ),
            final(self).relay_devices.yeelight@ == old(self).relay_devices.yeelight@,
            final(self).relay_devices.relay_boards@.len() == old(self).relay_devices.relay_boards@.len(),
            forall|b: int|
                0 <= b < old(self).relay_devices.relay_boards@.len() ==> {
                    &&& same_board(
                        #[trigger] old(self).relay_devices.relay_boards@[b],
                        final(self).relay_devices.relay_boards@[b],
                    )
                    &&& forall|i: u8|
                        i < 8 ==> #[trigger] slot_after_tasks(
                            old(self).relay_devices.relay_boards@[b],
                            final(self).relay_devices.relay_boards@[b],
                            i,
                            task_views(old(self).pending_tasks@),
                            old(self).night,
                            now,
                        )
                },
    {
        let mut tasks: Vec<OneWireTask> = Vec::new();
        std::mem::swap(&mut tasks, &mut self.pending_tasks);
        proof {
            lemma_notified_none(self.state_machine);
        }
        let ghost sm0 = self.state_machine;
        let ghost bs = old(self).relay_devices.relay_boards@;
        let n = self.relay_devices.relay_boards.len();
        let mut k: usize = 0;
        while k < n
            invariant
                k <= n == self.relay_devices.relay_boards@.len() == old(self).relay_devices.relay_boards@.len(),
                tasks@ == old(self).pending_tasks@,
                self.pending_tasks@.len() == 0,
                self.relay_devices.wf(),
                self.relay_devices.yeelight@ == old(self).relay_devices.yeelight@,
                self.sensor_devices == old(self).sensor_devices,
                self.night == old(self).night,
                forall|b: int|
                    0 <= b < k ==> {
                        &&& same_board(
                            #[trigger] old(self).relay_devices.relay_boards@[b],
                            self.relay_devices.relay_boards@[b],
                        )
                        &&& forall|i: u8|
                            i < 8 ==> #[trigger] slot_after_tasks(
                                old(self).relay_devices.relay_boards@[b],
                                self.relay_devices.relay_boards@[b],
                                i,
                                task_views(tasks@),
                                self.night,
                                now,
                            )
                    },
                forall|b: int|
                    k <= b < n ==> #[trigger] self.relay_devices.relay_boards@[b] == old(self).relay_devices.relay_boards@[b],
                notified(
                    sm0,
                    self.state_machine,
                    boards_task_notices(bs.subrange(0, k as int), task_views(tasks@), self.night, now),
                ),
                sm0 == old(self).state_machine,
                bs == old(self).relay_devices.relay_boards@,
            decreases n - k,
        {
            let ghost s1 = self.state_machine;
            apply_tasks_board(
                &mut self.relay_devices.relay_boards[k],
                &tasks,
                self.night,
                &mut self.state_machine,
                now,
            );
            proof {
                assert(bs.subrange(0, k + 1).drop_last() =~= bs.subrange(0, k as int));
                lemma_notified_chain(
                    sm0,
                    s1,
                    self.state_machine,
                    boards_task_notices(bs.subrange(0, k as int), task_views(tasks@), self.night, now),
                    board_task_notices(bs[k as int], task_views(tasks@), self.night, now, 8),
                );
            }
            k = k + 1;
        }
        assert(bs.subrange(0, n as int) =~= bs);
    }

    /// The auto-off sweep over every relay and light; relays and lights
    /// switched off are counted, lights are told to power off.
    pub fn auto_off_sweep(&mut self, now: u64)
        requires
            old(self).wf(),
        ensures
            pass_frame(*old(self), *final(self)),
            final(self).pending_tasks == old(self).pending_tasks,
            notified(
                old(self).state_machine,
                final(self).state_machine,
                boards_notices(old(self).relay_devices.relay_boards@, Selector::Sweep, Seq::empty(), now)
                    + lights_notices(old(self).relay_devices.yeelight@, Selector::Sweep, Seq::empty(), now),
            ),
            forall|b: int|
                0 <= b < old(self).relay_devices.relay_boards@.len() ==> board_after(
                    #[trigger] old(self).relay_devices.relay_boards@[b],
                    final(self).relay_devices.relay_boards@[b],
                    Selector::Sweep,
                    Seq::empty(),
                    now,
                ),
            forall|k: int|
                0 <= k < old(self).relay_devices.yeelight@.len() ==> #[trigger] final(self).relay_devices.yeelight@[k] == light_after(
                    old(self).relay_devices.yeelight@[k],
                    RelayEvent::Sweep,
                    now,
                ),
    {
        let none: Vec<i32> = Vec::new();
        let ghost s0 = self.state_machine;
        apply_boards(&mut self.relay_devices, Selector::Sweep, &none, &mut self.state_machine, now);
        let ghost s1 = self.state_machine;
        apply_lights(&mut self.relay_devices, Selector::Sweep, &none, &mut self.state_machine, now);
        assert(none@ =~= Seq::<i32>::empty());
        proof {
            lemma_notified_chain(
                s0,
                s1,
                self.state_machine,
                boards_notices(old(self).relay_devices.relay_boards@, Selector::Sweep, none@, now),
                lights_notices(old(self).relay_devices.yeelight@, Selector::Sweep, none@, now),
            );
        }
    }

    /// Hands over the notices collected so far.
    pub fn take_notices(&mut self) -> (r: Vec<Notice>)
        ensures
            crate::messages::notice_views(r@) == old(self).state_machine@.outbox,
            final(self).state_machine@.outbox.len() == 0,
            final(self).relay_devices == old(self).relay_devices,
            final(self).sensor_devices == old(self).sensor_devices,
    {
        self.state_machine.take_notices()
    }
}

/// The metrics notice `db_notice` builds.
pub open spec fn db_notice_view(command: CommandCode, value: i32) -> crate::messages::NoticeView {
    crate::messages::NoticeView::Db(crate::messages::DbTask { command, value: Some(value) })
}

} // verus!
