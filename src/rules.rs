//! The rule engine: hooks that turn one sensor transition into actuator
//! tasks and notices, bedroom mode, the wicket-gate gesture and RFID tags.
use vstd::prelude::*;
use crate::cesspool::{all_reported, occupied, rounded_percentage, CesspoolLevel};
use crate::device::{cesspool_index, tag_cesspool_index, ENTRY_LIGHT_PROLONG_MS};
use crate::messages::{
    db_notice, task_views, notice_views, BeepMethod, CommandCode, DbTask, LcdTask, LcdTaskCommand,
    Notice, NoticeView, OneWireTask, RfidTag, TaskCommand, TaskView,
};
use crate::text::{
    contains, has_infix, has_prefix, parse_seconds_ms, parsed_seconds_ms, replace_all, replace_text,
    same_text, second_field, second_field_of, starts_with,
};
use crate::transition::{elapsed, elapsed_ms, SensorKind};

verus! {

/// Process-wide automation context.
pub struct StateMachine {
    pub name: String,
    pub alarm_armed: bool,
    pub bedroom_mode: bool,
    /// When the wicket gate was armed, and for how long (milliseconds).
    pub wicket_gate_started: Option<u64>,
    pub wicket_gate_delay: Option<u64>,
    /// Relays the wicket gate opens.
    pub wicket_gate_relays: Vec<i32>,
    /// An alarm panel that can beep is attached.
    pub alarm_panel: bool,
    pub cesspool_level: CesspoolLevel,
    /// Notices produced and not yet delivered.
    pub outbox: Vec<Notice>,
}

/// The part of the context that the rules read and write.
pub struct MachineView {
    pub bedroom_mode: bool,
    pub wicket_gate_started: Option<u64>,
    pub wicket_gate_delay: Option<u64>,
    pub wicket_gate_relays: Seq<i32>,
    pub alarm_panel: bool,
    pub level: Seq<Option<bool>>,
    pub outbox: Seq<NoticeView>,
}

impl View for StateMachine {
    type V = MachineView;

    open spec fn view(&self) -> MachineView {
        MachineView {
            bedroom_mode: self.bedroom_mode,
            wicket_gate_started: self.wicket_gate_started,
            wicket_gate_delay: self.wicket_gate_delay,
            wicket_gate_relays: self.wicket_gate_relays@,
            alarm_panel: self.alarm_panel,
            level: self.cesspool_level.level@,
            outbox: notice_views(self.outbox@),
        }
    }
}

/// The task that turns one relay on (or prolongs it) for its own hold time.
pub open spec fn relay_task(id: i32) -> TaskView {
    TaskView {
        command: TaskCommand::TurnOnProlong,
        id_relay: Some(id),
        tag_group: None,
        duration: None,
    }
}

/// The night-only task that lights the `entry_light` group.
pub open spec fn entry_light_task() -> TaskView {
    TaskView {
        command: TaskCommand::TurnOnProlongNight,
        id_relay: None,
        tag_group: Some("entry_light"@),
        duration: Some(ENTRY_LIGHT_PROLONG_MS),
    }
}

pub open spec fn relay_tasks(ids: Seq<i32>) -> Seq<TaskView> {
    ids.map_values(|id: i32| relay_task(id))
}

// ------------------------------------------------------------ bedroom mode

/// Bedroom-mode scan over `tags` from position `i`: a `bedroom_disable` tag
/// turns the mode off and the scan goes on; the first `bedroom_enable` tag
/// ends it, letting the event through only if the mode was off (and turning
/// it on). Returns the new mode and, if the scan ended early, the verdict.
pub open spec fn bedroom_scan(tags: Seq<String>, i: int, mode: bool) -> (bool, Option<bool>)
    decreases tags.len() - i,
{
    if i < 0 || i >= tags.len() {
        (mode, None)
    } else if tags[i]@ == "bedroom_enable"@ {
        if !mode {
            (true, Some(true))
        } else {
            (mode, Some(false))
        }
    } else if tags[i]@ == "bedroom_disable"@ {
        bedroom_scan(tags, i + 1, false)
    } else {
        bedroom_scan(tags, i + 1, mode)
    }
}

/// Bedroom mode applies to motion seen at night, outside the first read.
pub open spec fn bedroom_applies(kind: SensorKind, on: bool, night: bool, initial: bool) -> bool {
    !initial && kind == SensorKind::PirTrigger && on && night
}

// ------------------------------------------------------------ wicket gate

/// Position of the first tag beginning with `p` from `i` on, or `tags.len()`.
pub open spec fn first_with_prefix(tags: Seq<String>, p: Seq<char>, i: int) -> int
    decreases tags.len() - i,
{
    if i < 0 || i >= tags.len() {
        tags.len() as int
    } else if has_prefix(tags[i]@, p) {
        i
    } else {
        first_with_prefix(tags, p, i + 1)
    }
}

/// The event as a tag sees it: `invert_state` in the tag flips it.
pub open spec fn effective_on(tag: Seq<char>, on: bool) -> bool {
    if has_infix(tag, "invert_state"@) {
        !on
    } else {
        on
    }
}

/// The event confirms an armed wicket gate: it is not a first read, the
/// sensor's first `wicket_gate` tag sees it as on, and the wicket gate is armed.
pub open spec fn wicket_fires(m: MachineView, tags: Seq<String>, on: bool, initial: bool) -> bool {
    let w = first_with_prefix(tags, "wicket_gate"@, 0);
    &&& !initial
    &&& w < tags.len()
    &&& effective_on(tags[w]@, on)
    &&& m.wicket_gate_started is Some
    &&& m.wicket_gate_delay is Some
}

/// The confirmation came within the armed delay.
pub open spec fn wicket_in_time(m: MachineView, now: u64) -> bool {
    elapsed(m.wicket_gate_started->0, now) < m.wicket_gate_delay->0
}

/// Tasks queued when the wicket gate opens.
pub open spec fn wicket_tasks(m: MachineView, night: bool) -> Seq<TaskView> {
    relay_tasks(m.wicket_gate_relays) + if night {
        seq![entry_light_task()]
    } else {
        Seq::empty()
    }
}

/// A confirmation beep, when an alarm panel is attached.
pub open spec fn confirmation_beep(m: MachineView) -> Seq<NoticeView> {
    if m.alarm_panel {
        seq![NoticeView::Beep(BeepMethod::Confirmation)]
    } else {
        Seq::empty()
    }
}

// ------------------------------------------------------------ other tags

/// The shell command of a `cmd:` tag with `%name%`, `%colon%` and `%state%`
/// substituted, in that order.
pub open spec fn shell_line(cmd: Seq<char>, name: Seq<char>, on: bool) -> Seq<char> {
    replace_all(
        replace_all(replace_all(cmd, "%name%"@, name), "%colon%"@, ":"@),
        "%state%"@,
        if on {
            "on"@
        } else {
            "off"@
        },
    )
}

/// A `cesspool:<n>` tag records the probe reading at `n - 1`; once every
/// probe has reported, the LCD count and the percentage are sent.
pub open spec fn cesspool_step(
    level: Seq<Option<bool>>,
    out: Seq<NoticeView>,
    tag: Seq<char>,
    on: bool,
) -> (Seq<Option<bool>>, Seq<NoticeView>) {
    match cesspool_index(tag) {
        Some(n) => if 1 <= n <= level.len() {
            let l2 = level.update(n - 1, Some(on));
            if all_reported(l2) {
                (
                    l2,
                    out.push(
                        NoticeView::Lcd(
                            LcdTask {
                                command: LcdTaskCommand::SetCesspoolLevel,
                                int_arg: (occupied(l2) % 256) as u8,
                            },
                        ),
                    ).push(
                        NoticeView::Db(
                            DbTask {
                                command: CommandCode::UpdateCesspoolLevel,
                                value: Some(rounded_percentage(occupied(l2), l2.len()) as i32),
                            },
                        ),
                    ),
                )
            } else {
                (l2, out)
            }
        } else {
            (level, out)
        },
        None => (level, out),
    }
}

/// What one tag of a sensor does with an event.
pub open spec fn tag_step(
    level: Seq<Option<bool>>,
    out: Seq<NoticeView>,
    tag: Seq<char>,
    on: bool,
    initial: bool,
    panel: bool,
    name: Seq<char>,
    id: i32,
) -> (Seq<Option<bool>>, Seq<NoticeView>) {
    let o = effective_on(tag, on);
    let out1 = if has_prefix(tag, "monitor_in_influxdb"@) {
        out.push(
            NoticeView::Db(
                DbTask {
                    command: if o {
                        CommandCode::UpdateSensorStateOn
                    } else {
                        CommandCode::UpdateSensorStateOff
                    },
                    value: Some(id),
                },
            ),
        )
    } else {
        out
    };
    if !initial && !(o || has_infix(tag, "all_changes"@)) {
        (level, out1)
    } else {
        let out2 = if initial {
            out1
        } else if has_prefix(tag, "cmd"@) {
            match second_field(tag) {
                Some(c) => out1.push(NoticeView::Shell(shell_line(c, name, o))),
                None => out1,
            }
        } else if panel && has_prefix(tag, "doorbell"@) {
            out1.push(NoticeView::Beep(BeepMethod::DoorBell))
        } else {
            out1
        };
        cesspool_step(level, out2, tag, o)
    }
}

/// All tags of a sensor, in order.
pub open spec fn tags_fold(
    tags: Seq<String>,
    level: Seq<Option<bool>>,
    out: Seq<NoticeView>,
    on: bool,
    initial: bool,
    panel: bool,
    name: Seq<char>,
    id: i32,
) -> (Seq<Option<bool>>, Seq<NoticeView>)
    decreases tags.len(),
{
    if tags.len() == 0 {
        (level, out)
    } else {
        let prev = tags_fold(tags.drop_last(), level, out, on, initial, panel, name, id);
        tag_step(prev.0, prev.1, tags.last()@, on, initial, panel, name, id)
    }
}

// ------------------------------------------------------------ sensor hook

/// The whole sensor hook: the new context, the tasks queued, and whether the
/// event goes on to the sensor's actuators.
pub open spec fn sensor_step(
    m: MachineView,
    tasks: Seq<TaskView>,
    kind: SensorKind,
    name: Seq<char>,
    on: bool,
    tags: Seq<String>,
    night: bool,
    initial: bool,
    id: i32,
    now: u64,
) -> (MachineView, Seq<TaskView>, bool) {
    let scan = if bedroom_applies(kind, on, night, initial) {
        bedroom_scan(tags, 0, m.bedroom_mode)
    } else {
        (m.bedroom_mode, None)
    };
    let m1 = MachineView { bedroom_mode: scan.0, ..m };
    if scan.1 is Some {
        (m1, tasks, scan.1->0)
    } else if wicket_fires(m1, tags, on, initial) {
        let m2 = MachineView { wicket_gate_started: None, ..m1 };
        if wicket_in_time(m1, now) {
            (
                MachineView { outbox: m1.outbox + confirmation_beep(m1), ..m2 },
                tasks + wicket_tasks(m1, night),
                false,
            )
        } else {
            (m2, tasks, false)
        }
    } else {
        let r = tags_fold(tags, m1.level, m1.outbox, on, initial, m1.alarm_panel, name, id);
        (MachineView { level: r.0, outbox: r.1, ..m1 }, tasks, true)
    }
}

// ------------------------------------------------------------ relay hook

pub open spec fn has_tag(tags: Seq<String>, t: Seq<char>) -> bool {
    exists|i: int| 0 <= i < tags.len() && tags[i]@ == t
}

/// Metrics notices for the relay's `monitor_in_influxdb` tags, one per tag.
pub open spec fn relay_monitor_notices(tags: Seq<String>, on: bool, id: i32) -> Seq<NoticeView>
    decreases tags.len(),
{
    if tags.len() == 0 {
        Seq::empty()
    } else {
        relay_monitor_notices(tags.drop_last(), on, id) + if has_prefix(
            tags.last()@,
            "monitor_in_influxdb"@,
        ) {
            seq![
                NoticeView::Db(
                    DbTask {
                        command: if on {
                            CommandCode::UpdateRelayStateOn
                        } else {
                            CommandCode::UpdateRelayStateOff
                        },
                        value: Some(id),
                    },
                ),
            ]
        } else {
            Seq::empty()
        }
    }
}

/// A relay tagged `night_exclude` ignores motion at night.
pub open spec fn relay_excluded(kind: SensorKind, on: bool, tags: Seq<String>, night: bool) -> bool {
    kind == SensorKind::PirTrigger && on && night && has_tag(tags, "night_exclude"@)
}

// ------------------------------------------------------------ RFID

/// What one RFID tag record does when seen: a tag with directives arms the
/// wicket gate for each valid `wicket_gate:<seconds>` directive; a tag
/// without any turns its relays on.
pub open spec fn rfid_directive_step(
    m: MachineView,
    tasks: Seq<TaskView>,
    tag: Seq<char>,
    relays: Seq<i32>,
    night: bool,
    now: u64,
) -> (MachineView, Seq<TaskView>) {
    if has_prefix(tag, "wicket_gate"@) {
        match second_field(tag) {
            Some(f) => match parsed_seconds_ms(f) {
                Some(d) => (
                    MachineView {
                        wicket_gate_started: Some(now),
                        wicket_gate_delay: Some(d as u64),
                        wicket_gate_relays: relays,
                        outbox: m.outbox + confirmation_beep(m),
                        ..m
                    },
                    tasks + if night {
                        seq![entry_light_task()]
                    } else {
                        Seq::empty()
                    },
                ),
                None => (m, tasks),
            },
            None => (m, tasks),
        }
    } else {
        (m, tasks)
    }
}

pub open spec fn rfid_directives_fold(
    m: MachineView,
    tasks: Seq<TaskView>,
    tags: Seq<String>,
    relays: Seq<i32>,
    night: bool,
    now: u64,
) -> (MachineView, Seq<TaskView>)
    decreases tags.len(),
{
    if tags.len() == 0 {
        (m, tasks)
    } else {
        let prev = rfid_directives_fold(m, tasks, tags.drop_last(), relays, night, now);
        rfid_directive_step(prev.0, prev.1, tags.last()@, relays, night, now)
    }
}

/// Position of the first record for tag id `id`, or `records.len()`.
pub open spec fn rfid_record_at(records: Seq<RfidTag>, id: u32) -> int {
    if exists|k: int| 0 <= k < records.len() && records[k].id_tag as u32 == id {
        choose|k: int|
            0 <= k < records.len() && records[k].id_tag as u32 == id && forall|l: int|
                0 <= l < k ==> records[l].id_tag as u32 != id
    } else {
        records.len() as int
    }
}

/// One pending tag id.
pub open spec fn rfid_id_step(
    m: MachineView,
    tasks: Seq<TaskView>,
    records: Seq<RfidTag>,
    id: u32,
    night: bool,
    now: u64,
) -> (MachineView, Seq<TaskView>) {
    let k = rfid_record_at(records, id);
    if k >= records.len() {
        (m, tasks)
    } else if records[k].tags@.len() > 0 {
        rfid_directives_fold(
            m,
            tasks,
            records[k].tags@,
            records[k].associated_relays@,
            night,
            now,
        )
    } else {
        (m, tasks + relay_tasks(records[k].associated_relays@))
    }
}

pub open spec fn rfid_fold(
    m: MachineView,
    tasks: Seq<TaskView>,
    records: Seq<RfidTag>,
    ids: Seq<u32>,
    night: bool,
    now: u64,
) -> (MachineView, Seq<TaskView>)
    decreases ids.len(),
{
    if ids.len() == 0 {
        (m, tasks)
    } else {
        let prev = rfid_fold(m, tasks, records, ids.drop_last(), night, now);
        rfid_id_step(prev.0, prev.1, records, ids.last(), night, now)
    }
}

// ------------------------------------------------------------ helpers

fn copy_ids(v: &Vec<i32>) -> (r: Vec<i32>)
    ensures
        r@ == v@,
{
    let mut r: Vec<i32> = Vec::new();
    let mut k: usize = 0;
    while k < v.len()
        invariant
            k <= v@.len(),
            r@ == v@.subrange(0, k as int),
        decreases v@.len() - k,
    {
        r.push(v[k]);
        assert(r@ =~= v@.subrange(0, k + 1));
        k = k + 1;
    }
    assert(v@.subrange(0, k as int) =~= v@);
    r
}

/// Queues a turn-on task for each relay id.
fn push_relay_tasks(tasks: &mut Vec<OneWireTask>, ids: &Vec<i32>)
    ensures
        task_views(final(tasks)@) == task_views(old(tasks)@) + relay_tasks(ids@),
{
    let ghost start = task_views(tasks@);
    let mut k: usize = 0;
    while k < ids.len()
        invariant
            k <= ids@.len(),
            task_views(tasks@) == start + relay_tasks(ids@.subrange(0, k as int)),
        decreases ids@.len() - k,
    {
        let ghost before = tasks@;
        tasks.push(
            OneWireTask {
                command: TaskCommand::TurnOnProlong,
                id_relay: Some(ids[k]),
                tag_group: None,
                duration: None,
            },
        );
        assert(task_views(tasks@) =~= task_views(before).push(relay_task(ids@[k as int])));
        assert(relay_tasks(ids@.subrange(0, k + 1)) =~= relay_tasks(ids@.subrange(0, k as int)).push(
            relay_task(ids@[k as int]),
        ));
        k = k + 1;
    }
    assert(ids@.subrange(0, k as int) =~= ids@);
}

fn push_entry_light_task(tasks: &mut Vec<OneWireTask>)
    ensures
        task_views(final(tasks)@) == task_views(old(tasks)@).push(entry_light_task()),
{
    let ghost before = tasks@;
    tasks.push(
        OneWireTask {
            command: TaskCommand::TurnOnProlongNight,
            id_relay: None,
            tag_group: Some(String::from_str("entry_light")),
            duration: Some(ENTRY_LIGHT_PROLONG_MS),
        },
    );
    assert(task_views(tasks@) =~= task_views(before).push(entry_light_task()));
}

/// Whether a tag list holds exactly the tag `t`.
pub fn tags_contain(tags: &Vec<String>, t: &str) -> (r: bool)
    ensures
        r == has_tag(tags@, t@),
{
    let mut k: usize = 0;
    while k < tags.len()
        invariant
            k <= tags@.len(),
            forall|i: int| 0 <= i < k ==> tags@[i]@ != t@,
        decreases tags@.len() - k,
    {
        if same_text(tags[k].as_str(), t) {
            return true;
        }
        k = k + 1;
    }
    false
}

impl StateMachine {
    /// A fresh context: modes off, gate disarmed, no probes, nothing sent.
    pub fn new(name: String, alarm_panel: bool) -> (r: StateMachine)
        ensures
            r.name == name,
            r@ == (MachineView {
                bedroom_mode: false,
                wicket_gate_started: None,
                wicket_gate_delay: None,
                wicket_gate_relays: Seq::empty(),
                alarm_panel,
                level: Seq::empty(),
                outbox: Seq::empty(),
            }),
    {
        let r = StateMachine {
            name,
            alarm_armed: false,
            bedroom_mode: false,
            wicket_gate_started: None,
            wicket_gate_delay: None,
            wicket_gate_relays: Vec::new(),
            alarm_panel,
            cesspool_level: CesspoolLevel::new(0),
            outbox: Vec::new(),
        };
        assert(r@.level =~= Seq::empty());
        assert(r@.outbox =~= Seq::empty());
        r
    }

    /// Adds a notice to the outbox.
    pub fn notify(&mut self, n: Notice)
        ensures
            final(self)@ == (MachineView { outbox: old(self)@.outbox.push(n@), ..old(self)@ }),
            final(self).name == old(self).name,
    {
        let ghost before = self.outbox@;
        self.outbox.push(n);
        assert(notice_views(self.outbox@) =~= notice_views(before).push(n@));
    }

    /// Hands over the notices produced so far and empties the outbox.
    pub fn take_notices(&mut self) -> (r: Vec<Notice>)
        ensures
            notice_views(r@) == old(self)@.outbox,
            final(self)@ == (MachineView { outbox: Seq::empty(), ..old(self)@ }),
            final(self).name == old(self).name,
    {
        let mut r: Vec<Notice> = Vec::new();
        std::mem::swap(&mut r, &mut self.outbox);
        assert(notice_views(self.outbox@) =~= Seq::empty());
        r
    }

    fn beep_confirmation(&mut self)
        ensures
            final(self)@ == (MachineView {
                outbox: old(self)@.outbox + confirmation_beep(old(self)@),
                ..old(self)@
            }),
            final(self).name == old(self).name,
    {
        if self.alarm_panel {
            self.notify(Notice::Beep(BeepMethod::Confirmation));
        }
        assert(self@.outbox =~= old(self)@.outbox + confirmation_beep(old(self)@));
    }

    fn cesspool_update(&mut self, tag: &str, on: bool)
        ensures
            ({
                let r = cesspool_step(old(self)@.level, old(self)@.outbox, tag@, on);
                final(self)@ == (MachineView { level: r.0, outbox: r.1, ..old(self)@ })
            }),
            final(self).name == old(self).name,
    {
        match tag_cesspool_index(tag) {
            Some(index) => {
                if 1 <= index && index <= self.cesspool_level.level.len() {
                    self.cesspool_level.set(index - 1, on);
                    if self.cesspool_level.got_all_sensors() {
                        let lcd = self.cesspool_level.get_level_lcd();
                        let pct = self.cesspool_level.get_level_percentage();
                        self.notify(
                            Notice::Lcd(
                                LcdTask { command: LcdTaskCommand::SetCesspoolLevel, int_arg: lcd },
                            ),
                        );
                        self.notify(db_notice(CommandCode::UpdateCesspoolLevel, pct as i32));
                    }
                }
            },
            None => {},
        }
    }

    fn tag_update(
        &mut self,
        tag: &str,
        sensor_on: bool,
        initial_read: bool,
        sensor_name: &str,
        id_sensor: i32,
    )
        ensures
            ({
                let r = tag_step(
                    old(self)@.level,
                    old(self)@.outbox,
                    tag@,
                    sensor_on,
                    initial_read,
                    old(self)@.alarm_panel,
                    sensor_name@,
                    id_sensor,
                );
                final(self)@ == (MachineView { level: r.0, outbox: r.1, ..old(self)@ })
            }),
            final(self).name == old(self).name,
    {
        let on = if contains(tag, "invert_state") {
            !sensor_on
        } else {
            sensor_on
        };
        if starts_with(tag, "monitor_in_influxdb") {
            let cmd = if on {
                CommandCode::UpdateSensorStateOn
            } else {
                CommandCode::UpdateSensorStateOff
            };
            self.notify(db_notice(cmd, id_sensor));
        }
        if !initial_read && !(on || contains(tag, "all_changes")) {
            return;
        }
        if !initial_read {
            if starts_with(tag, "cmd") {
                match second_field_of(tag) {
                    Some(command) => {
                        proof {
                            reveal_strlit("%name%");
                            reveal_strlit("%colon%");
                            reveal_strlit("%state%");
                        }
                        let on_off = if on {
                            "on"
                        } else {
                            "off"
                        };
                        let c1 = replace_text(command.as_str(), "%name%", sensor_name);
                        let c2 = replace_text(c1.as_str(), "%colon%", ":");
                        let c3 = replace_text(c2.as_str(), "%state%", on_off);
                        self.notify(Notice::Shell(c3));
                    },
                    None => {},
                }
            } else if self.alarm_panel && starts_with(tag, "doorbell") {
                self.notify(Notice::Beep(BeepMethod::DoorBell));
            }
        }
        self.cesspool_update(tag, on);
    }

    /// Bedroom-mode scan; returns the verdict if it ended the hook.
    fn bedroom_check(&mut self, tags: &Vec<String>) -> (r: Option<bool>)
        ensures
            ({
                let s = bedroom_scan(tags@, 0, old(self)@.bedroom_mode);
                &&& final(self)@ == (MachineView { bedroom_mode: s.0, ..old(self)@ })
                &&& r == s.1
            }),
            final(self).name == old(self).name,
    {
        let mut k: usize = 0;
        while k < tags.len()
            invariant
                k <= tags@.len(),
                bedroom_scan(tags@, k as int, self@.bedroom_mode) == bedroom_scan(
                    tags@,
                    0,
                    old(self)@.bedroom_mode,
                ),
                self@ == (MachineView { bedroom_mode: self@.bedroom_mode, ..old(self)@ }),
                self.name == old(self).name,
            decreases tags@.len() - k,
        {
            if same_text(tags[k].as_str(), "bedroom_enable") {
                if !self.bedroom_mode {
                    self.bedroom_mode = true;
                    return Some(true);
                } else {
                    return Some(false);
                }
            } else if same_text(tags[k].as_str(), "bedroom_disable") {
                self.bedroom_mode = false;
            }
            k = k + 1;
        }
        None
    }

    fn first_wicket_tag(tags: &Vec<String>) -> (r: usize)
        ensures
            r == first_with_prefix(tags@, "wicket_gate"@, 0),
            r <= tags@.len(),
    {
        let mut k: usize = 0;
        while k < tags.len()
            invariant
                k <= tags@.len(),
                first_with_prefix(tags@, "wicket_gate"@, k as int) == first_with_prefix(
                    tags@,
                    "wicket_gate"@,
                    0,
                ),
            decreases tags@.len() - k,
        {
            if starts_with(tags[k].as_str(), "wicket_gate") {
                return k;
            }
            k = k + 1;
        }
        k
    }

    /// Runs the rules for one sensor event and says whether the event goes
    /// on to the sensor's relays and lights (`false` stops it). On a first
    /// read (`initial_read`) only bookkeeping happens: metrics and cesspool
    /// probes.
    pub fn sensor_hook(
        &mut self,
        kind: SensorKind,
        sensor_name: &str,
        sensor_on: bool,
        sensor_tags: &Vec<String>,
        night: bool,
        initial_read: bool,
        pending_tasks: &mut Vec<OneWireTask>,
        id_sensor: i32,
        now: u64,
    ) -> (r: bool)
        ensures
            (final(self)@, task_views(final(pending_tasks)@), r) == sensor_step(
                old(self)@,
                task_views(old(pending_tasks)@),
                kind,
                sensor_name@,
                sensor_on,
                sensor_tags@,
                night,
                initial_read,
                id_sensor,
                now,
            ),
            final(self).name == old(self).name,
    {
        if !initial_read && kind == SensorKind::PirTrigger && sensor_on && night {
            match self.bedroom_check(sensor_tags) {
                Some(verdict) => {
                    return verdict;
                },
                None => {},
            }
        }
        let ghost m1 = self@;
        if !initial_read {
            let w = Self::first_wicket_tag(sensor_tags);
            if w < sensor_tags.len() {
                let on = if contains(sensor_tags[w].as_str(), "invert_state") {
                    !sensor_on
                } else {
                    sensor_on
                };
                if on {
                    match (self.wicket_gate_started, self.wicket_gate_delay) {
                        (Some(started), Some(delay)) => {
                            self.wicket_gate_started = None;
                            if elapsed_ms(started, now) < delay {
                                push_relay_tasks(pending_tasks, &self.wicket_gate_relays);
                                self.beep_confirmation();
                                if night {
                                    push_entry_light_task(pending_tasks);
                                }
                                assert(task_views(pending_tasks@) =~= task_views(
                                    old(pending_tasks)@,
                                ) + wicket_tasks(m1, night));
                            }
                            return false;
                        },
                        _ => {},
                    }
                }
            }
        }
        let mut k: usize = 0;
        while k < sensor_tags.len()
            invariant
                k <= sensor_tags@.len(),
                ({
                    let f = tags_fold(
                        sensor_tags@.subrange(0, k as int),
                        m1.level,
                        m1.outbox,
                        sensor_on,
                        initial_read,
                        m1.alarm_panel,
                        sensor_name@,
                        id_sensor,
                    );
                    self@ == (MachineView { level: f.0, outbox: f.1, ..m1 })
                }),
                self.name == old(self).name,
            decreases sensor_tags@.len() - k,
        {
            assert(sensor_tags@.subrange(0, k + 1).drop_last() =~= sensor_tags@.subrange(
                0,
                k as int,
            ));
            self.tag_update(sensor_tags[k].as_str(), sensor_on, initial_read, sensor_name, id_sensor);
            k = k + 1;
        }
        assert(sensor_tags@.subrange(0, k as int) =~= sensor_tags@);
        true
    }

    /// Decides whether an event reaches a relay: motion at night does not
    /// reach a relay tagged `night_exclude`. Otherwise the event goes on,
    /// and each `monitor_in_influxdb` tag of the relay sends its state.
    pub fn relay_hook(
        &mut self,
        kind: SensorKind,
        sensor_on: bool,
        relay_tags: &Vec<String>,
        night: bool,
        _flipflop_block: bool,
        id_relay: i32,
    ) -> (r: bool)
        ensures
            r == !relay_excluded(kind, sensor_on, relay_tags@, night),
            final(self)@ == (MachineView {
                outbox: old(self)@.outbox + if r {
                    relay_monitor_notices(relay_tags@, sensor_on, id_relay)
                } else {
                    Seq::empty()
                },
                ..old(self)@
            }),
            final(self).name == old(self).name,
    {
        if kind == SensorKind::PirTrigger && sensor_on && night && tags_contain(
            relay_tags,
            "night_exclude",
        ) {
            assert(self@.outbox =~= old(self)@.outbox + Seq::empty());
            return false;
        }
        let mut k: usize = 0;
        while k < relay_tags.len()
            invariant
                k <= relay_tags@.len(),
                self@ == (MachineView {
                    outbox: old(self)@.outbox + relay_monitor_notices(
                        relay_tags@.subrange(0, k as int),
                        sensor_on,
                        id_relay,
                    ),
                    ..old(self)@
                }),
                self.name == old(self).name,
            decreases relay_tags@.len() - k,
        {
            assert(relay_tags@.subrange(0, k + 1).drop_last() =~= relay_tags@.subrange(0, k as int));
            if starts_with(relay_tags[k].as_str(), "monitor_in_influxdb") {
                let cmd = if sensor_on {
                    CommandCode::UpdateRelayStateOn
                } else {
                    CommandCode::UpdateRelayStateOff
                };
                self.notify(db_notice(cmd, id_relay));
            }
            assert(self@.outbox =~= old(self)@.outbox + relay_monitor_notices(
                relay_tags@.subrange(0, k + 1),
                sensor_on,
                id_relay,
            ));
            k = k + 1;
        }
        assert(relay_tags@.subrange(0, k as int) =~= relay_tags@);
        true
    }

    /// Decides whether an event reaches a smart light: it always does.
    pub fn yeelight_hook(
        &mut self,
        _kind: SensorKind,
        _sensor_on: bool,
        _yeelight_tags: &Vec<String>,
        _night: bool,
        _flipflop_block: bool,
    ) -> (r: bool)
        ensures
            r,
            final(self)@ == old(self)@,
            final(self).name == old(self).name,
    {
        true
    }

    fn rfid_directive(
        &mut self,
        tag: &str,
        relays: &Vec<i32>,
        pending_tasks: &mut Vec<OneWireTask>,
        night: bool,
        now: u64,
    )
        ensures
            (final(self)@, task_views(final(pending_tasks)@)) == rfid_directive_step(
                old(self)@,
                task_views(old(pending_tasks)@),
                tag@,
                relays@,
                night,
                now,
            ),
            final(self).name == old(self).name,
    {
        if !starts_with(tag, "wicket_gate") {
            return;
        }
        match second_field_of(tag) {
            Some(f) => match parse_seconds_ms(f.as_str()) {
                Some(delay) => {
                    self.wicket_gate_started = Some(now);
                    self.wicket_gate_delay = Some(delay);
                    self.wicket_gate_relays = copy_ids(relays);
                    self.beep_confirmation();
                    if night {
                        push_entry_light_task(pending_tasks);
                    }
                    assert(task_views(pending_tasks@) =~= task_views(old(pending_tasks)@) + if night {
                        seq![entry_light_task()]
                    } else {
                        Seq::empty()
                    });
                },
                None => {},
            },
            None => {},
        }
    }

    fn find_rfid_record(records: &Vec<RfidTag>, id: u32) -> (r: usize)
        ensures
            r == rfid_record_at(records@, id),
            r <= records@.len(),
    {
        let mut k: usize = 0;
        while k < records.len()
            invariant
                k <= records@.len(),
                forall|l: int| 0 <= l < k ==> records@[l].id_tag as u32 != id,
            decreases records@.len() - k,
        {
            if records[k].id_tag as u32 == id {
                proof {
                    let w = choose|j: int|
                        0 <= j < records@.len() && records@[j].id_tag as u32 == id && forall|l: int|
                            0 <= l < j ==> records@[l].id_tag as u32 != id;
                    assert(0 <= w < records@.len() && records@[w].id_tag as u32 == id
                        && forall|l: int| 0 <= l < w ==> records@[l].id_tag as u32 != id);
                    assert(!(w < k));
                    assert(!(k < w));
                }
                return k;
            }
            k = k + 1;
        }
        k
    }

    /// Handles the RFID tags seen since the last pass, in order, and empties
    /// the queue of seen ids. Unknown ids are skipped.
    pub fn process_rfid_tags(
        &mut self,
        rfid_tags: &Vec<RfidTag>,
        rfid_pending_tags: &mut Vec<u32>,
        pending_tasks: &mut Vec<OneWireTask>,
        night: bool,
        now: u64,
    )
        ensures
            (final(self)@, task_views(final(pending_tasks)@)) == rfid_fold(
                old(self)@,
                task_views(old(pending_tasks)@),
                rfid_tags@,
                old(rfid_pending_tags)@,
                night,
                now,
            ),
            final(rfid_pending_tags)@.len() == 0,
            final(self).name == old(self).name,
    {
        let ghost m0 = self@;
        let ghost t0 = task_views(pending_tasks@);
        let mut k: usize = 0;
        while k < rfid_pending_tags.len()
            invariant
                k <= rfid_pending_tags@.len(),
                rfid_pending_tags@ == old(rfid_pending_tags)@,
                (self@, task_views(pending_tasks@)) == rfid_fold(
                    m0,
                    t0,
                    rfid_tags@,
                    rfid_pending_tags@.subrange(0, k as int),
                    night,
                    now,
                ),
                self.name == old(self).name,
            decreases rfid_pending_tags@.len() - k,
        {
            assert(rfid_pending_tags@.subrange(0, k + 1).drop_last() =~= rfid_pending_tags@.subrange(
                0,
                k as int,
            ));
            let id = rfid_pending_tags[k];
            let at = Self::find_rfid_record(rfid_tags, id);
            if at < rfid_tags.len() {
                let record = &rfid_tags[at];
                if record.tags.len() > 0 {
                    let ghost mi = self@;
                    let ghost ti = task_views(pending_tasks@);
                    let mut j: usize = 0;
                    while j < record.tags.len()
                        invariant
                            j <= record.tags@.len(),
                            (self@, task_views(pending_tasks@)) == rfid_directives_fold(
                                mi,
                                ti,
                                record.tags@.subrange(0, j as int),
                                record.associated_relays@,
                                night,
                                now,
                            ),
                            self.name == old(self).name,
                        decreases record.tags@.len() - j,
                    {
                        assert(record.tags@.subrange(0, j + 1).drop_last()
                            =~= record.tags@.subrange(0, j as int));
                        self.rfid_directive(
                            record.tags[j].as_str(),
                            &record.associated_relays,
                            pending_tasks,
                            night,
                            now,
                        );
                        j = j + 1;
                    }
                    assert(record.tags@.subrange(0, j as int) =~= record.tags@);
                } else {
                    push_relay_tasks(pending_tasks, &record.associated_relays);
                }
            }
            k = k + 1;
        }
        assert(rfid_pending_tags@.subrange(0, k as int) =~= rfid_pending_tags@);
        rfid_pending_tags.clear();
    }
}

// ------------------------------------------------------------ laws

/// Wicket gate: an RFID directive `wicket_gate:<seconds>` arms the wicket gate for
/// `d` milliseconds at `armed_at`; a later confirming sensor event queues
/// exactly one turn-on per stored relay (plus the entry lights at night) if
/// it comes within `d`, and none otherwise. Either way the wicket gate is disarmed
/// and the event goes no further.
pub proof fn lemma_wicket_gate(
    m0: MachineView,
    t0: Seq<TaskView>,
    directive: Seq<char>,
    relays: Seq<i32>,
    night_armed: bool,
    armed_at: u64,
    d: nat,
    kind: SensorKind,
    name: Seq<char>,
    on: bool,
    tags: Seq<String>,
    night: bool,
    id: i32,
    now: u64,
)
    requires
        has_prefix(directive, "wicket_gate"@),
        second_field(directive) matches Some(f) && parsed_seconds_ms(f) == Some(d),
        first_with_prefix(tags, "wicket_gate"@, 0) < tags.len(),
        effective_on(tags[first_with_prefix(tags, "wicket_gate"@, 0)]@, on),
        !(bedroom_applies(kind, on, night, false) && bedroom_scan(tags, 0, m0.bedroom_mode).1 is Some),
    ensures
        ({
            let armed = rfid_directive_step(m0, t0, directive, relays, night_armed, armed_at);
            let r = sensor_step(armed.0, armed.1, kind, name, on, tags, night, false, id, now);
            &&& armed.0.wicket_gate_started == Some(armed_at)
            &&& armed.0.wicket_gate_delay == Some(d as u64)
            &&& armed.0.wicket_gate_relays == relays
            &&& r.0.wicket_gate_started is None
            &&& !r.2
            &&& elapsed(armed_at, now) < d ==> r.1 == armed.1 + relay_tasks(relays) + if night {
                seq![entry_light_task()]
            } else {
                Seq::empty()
            }
            &&& elapsed(armed_at, now) >= d ==> r.1 == armed.1
        }),
{
}

proof fn lemma_scan_skip(tags: Seq<String>, j: int, e: int, mode: bool)
    requires
        0 <= j <= e <= tags.len(),
        forall|k: int| j <= k < e ==> tags[k]@ != "bedroom_enable"@ && tags[k]@ != "bedroom_disable"@,
    ensures
        bedroom_scan(tags, j, mode) == bedroom_scan(tags, e, mode),
    decreases e - j,
{
    if j < e {
        lemma_scan_skip(tags, j + 1, e, mode);
    }
}

proof fn lemma_scan_without_enable(tags: Seq<String>, j: int, mode: bool)
    requires
        0 <= j <= tags.len(),
        forall|k: int| j <= k < tags.len() ==> tags[k]@ != "bedroom_enable"@,
    ensures
        bedroom_scan(tags, j, mode).1 is None,
        !mode ==> !bedroom_scan(tags, j, mode).0,
        (exists|k: int| j <= k < tags.len() && tags[k]@ == "bedroom_disable"@) ==> !bedroom_scan(
            tags,
            j,
            mode,
        ).0,
    decreases tags.len() - j,
{
    if j < tags.len() {
        if tags[j]@ == "bedroom_disable"@ {
            lemma_scan_without_enable(tags, j + 1, false);
        } else {
            lemma_scan_without_enable(tags, j + 1, mode);
            if exists|k: int| j <= k < tags.len() && tags[k]@ == "bedroom_disable"@ {
                let k = choose|k: int| j <= k < tags.len() && tags[k]@ == "bedroom_disable"@;
                assert(j + 1 <= k);
            }
        }
    }
}

/// Bedroom mode: motion at night on a sensor whose first bedroom tag is
/// `bedroom_enable` is let through once when the mode is off, turning it on;
/// while the mode is on such events are stopped and nothing changes. An
/// event on a sensor tagged `bedroom_disable` and not `bedroom_enable`
/// turns the mode off.
pub proof fn lemma_bedroom_mode(
    m: MachineView,
    tasks: Seq<TaskView>,
    name: Seq<char>,
    tags: Seq<String>,
    e: int,
    id: i32,
    now: u64,
)
    requires
        0 <= e < tags.len(),
        tags[e]@ == "bedroom_enable"@,
        forall|k: int| 0 <= k < e ==> tags[k]@ != "bedroom_enable"@ && tags[k]@ != "bedroom_disable"@,
    ensures
        ({
            let r = sensor_step(m, tasks, SensorKind::PirTrigger, name, true, tags, true, false, id, now);
            &&& !m.bedroom_mode ==> r == (MachineView { bedroom_mode: true, ..m }, tasks, true)
            &&& m.bedroom_mode ==> r == (m, tasks, false)
        }),
{
    lemma_scan_skip(tags, 0, e, m.bedroom_mode);
    assert(MachineView { bedroom_mode: m.bedroom_mode, ..m } == m);
}

/// Bedroom mode ends with a night-time motion event from a sensor tagged
/// `bedroom_disable` (and not `bedroom_enable`).
pub proof fn lemma_bedroom_disable(
    m: MachineView,
    tasks: Seq<TaskView>,
    name: Seq<char>,
    tags: Seq<String>,
    d: int,
    id: i32,
    now: u64,
)
    requires
        0 <= d < tags.len(),
        tags[d]@ == "bedroom_disable"@,
        forall|k: int| 0 <= k < tags.len() ==> tags[k]@ != "bedroom_enable"@,
    ensures
        !sensor_step(m, tasks, SensorKind::PirTrigger, name, true, tags, true, false, id, now).0.bedroom_mode,
{
    lemma_scan_without_enable(tags, 0, m.bedroom_mode);
}

/// The cesspool figures are only sent once every probe has reported, and
/// then they are the occupied count and its rounded percentage.
pub proof fn lemma_cesspool_sent_when_complete(
    level: Seq<Option<bool>>,
    out: Seq<NoticeView>,
    tag: Seq<char>,
    on: bool,
)
    ensures
        ({
            let r = cesspool_step(level, out, tag, on);
            &&& r.1 != out ==> all_reported(r.0) && r.0.len() > 0 && r.1 == out.push(
                NoticeView::Lcd(
                    LcdTask {
                        command: LcdTaskCommand::SetCesspoolLevel,
                        int_arg: (occupied(r.0) % 256) as u8,
                    },
                ),
            ).push(
                NoticeView::Db(
                    DbTask {
                        command: CommandCode::UpdateCesspoolLevel,
                        value: Some(rounded_percentage(occupied(r.0), r.0.len()) as i32),
                    },
                ),
            )
            &&& !all_reported(r.0) ==> r.1 == out
        }),
{
}

} // verus!
