//! Values exchanged with the rest of the daemon: tasks queued for relays,
//! RFID tag records, and the notices the engine hands to its collaborators
//! (metrics store, LCD, alarm panel, shell, smart lights).
use vstd::prelude::*;

verus! {

/// What a queued relay task asks for.
#[derive(Clone, Copy, Debug, PartialEq, Eq, Structural)]
pub enum TaskCommand {
    TurnOnProlong,
    TurnOnProlongNight,
    TurnOff,
}

/// A relay task, aimed at one relay by id or at every relay carrying a tag.
/// `duration` is in milliseconds.
pub struct OneWireTask {
    pub command: TaskCommand,
    pub id_relay: Option<i32>,
    pub tag_group: Option<String>,
    pub duration: Option<u64>,
}

/// The mathematical content of a task.
pub struct TaskView {
    pub command: TaskCommand,
    pub id_relay: Option<i32>,
    pub tag_group: Option<Seq<char>>,
    pub duration: Option<u64>,
}

impl View for OneWireTask {
    type V = TaskView;

    open spec fn view(&self) -> TaskView {
        TaskView {
            command: self.command,
            id_relay: self.id_relay,
            tag_group: match self.tag_group {
                Some(g) => Some(g@),
                None => None,
            },
            duration: self.duration,
        }
    }
}

/// The views of a sequence of tasks.
pub open spec fn task_views(s: Seq<OneWireTask>) -> Seq<TaskView> {
    s.map_values(|t: OneWireTask| t@)
}

/// Operation requested from the metrics store.
#[derive(Clone, Copy, Debug, PartialEq, Eq, Structural)]
pub enum CommandCode {
    IncrementRelayCounter,
    IncrementYeelightCounter,
    IncrementSensorCounter,
    UpdateRelayStateOn,
    UpdateRelayStateOff,
    UpdateSensorStateOn,
    UpdateSensorStateOff,
    UpdateCesspoolLevel,
}

/// A request to the metrics store.
#[derive(Clone, Copy, Debug, PartialEq, Eq, Structural)]
pub struct DbTask {
    pub command: CommandCode,
    pub value: Option<i32>,
}

/// Operation requested from the LCD updater.
#[derive(Clone, Copy, Debug, PartialEq, Eq, Structural)]
pub enum LcdTaskCommand {
    SetCesspoolLevel,
}

/// A request to the LCD updater.
#[derive(Clone, Copy, Debug, PartialEq, Eq, Structural)]
pub struct LcdTask {
    pub command: LcdTaskCommand,
    pub int_arg: u8,
}

/// Sound that the alarm panel is asked to make.
#[derive(Clone, Copy, Debug, PartialEq, Eq, Structural)]
pub enum BeepMethod {
    Confirmation,
    DoorBell,
}

/// Something the engine asks a collaborator to do; the caller delivers it.
pub enum Notice {
    Db(DbTask),
    Lcd(LcdTask),
    Beep(BeepMethod),
    /// A shell command line: the program, then its arguments.
    Shell(String),
    /// Power a smart light on or off.
    Yeelight { name: String, ip_address: String, turn_on: bool },
}

/// The mathematical content of a notice.
pub enum NoticeView {
    Db(DbTask),
    Lcd(LcdTask),
    Beep(BeepMethod),
    Shell(Seq<char>),
    Yeelight { name: Seq<char>, ip_address: Seq<char>, turn_on: bool },
}

impl View for Notice {
    type V = NoticeView;

    open spec fn view(&self) -> NoticeView {
        match self {
            Notice::Db(t) => NoticeView::Db(*t),
            Notice::Lcd(t) => NoticeView::Lcd(*t),
            Notice::Beep(m) => NoticeView::Beep(*m),
            Notice::Shell(c) => NoticeView::Shell(c@),
            Notice::Yeelight { name, ip_address, turn_on } => NoticeView::Yeelight {
                name: name@,
                ip_address: ip_address@,
                turn_on: *turn_on,
            },
        }
    }
}

/// The views of a sequence of notices.
pub open spec fn notice_views(s: Seq<Notice>) -> Seq<NoticeView> {
    s.map_values(|n: Notice| n@)
}

/// An RFID tag known to the system.
pub struct RfidTag {
    pub id_tag: i32,
    pub name: String,
    pub tags: Vec<String>,
    pub associated_relays: Vec<i32>,
}

/// A metrics request as a notice.
pub fn db_notice(command: CommandCode, value: i32) -> (r: Notice)
    ensures
        r@ == NoticeView::Db(DbTask { command, value: Some(value) }),
{
    Notice::Db(DbTask { command, value: Some(value) })
}

} // verus!
