//! The device model: sensor boards with their sensors, relay boards with their
//! relays, smart lights, and the registries that hold them.
//!
//! Relay boards drive their outputs with inverted polarity: a cleared bit
//! means the relay is on. Only this module looks at that encoding; the rest
//! of the crate asks `is_bit_on` and calls `bit_set_on` / `bit_set_off`.
use vstd::prelude::*;
use crate::text::{has_prefix, parsed_usize, second_field, parse_usize, second_field_of, starts_with};

verus! {

pub const FAMILY_CODE_DS2413: u8 = 0x3a;
pub const FAMILY_CODE_DS2408: u8 = 0x29;
pub const FAMILY_CODE_DS18S20: u8 = 0x10;
pub const FAMILY_CODE_DS18B20: u8 = 0x28;
pub const FAMILY_CODE_DS2438: u8 = 0x26;

/// Output byte of a relay board before anything was written: all relays off.
pub const DS2408_INITIAL_STATE: u8 = 0xff;

/// Default hold time after a motion sensor turned a relay on (2 minutes).
pub const DEFAULT_PIR_HOLD_MS: u64 = 120000;
/// Default hold time after a wall switch turned a relay on (1 hour).
pub const DEFAULT_SWITCH_HOLD_MS: u64 = 3600000;
/// Prolonging granted by motion while in override mode (15 minutes).
pub const DEFAULT_PIR_PROLONG_MS: u64 = 900000;
/// Flip-flop protection: minimum delay between two toggles (1 second).
pub const MIN_TOGGLE_DELAY_MS: u64 = 1000;
/// Hold time for entry lights lit by the wicket gate (10 minutes).
pub const ENTRY_LIGHT_PROLONG_MS: u64 = 600000;

// ---------------------------------------------------------------- names

/// The lowercase hexadecimal digit for `d < 16`.
pub open spec fn hex_char(d: nat) -> char {
    if d < 10 {
        (('0' as u32) + d) as char
    } else {
        (('a' as u32) + d - 10) as char
    }
}

/// Hexadecimal digits of `v`, least significant first, at least `w` of them.
pub open spec fn hex_rev(v: nat, w: nat) -> Seq<char>
    decreases v, w,
{
    if v == 0 && w == 0 {
        Seq::empty()
    } else {
        seq![hex_char(v % 16)] + hex_rev(v / 16, if w > 0 { (w - 1) as nat } else { 0 })
    }
}

/// `v` in lowercase hexadecimal, zero-padded to at least `w` digits.
pub open spec fn hex_padded(v: nat, w: nat) -> Seq<char> {
    hex_rev(v, w).reverse()
}

/// The bus name of a device: family code, a dash and the address, in hex.
pub open spec fn w1_device_name(family_code: u8, address: u64) -> Seq<char> {
    hex_padded(family_code as nat, 2) + seq!['-'] + hex_padded(address as nat, 12)
}

fn hex_digit_str(d: u8) -> (r: &'static str)
    requires
        d < 16,
    ensures
        r@ == seq![hex_char(d as nat)],
{
    proof {
        reveal_strlit("0");
        reveal_strlit("1");
        reveal_strlit("2");
        reveal_strlit("3");
        reveal_strlit("4");
        reveal_strlit("5");
        reveal_strlit("6");
        reveal_strlit("7");
        reveal_strlit("8");
        reveal_strlit("9");
        reveal_strlit("a");
        reveal_strlit("b");
        reveal_strlit("c");
        reveal_strlit("d");
        reveal_strlit("e");
        reveal_strlit("f");
    }
    let r = match d {
        0 => "0",
        1 => "1",
        2 => "2",
        3 => "3",
        4 => "4",
        5 => "5",
        6 => "6",
        7 => "7",
        8 => "8",
        9 => "9",
        10 => "a",
        11 => "b",
        12 => "c",
        13 => "d",
        14 => "e",
        _ => "f",
    };
    assert(r@ =~= seq![hex_char(d as nat)]);
    r
}

/// Appends `v` in hex, zero-padded to `w` digits, to `out`.
fn append_hex(out: &mut String, v: u64, w: u64)
    ensures
        final(out)@ == old(out)@ + hex_padded(v as nat, w as nat),
{
    let mut digits: Vec<u8> = Vec::new();
    let mut cur = v;
    let mut cw = w;
    while cur != 0 || cw != 0
        invariant
            forall|k: int| 0 <= k < digits.len() ==> digits@[k] < 16,
            digits@.map_values(|d: u8| hex_char(d as nat)) + hex_rev(cur as nat, cw as nat)
                == hex_rev(v as nat, w as nat),
        decreases cur, cw,
    {
        let ghost before = digits@;
        digits.push((cur % 16) as u8);
        assert(digits@.map_values(|d: u8| hex_char(d as nat)) =~= before.map_values(
            |d: u8| hex_char(d as nat),
        ) + seq![hex_char(cur as nat % 16)]);
        cur = cur / 16;
        if cw > 0 {
            cw = cw - 1;
        }
    }
    let ghost rev = digits@.map_values(|d: u8| hex_char(d as nat));
    assert(rev =~= hex_rev(v as nat, w as nat));
    let n = digits.len();
    let mut j = n;
    let ghost start = out@;
    while j > 0
        invariant
            j <= n == digits.len(),
            forall|k: int| 0 <= k < digits.len() ==> digits@[k] < 16,
            rev == digits@.map_values(|d: u8| hex_char(d as nat)),
            out@ == start + rev.subrange(j as int, n as int).reverse(),
        decreases j,
    {
        let s = hex_digit_str(digits[j - 1]);
        out.append(s);
        assert(rev.subrange(j - 1, n as int).reverse() =~= rev.subrange(j as int, n as int).reverse()
            + seq![rev[j - 1]]);
        j = j - 1;
    }
    assert(rev.subrange(0, n as int) =~= rev);
}

/// The bus name of a device, as its directory is called: `ff-0000000000ab`.
pub fn get_w1_device_name(family_code: u8, address: u64) -> (r: String)
    ensures
        r@ == w1_device_name(family_code, address),
{
    let mut out = String::new();
    append_hex(&mut out, family_code as u64, 2);
    proof {
        reveal_strlit("-");
    }
    out.append("-");
    append_hex(&mut out, address, 12);
    out
}

// ---------------------------------------------------------------- bits

/// Relay `i` is on in output byte `state` (its bit is cleared).
pub open spec fn is_bit_on(state: u8, i: u8) -> bool {
    state & (1u8 << i) == 0
}

pub open spec fn bit_set_on(state: u8, i: u8) -> u8 {
    state & !(1u8 << i)
}

pub open spec fn bit_set_off(state: u8, i: u8) -> u8 {
    state | (1u8 << i)
}

pub open spec fn bit_toggled(state: u8, i: u8) -> u8 {
    state ^ (1u8 << i)
}

/// How setting, clearing and flipping one output bit affects every bit.
pub proof fn lemma_bit_ops(s: u8, i: u8, j: u8)
    requires
        i < 8,
        j < 8,
    ensures
        is_bit_on(bit_set_on(s, i), i),
        !is_bit_on(bit_set_off(s, i), i),
        is_bit_on(bit_toggled(s, i), i) == !is_bit_on(s, i),
        i != j ==> is_bit_on(bit_set_on(s, i), j) == is_bit_on(s, j),
        i != j ==> is_bit_on(bit_set_off(s, i), j) == is_bit_on(s, j),
        i != j ==> is_bit_on(bit_toggled(s, i), j) == is_bit_on(s, j),
{
    assert((s & !(1u8 << i)) & (1u8 << i) == 0) by (bit_vector)
        requires
            i < 8,
    ;
    assert((s | (1u8 << i)) & (1u8 << i) != 0) by (bit_vector)
        requires
            i < 8,
    ;
    assert(((s ^ (1u8 << i)) & (1u8 << i) == 0) == (s & (1u8 << i) != 0)) by (bit_vector)
        requires
            i < 8,
    ;
    assert(i != j ==> (((s & !(1u8 << i)) & (1u8 << j) == 0) == (s & (1u8 << j) == 0)))
        by (bit_vector)
        requires
            i < 8,
            j < 8,
    ;
    assert(i != j ==> (((s | (1u8 << i)) & (1u8 << j) == 0) == (s & (1u8 << j) == 0)))
        by (bit_vector)
        requires
            i < 8,
            j < 8,
    ;
    assert(i != j ==> (((s ^ (1u8 << i)) & (1u8 << j) == 0) == (s & (1u8 << j) == 0)))
        by (bit_vector)
        requires
            i < 8,
            j < 8,
    ;
}

/// Whether relay `i` is on in output byte `state`.
pub fn bit_is_on(state: u8, i: u8) -> (r: bool)
    requires
        i < 8,
    ensures
        r == is_bit_on(state, i),
{
    state & (1u8 << i) == 0
}

/// The output byte with relay `i` on.
pub fn set_bit_on(state: u8, i: u8) -> (r: u8)
    requires
        i < 8,
    ensures
        r == bit_set_on(state, i),
        is_bit_on(r, i),
        forall|j: u8| j < 8 && j != i ==> is_bit_on(r, j) == is_bit_on(state, j),
{
    proof {
        assert forall|j: u8| j < 8 && j != i implies is_bit_on(bit_set_on(state, i), j)
            == is_bit_on(state, j) by {
            lemma_bit_ops(state, i, j);
        }
        lemma_bit_ops(state, i, i);
    }
    state & !(1u8 << i)
}

/// The output byte with relay `i` off.
pub fn set_bit_off(state: u8, i: u8) -> (r: u8)
    requires
        i < 8,
    ensures
        r == bit_set_off(state, i),
        !is_bit_on(r, i),
        forall|j: u8| j < 8 && j != i ==> is_bit_on(r, j) == is_bit_on(state, j),
{
    proof {
        assert forall|j: u8| j < 8 && j != i implies is_bit_on(bit_set_off(state, i), j)
            == is_bit_on(state, j) by {
            lemma_bit_ops(state, i, j);
        }
        lemma_bit_ops(state, i, i);
    }
    state | (1u8 << i)
}

/// The output byte with relay `i` flipped.
pub fn toggle_bit(state: u8, i: u8) -> (r: u8)
    requires
        i < 8,
    ensures
        r == bit_toggled(state, i),
        is_bit_on(r, i) == !is_bit_on(state, i),
        forall|j: u8| j < 8 && j != i ==> is_bit_on(r, j) == is_bit_on(state, j),
{
    proof {
        assert forall|j: u8| j < 8 && j != i implies is_bit_on(bit_toggled(state, i), j)
            == is_bit_on(state, j) by {
            lemma_bit_ops(state, i, j);
        }
        lemma_bit_ops(state, i, i);
    }
    state ^ (1u8 << i)
}

/// Input bit `bit` of a sensor board byte is set.
pub open spec fn input_bit_set(value: u8, bit: u8) -> bool {
    value & (1u8 << bit) != 0
}

/// Whether input bit `bit` of `value` is set.
pub fn input_bit(value: u8, bit: u8) -> (r: bool)
    requires
        bit < 8,
    ensures
        r == input_bit_set(value, bit),
{
    value & (1u8 << bit) != 0
}

/// The raw sensor-board bytes that this installation can produce; any other
/// byte is a read glitch.
pub open spec fn is_valid_sensor_byte(b: u8) -> bool {
    b == 0x5a || b == 0x4b || b == 0x1e || b == 0x0f
}

/// Checks a raw byte read from a sensor board against the allow-list.
pub fn valid_sensor_byte(b: u8) -> (r: bool)
    ensures
        r == is_valid_sensor_byte(b),
{
    b == 0x5a || b == 0x4b || b == 0x1e || b == 0x0f
}

// ---------------------------------------------------------------- devices

/// A binary sensor wired to one input of a sensor board.
pub struct Sensor {
    pub id_sensor: i32,
    pub id_kind: i32,
    pub name: String,
    pub tags: Vec<String>,
    pub associated_relays: Vec<i32>,
    pub associated_yeelights: Vec<i32>,
}

/// A two-input sensor board: inputs at bits 0 (`pio_a`) and 2 (`pio_b`).
/// `last_value` is the last valid byte read, `None` before the first read.
pub struct SensorBoard {
    pub pio_a: Option<Sensor>,
    pub pio_b: Option<Sensor>,
    pub ow_family: u8,
    pub ow_address: u64,
    pub last_value: Option<u8>,
}

/// A relay output with its timing state. Times are milliseconds on the
/// caller's monotonic clock; `stop_after` is measured from `last_toggled`.
pub struct Relay {
    pub id_relay: i32,
    pub name: String,
    pub tags: Vec<String>,
    pub pir_exclude: bool,
    pub pir_hold_ms: u64,
    pub switch_hold_ms: u64,
    pub pir_all_day: bool,
    pub override_mode: bool,
    pub last_toggled: Option<u64>,
    pub stop_after: Option<u64>,
}

/// An eight-output relay board. `new_value` is the output byte staged during
/// the current pass; `last_value` the byte last written.
pub struct RelayBoard {
    pub relay: Vec<Option<Relay>>,
    pub ow_family: u8,
    pub ow_address: u64,
    pub new_value: Option<u8>,
    pub last_value: Option<u8>,
}

/// A network-controlled light; it mirrors a relay, with `powered_on` in place
/// of an output bit.
pub struct Yeelight {
    pub id_yeelight: i32,
    pub name: String,
    pub tags: Vec<String>,
    pub ip_address: String,
    pub pir_exclude: bool,
    pub pir_hold_ms: u64,
    pub switch_hold_ms: u64,
    pub pir_all_day: bool,
    pub override_mode: bool,
    pub last_toggled: Option<u64>,
    pub stop_after: Option<u64>,
    pub powered_on: bool,
}

/// The sensor side of the installation: kind codes by kind id, the boards,
/// and the largest cesspool probe index any sensor declares.
pub struct SensorDevices {
    pub kinds: std::collections::HashMap<i32, String>,
    pub sensor_boards: Vec<SensorBoard>,
    pub max_cesspool_level: usize,
}

/// The actuator side of the installation.
pub struct RelayDevices {
    pub relay_boards: Vec<RelayBoard>,
    pub yeelight: Vec<Yeelight>,
}

impl RelayBoard {
    /// Every board has exactly eight relay slots.
    pub open spec fn wf(&self) -> bool {
        self.relay@.len() == 8
    }

    /// The output byte the pass works from: the staged byte, else the last
    /// written one, else all off.
    pub open spec fn staged(&self) -> u8 {
        match self.new_value {
            Some(v) => v,
            None => match self.last_value {
                Some(v) => v,
                None => DS2408_INITIAL_STATE,
            },
        }
    }

    /// The output byte the pass works from.
    pub fn staged_state(&self) -> (r: u8)
        ensures
            r == self.staged(),
    {
        match self.new_value {
            Some(v) => v,
            None => match self.last_value {
                Some(v) => v,
                None => DS2408_INITIAL_STATE,
            },
        }
    }
}

impl RelayDevices {
    pub open spec fn wf(&self) -> bool {
        forall|b: int| 0 <= b < self.relay_boards@.len() ==> (#[trigger] self.relay_boards@[b]).wf()
    }
}

/// The probe index a tag `cesspool:<n>` declares.
pub open spec fn cesspool_index(tag: Seq<char>) -> Option<nat> {
    if has_prefix(tag, "cesspool"@) {
        match second_field(tag) {
            Some(f) => parsed_usize(f),
            None => None,
        }
    } else {
        None
    }
}

/// The largest of `m` and the probe indexes that `tags` declare.
pub open spec fn max_cesspool_index(tags: Seq<String>, m: nat) -> nat
    decreases tags.len(),
{
    if tags.len() == 0 {
        m
    } else {
        let rest = max_cesspool_index(tags.drop_last(), m);
        match cesspool_index(tags.last()@) {
            Some(i) => if i > rest { i } else { rest },
            None => rest,
        }
    }
}

/// The probe index that a tag `cesspool:<n>` declares.
pub fn tag_cesspool_index(tag: &str) -> (r: Option<usize>)
    ensures
        r matches Some(i) ==> cesspool_index(tag@) == Some(i as nat),
        r is None ==> cesspool_index(tag@) is None,
{
    if !starts_with(tag, "cesspool") {
        return None;
    }
    match second_field_of(tag) {
        Some(f) => parse_usize(f.as_str()),
        None => None,
    }
}

/// Position of the first board at `address`, or the number of boards.
pub open spec fn sensor_board_at(boards: Seq<SensorBoard>, address: u64) -> int {
    if exists|k: int| 0 <= k < boards.len() && boards[k].ow_address == address {
        choose|k: int|
            0 <= k < boards.len() && boards[k].ow_address == address && forall|l: int|
                0 <= l < k ==> boards[l].ow_address != address
    } else {
        boards.len() as int
    }
}

/// Position of the first board at `address`, or the number of boards.
pub open spec fn relay_board_at(boards: Seq<RelayBoard>, address: u64) -> int {
    if exists|k: int| 0 <= k < boards.len() && boards[k].ow_address == address {
        choose|k: int|
            0 <= k < boards.len() && boards[k].ow_address == address && forall|l: int|
                0 <= l < k ==> boards[l].ow_address != address
    } else {
        boards.len() as int
    }
}

fn find_sensor_board(boards: &Vec<SensorBoard>, address: u64) -> (r: usize)
    ensures
        r == sensor_board_at(boards@, address),
        r <= boards@.len(),
        r < boards@.len() ==> boards@[r as int].ow_address == address,
{
    let mut k: usize = 0;
    while k < boards.len()
        invariant
            k <= boards@.len(),
            forall|l: int| 0 <= l < k ==> boards@[l].ow_address != address,
        decreases boards@.len() - k,
    {
        if boards[k].ow_address == address {
            proof {
                let w = choose|j: int|
                    0 <= j < boards@.len() && boards@[j].ow_address == address && forall|l: int|
                        0 <= l < j ==> boards@[l].ow_address != address;
                assert(0 <= w < boards@.len() && boards@[w].ow_address == address
                    && forall|l: int| 0 <= l < w ==> boards@[l].ow_address != address);
                assert(!(w < k));
                assert(!(k < w));
            }
            return k;
        }
        k = k + 1;
    }
    k
}

fn find_relay_board(boards: &Vec<RelayBoard>, address: u64) -> (r: usize)
    ensures
        r == relay_board_at(boards@, address),
        r <= boards@.len(),
        r < boards@.len() ==> boards@[r as int].ow_address == address,
{
    let mut k: usize = 0;
    while k < boards.len()
        invariant
            k <= boards@.len(),
            forall|l: int| 0 <= l < k ==> boards@[l].ow_address != address,
        decreases boards@.len() - k,
    {
        if boards[k].ow_address == address {
            proof {
                let w = choose|j: int|
                    0 <= j < boards@.len() && boards@[j].ow_address == address && forall|l: int|
                        0 <= l < j ==> boards@[l].ow_address != address;
                assert(0 <= w < boards@.len() && boards@[w].ow_address == address
                    && forall|l: int| 0 <= l < w ==> boards@[l].ow_address != address);
                assert(!(w < k));
                assert(!(k < w));
            }
            return k;
        }
        k = k + 1;
    }
    k
}

impl SensorDevices {
    /// Registers a sensor on input `bit` (0 or 2) of the board at `address`,
    /// creating the board if none is known there, and raises
    /// `max_cesspool_level` to the probe indexes its tags declare. A sensor on
    /// another bit is not attached.
    pub fn add_sensor(
        &mut self,
        id_sensor: i32,
        id_kind: i32,
        name: String,
        family_code: Option<u8>,
        address: u64,
        bit: u8,
        associated_relays: Vec<i32>,
        associated_yeelights: Vec<i32>,
        tags: Vec<String>,
    )
        ensures
            ({
                let at = sensor_board_at(old(self).sensor_boards@, address);
                let fresh = at == old(self).sensor_boards@.len();
                let b = final(self).sensor_boards@[at];
                let sensor = Sensor {
                    id_sensor,
                    id_kind,
                    name,
                    tags,
                    associated_relays,
                    associated_yeelights,
                };
                &&& final(self).sensor_boards@.len() == old(self).sensor_boards@.len() + if fresh {
                    1int
                } else {
                    0
                }
                &&& forall|k: int|
                    0 <= k < old(self).sensor_boards@.len() && k != at
                        ==> final(self).sensor_boards@[k] == old(self).sensor_boards@[k]
                &&& b.ow_address == address
                &&& fresh ==> b.ow_family == match family_code {
                    Some(f) => f,
                    None => FAMILY_CODE_DS2413,
                } && b.last_value is None
                &&& !fresh ==> b.ow_family == old(self).sensor_boards@[at].ow_family
                    && b.last_value == old(self).sensor_boards@[at].last_value
                &&& b.pio_a == if bit == 0 {
                    Some(sensor)
                } else if fresh {
                    None
                } else {
                    old(self).sensor_boards@[at].pio_a
                }
                &&& b.pio_b == if bit == 2 {
                    Some(sensor)
                } else if fresh {
                    None
                } else {
                    old(self).sensor_boards@[at].pio_b
                }
            }),
            final(self).kinds@ == old(self).kinds@,
            final(self).max_cesspool_level as nat == max_cesspool_index(
                tags@,
                old(self).max_cesspool_level as nat,
            ),
    {
        let at = find_sensor_board(&self.sensor_boards, address);
        if at == self.sensor_boards.len() {
            let ow_family = match family_code {
                Some(f) => f,
                None => FAMILY_CODE_DS2413,
            };
            self.sensor_boards.push(
                SensorBoard { pio_a: None, pio_b: None, ow_family, ow_address: address, last_value: None },
            );
        }
        let mut max_level = self.max_cesspool_level;
        let mut k: usize = 0;
        while k < tags.len()
            invariant
                k <= tags@.len(),
                max_level as nat == max_cesspool_index(
                    tags@.subrange(0, k as int),
                    self.max_cesspool_level as nat,
                ),
            decreases tags@.len() - k,
        {
            assert(tags@.subrange(0, k + 1).drop_last() =~= tags@.subrange(0, k as int));
            match tag_cesspool_index(tags[k].as_str()) {
                Some(index) => {
                    if max_level < index {
                        max_level = index;
                    }
                },
                None => {},
            }
            k = k + 1;
        }
        assert(tags@.subrange(0, tags@.len() as int) =~= tags@);
        self.max_cesspool_level = max_level;
        let sensor = Sensor { id_sensor, id_kind, name, tags, associated_relays, associated_yeelights };
        let board = &mut self.sensor_boards[at];
        if bit == 0 {
            board.pio_a = Some(sensor);
        } else if bit == 2 {
            board.pio_b = Some(sensor);
        }
    }
}

impl RelayDevices {
    /// Registers a relay on output `bit` of the board at `address`, creating
    /// the board (all outputs off) if none is known there. Hold times default
    /// to `DEFAULT_PIR_HOLD_MS` and `DEFAULT_SWITCH_HOLD_MS`. A relay with
    /// `initial_state` is staged on and starts in override mode; its bit is
    /// set on top of the byte already staged for the board, so several
    /// relays of one board can all start on.
    pub fn add_relay(
        &mut self,
        id_relay: i32,
        name: String,
        family_code: Option<u8>,
        address: u64,
        bit: u8,
        pir_exclude: bool,
        pir_hold_ms: Option<u64>,
        switch_hold_ms: Option<u64>,
        initial_state: bool,
        pir_all_day: bool,
        tags: Vec<String>,
    )
        requires
            old(self).wf(),
            bit < 8,
        ensures
            final(self).wf(),
            final(self).yeelight@ == old(self).yeelight@,
            ({
                let at = relay_board_at(old(self).relay_boards@, address);
                let fresh = at == old(self).relay_boards@.len();
                let b = final(self).relay_boards@[at];
                let before = if fresh {
                    DS2408_INITIAL_STATE
                } else {
                    old(self).relay_boards@[at].staged()
                };
                let relay = Relay {
                    id_relay,
                    name,
                    tags,
                    pir_exclude,
                    pir_hold_ms: match pir_hold_ms {
                        Some(h) => h,
                        None => DEFAULT_PIR_HOLD_MS,
                    },
                    switch_hold_ms: match switch_hold_ms {
                        Some(h) => h,
                        None => DEFAULT_SWITCH_HOLD_MS,
                    },
                    pir_all_day,
                    override_mode: initial_state,
                    last_toggled: None,
                    stop_after: None,
                };
                &&& final(self).relay_boards@.len() == old(self).relay_boards@.len() + if fresh {
                    1int
                } else {
                    0
                }
                &&& forall|k: int|
                    0 <= k < old(self).relay_boards@.len() && k != at
                        ==> final(self).relay_boards@[k] == old(self).relay_boards@[k]
                &&& b.ow_address == address
                &&& fresh ==> b.ow_family == match family_code {
                    Some(f) => f,
                    None => FAMILY_CODE_DS2408,
                } && b.last_value == Some(DS2408_INITIAL_STATE)
                &&& !fresh ==> b.ow_family == old(self).relay_boards@[at].ow_family
                    && b.last_value == old(self).relay_boards@[at].last_value
                &&& b.relay@[bit as int] == Some(relay)
                &&& forall|j: int|
                    0 <= j < 8 && j != bit ==> b.relay@[j] == if fresh {
                        None
                    } else {
                        old(self).relay_boards@[at].relay@[j]
                    }
                &&& b.new_value == if initial_state {
                    Some(bit_set_on(before, bit))
                } else if fresh {
                    None
                } else {
                    old(self).relay_boards@[at].new_value
                }
            }),
    {
        let at = find_relay_board(&self.relay_boards, address);
        if at == self.relay_boards.len() {
            let ow_family = match family_code {
                Some(f) => f,
                None => FAMILY_CODE_DS2408,
            };
            let mut slots: Vec<Option<Relay>> = Vec::new();
            let mut k: usize = 0;
            while k < 8
                invariant
                    k <= 8,
                    slots@.len() == k,
                    forall|j: int| 0 <= j < k ==> slots@[j] is None,
                decreases 8 - k,
            {
                slots.push(None);
                k = k + 1;
            }
            self.relay_boards.push(
                RelayBoard {
                    relay: slots,
                    ow_family,
                    ow_address: address,
                    new_value: None,
                    last_value: Some(DS2408_INITIAL_STATE),
                },
            );
        }
        let relay = Relay {
            id_relay,
            name,
            tags,
            pir_exclude,
            pir_hold_ms: match pir_hold_ms {
                Some(h) => h,
                None => DEFAULT_PIR_HOLD_MS,
            },
            switch_hold_ms: match switch_hold_ms {
                Some(h) => h,
                None => DEFAULT_SWITCH_HOLD_MS,
            },
            pir_all_day,
            override_mode: initial_state,
            last_toggled: None,
            stop_after: None,
        };
        let board = &mut self.relay_boards[at];
        if initial_state {
            let state = board.staged_state();
            board.new_value = Some(set_bit_on(state, bit));
        }
        board.relay[bit as usize] = Some(relay);
    }

    /// Registers a smart light, off and out of override mode. Hold times
    /// default as for relays.
    pub fn add_yeelight(
        &mut self,
        id_yeelight: i32,
        name: String,
        ip_address: String,
        pir_exclude: bool,
        pir_hold_ms: Option<u64>,
        switch_hold_ms: Option<u64>,
        pir_all_day: bool,
        tags: Vec<String>,
    )
        ensures
            final(self).relay_boards@ == old(self).relay_boards@,
            final(self).yeelight@ == old(self).yeelight@.push(
                Yeelight {
                    id_yeelight,
                    name,
                    tags,
                    ip_address,
                    pir_exclude,
                    pir_hold_ms: match pir_hold_ms {
                        Some(h) => h,
                        None => DEFAULT_PIR_HOLD_MS,
                    },
                    switch_hold_ms: match switch_hold_ms {
                        Some(h) => h,
                        None => DEFAULT_SWITCH_HOLD_MS,
                    },
                    pir_all_day,
                    override_mode: false,
                    last_toggled: None,
                    stop_after: None,
                    powered_on: false,
                },
            ),
    {
        let light = Yeelight {
            id_yeelight,
            name,
            tags,
            ip_address,
            pir_exclude,
            pir_hold_ms: match pir_hold_ms {
                Some(h) => h,
                None => DEFAULT_PIR_HOLD_MS,
            },
            switch_hold_ms: match switch_hold_ms {
                Some(h) => h,
                None => DEFAULT_SWITCH_HOLD_MS,
            },
            pir_all_day,
            override_mode: false,
            last_toggled: None,
            stop_after: None,
            powered_on: false,
        };
        self.yeelight.push(light);
    }
}

} // verus!
