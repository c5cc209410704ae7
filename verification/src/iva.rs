//! The instructions of the `IVA` protocol and how they are written.
//!
//! Every instruction goes over the wire as one flat JSON object. Its members
//! come in a fixed order: the discriminator of each node of the instruction,
//! followed by what the node holds. Numbers are written as decimals with a
//! fixed number of places: two for the components of a pose, three for
//! seconds, five for motion parameters.
use vstd::prelude::*;
use vstd::string::*;
use crate::geometry::JointCoord;
use crate::geometry::Transform;
use crate::number::chars_of;
use crate::number::digit_char;
use crate::number::fixed_text;
use crate::number::format_fixed;
use crate::robot::motion_param::stored;
use crate::robot::MotionParam;

verus! {

#[verifier::external_type_specification]
#[verifier::external_body]
pub struct ExJsonError(serde_json::Error);

/// What a member of a wire message holds.
#[derive(Debug)]
pub enum Value {
    /// A text.
    Text(String),
    /// The number `value / 10^decimals`, written with `decimals` places.
    Number { value: i64, decimals: u8 },
}

/// One member of a wire message.
#[derive(Debug)]
pub struct Field {
    pub key: String,
    pub value: Value,
}

/// What a `Value` stands for.
pub enum ValueModel {
    Text(Seq<char>),
    Number { value: int, decimals: nat },
}

/// What a `Field` stands for.
pub struct FieldModel {
    pub key: Seq<char>,
    pub value: ValueModel,
}

impl View for Value {
    type V = ValueModel;

    open spec fn view(&self) -> ValueModel {
        match self {
            Value::Text(t) => ValueModel::Text(t@),
            Value::Number { value, decimals } => ValueModel::Number {
                value: *value as int,
                decimals: *decimals as nat,
            },
        }
    }
}

impl View for Field {
    type V = FieldModel;

    open spec fn view(&self) -> FieldModel {
        FieldModel { key: self.key@, value: self.value@ }
    }
}

/// What a list of fields stands for.
pub open spec fn fields_view(fields: Seq<Field>) -> Seq<FieldModel> {
    fields.map_values(|f: Field| f@)
}

/// The member `key` with the text `value`.
pub open spec fn text(key: Seq<char>, value: Seq<char>) -> FieldModel {
    FieldModel { key, value: ValueModel::Text(value) }
}

/// The member `key` with the number `value / 10^decimals`.
pub open spec fn number(key: Seq<char>, value: int, decimals: nat) -> FieldModel {
    FieldModel { key, value: ValueModel::Number { value, decimals } }
}

/// The member `key` with one for `true` and zero for `false`, written with
/// one place.
pub open spec fn flag(key: Seq<char>, on: bool) -> FieldModel {
    number(
        key,
        if on {
            10
        } else {
            0
        },
        1,
    )
}

/// The member of a motion parameter: its number with five places where it
/// is set, nothing where it is not.
pub open spec fn set_member(key: Seq<char>, value: Option<int>) -> Seq<FieldModel> {
    match value {
        Some(v) => seq![number(key, v, 5)],
        None => Seq::empty(),
    }
}

/// Appends the member of a motion parameter to `fields`.
fn push_set(fields: &mut Vec<Field>, key: &str, value: Option<i64>)
    ensures
        fields_view(final(fields)@) == fields_view(old(fields)@) + set_member(key@, stored(value)),
{
    match value {
        Some(v) => {
            fields.push(number_field(key, v, 5));
        },
        None => {},
    }
    assert(fields_view(fields@) =~= fields_view(old(fields)@) + set_member(key@, stored(value)));
}

fn text_field(key: &str, value: &str) -> (f: Field)
    ensures
        f@ == text(key@, value@),
{
    Field { key: String::from_str(key), value: Value::Text(String::from_str(value)) }
}

fn number_field(key: &str, value: i64, decimals: u8) -> (f: Field)
    ensures
        f@ == number(key@, value as int, decimals as nat),
{
    Field { key: String::from_str(key), value: Value::Number { value, decimals } }
}

fn flag_field(key: &str, on: bool) -> (f: Field)
    ensures
        f@ == flag(key@, on),
{
    number_field(
        key,
        if on {
            10
        } else {
            0
        },
        1,
    )
}

/// How the arm moves to a target.
#[derive(Debug, Clone, Copy, PartialEq, Eq, Structural)]
pub enum MotionMode {
    Linear,
    LinearRelative,
    Joint,
    JointRelative,
}

impl MotionMode {
    /// The name of this mode on the wire.
    pub open spec fn name_spec(self) -> Seq<char> {
        match self {
            MotionMode::Linear => "linear"@,
            MotionMode::LinearRelative => "linear_relative"@,
            MotionMode::Joint => "joint"@,
            MotionMode::JointRelative => "joint_relative"@,
        }
    }

    /// The name of this mode on the wire.
    pub fn name(self) -> (s: &'static str)
        ensures
            s@ == self.name_spec(),
    {
        match self {
            MotionMode::Linear => "linear",
            MotionMode::LinearRelative => "linear_relative",
            MotionMode::Joint => "joint",
            MotionMode::JointRelative => "joint_relative",
        }
    }

    /// Whether the target of this mode is a delta from where the arm stands.
    pub open spec fn is_relative_spec(self) -> bool {
        self == MotionMode::LinearRelative || self == MotionMode::JointRelative
    }

    /// Whether the target of this mode is a delta from where the arm stands.
    pub fn is_relative(self) -> (b: bool)
        ensures
            b == self.is_relative_spec(),
    {
        match self {
            MotionMode::LinearRelative => true,
            MotionMode::JointRelative => true,
            _ => false,
        }
    }
}

/// Where a motion goes.
#[derive(Debug, Clone, Copy, PartialEq, Eq, Structural)]
pub enum MotionTarget {
    Transform(Transform),
    JointCoord(JointCoord),
}

impl MotionTarget {
    /// The members that write this target.
    pub open spec fn wire(self) -> Seq<FieldModel> {
        match self {
            MotionTarget::Transform(t) => seq![
                text("target"@, "transform"@),
                number("x"@, t.x as int, 2),
                number("y"@, t.y as int, 2),
                number("z"@, t.z as int, 2),
                number("rx"@, t.rx as int, 2),
                number("ry"@, t.ry as int, 2),
                number("rz"@, t.rz as int, 2),
            ],
            MotionTarget::JointCoord(j) => seq![
                text("target"@, "joint_coord"@),
                number("j1"@, j.j1 as int, 2),
                number("j2"@, j.j2 as int, 2),
                number("j3"@, j.j3 as int, 2),
                number("j4"@, j.j4 as int, 2),
                number("j5"@, j.j5 as int, 2),
                number("j6"@, j.j6 as int, 2),
            ],
        }
    }

    /// The members that write this target.
    pub fn fields(&self) -> (v: Vec<Field>)
        ensures
            fields_view(v@) == self.wire(),
    {
        let mut v: Vec<Field> = Vec::new();
        match self {
            MotionTarget::Transform(t) => {
                v.push(text_field("target", "transform"));
                v.push(number_field("x", t.x, 2));
                v.push(number_field("y", t.y, 2));
                v.push(number_field("z", t.z, 2));
                v.push(number_field("rx", t.rx, 2));
                v.push(number_field("ry", t.ry, 2));
                v.push(number_field("rz", t.rz, 2));
            },
            MotionTarget::JointCoord(j) => {
                v.push(text_field("target", "joint_coord"));
                v.push(number_field("j1", j.j1, 2));
                v.push(number_field("j2", j.j2, 2));
                v.push(number_field("j3", j.j3, 2));
                v.push(number_field("j4", j.j4, 2));
                v.push(number_field("j5", j.j5, 2));
                v.push(number_field("j6", j.j6, 2));
            },
        }
        v
    }

    /// The opposite delta of this target: every component with the other
    /// sign.
    pub open spec fn opposite(self) -> MotionTarget {
        match self {
            MotionTarget::Transform(t) => MotionTarget::Transform(
                Transform {
                    x: opposite(t.x),
                    y: opposite(t.y),
                    z: opposite(t.z),
                    rx: opposite(t.rx),
                    ry: opposite(t.ry),
                    rz: opposite(t.rz),
                },
            ),
            MotionTarget::JointCoord(j) => MotionTarget::JointCoord(
                JointCoord {
                    j1: opposite(j.j1),
                    j2: opposite(j.j2),
                    j3: opposite(j.j3),
                    j4: opposite(j.j4),
                    j5: opposite(j.j5),
                    j6: opposite(j.j6),
                },
            ),
        }
    }

    /// The opposite delta of this target: every component with the other
    /// sign. For joint coordinates, for a pure displacement and for a
    /// rotation about one axis this is the motion that undoes the target.
    pub fn negate(self) -> (r: MotionTarget)
        ensures
            r == self.opposite(),
    {
        match self {
            MotionTarget::Transform(t) => MotionTarget::Transform(
                Transform {
                    x: negated(t.x),
                    y: negated(t.y),
                    z: negated(t.z),
                    rx: negated(t.rx),
                    ry: negated(t.ry),
                    rz: negated(t.rz),
                },
            ),
            MotionTarget::JointCoord(j) => MotionTarget::JointCoord(
                JointCoord {
                    j1: negated(j.j1),
                    j2: negated(j.j2),
                    j3: negated(j.j3),
                    j4: negated(j.j4),
                    j5: negated(j.j5),
                    j6: negated(j.j6),
                },
            ),
        }
    }
}

impl From<Transform> for MotionTarget {
    fn from(value: Transform) -> (r: MotionTarget) {
        MotionTarget::Transform(value)
    }
}

impl vstd::std_specs::convert::FromSpecImpl<Transform> for MotionTarget {
    open spec fn obeys_from_spec() -> bool {
        true
    }

    open spec fn from_spec(value: Transform) -> MotionTarget {
        MotionTarget::Transform(value)
    }
}

impl From<JointCoord> for MotionTarget {
    fn from(value: JointCoord) -> (r: MotionTarget) {
        MotionTarget::JointCoord(value)
    }
}

impl vstd::std_specs::convert::FromSpecImpl<JointCoord> for MotionTarget {
    open spec fn obeys_from_spec() -> bool {
        true
    }

    open spec fn from_spec(value: JointCoord) -> MotionTarget {
        MotionTarget::JointCoord(value)
    }
}

/// `v` with the other sign; the greatest number for the least, which has no
/// opposite in the 64-bit range.
pub open spec fn opposite(v: i64) -> i64 {
    if v == i64::MIN {
        i64::MAX
    } else {
        (-v) as i64
    }
}

/// `v` with the other sign.
fn negated(v: i64) -> (r: i64)
    ensures
        r == opposite(v),
{
    if v == i64::MIN {
        i64::MAX
    } else {
        -v
    }
}

/// What the arm can be told to do.
#[derive(Debug, Clone, Copy)]
pub enum RobotCommand {
    /// Wait until the motions before this one have ended.
    Synchronize,
    /// Wait; `second` is the time in thousandths of a second.
    Sleep { second: i64 },
    /// Take the motion parameters.
    SetParameter(MotionParam),
    /// Move.
    Motion { motion_mode: MotionMode, target: MotionTarget },
}

impl RobotCommand {
    /// The members that write this command.
    pub open spec fn wire(self) -> Seq<FieldModel> {
        match self {
            RobotCommand::Synchronize => seq![text("action"@, "synchronize"@)],
            RobotCommand::Sleep { second } => seq![
                text("action"@, "sleep"@),
                number("second"@, second as int, 3),
            ],
            RobotCommand::SetParameter(p) => seq![text("action"@, "set_parameter"@)] + set_member(
                "speed"@,
                p@.speed,
            ) + set_member("accel"@, p@.accel) + set_member("blend_linear"@, p@.blend_linear)
                + set_member("blend_angular"@, p@.blend_angular) + set_member(
                "tcp_speed_linear"@,
                p@.tcp_speed_linear,
            ) + set_member("tcp_speed_angular"@, p@.tcp_speed_angular),
            RobotCommand::Motion { motion_mode, target } => seq![
                text("action"@, "motion"@),
                text("motion_mode"@, motion_mode.name_spec()),
            ] + target.wire(),
        }
    }

    /// The members that write this command.
    pub fn fields(&self) -> (v: Vec<Field>)
        ensures
            fields_view(v@) == self.wire(),
    {
        let mut v: Vec<Field> = Vec::new();
        match self {
            RobotCommand::Synchronize => {
                v.push(text_field("action", "synchronize"));
            },
            RobotCommand::Sleep { second } => {
                v.push(text_field("action", "sleep"));
                v.push(number_field("second", *second, 3));
            },
            RobotCommand::SetParameter(p) => {
                let values = p.values();
                v.push(text_field("action", "set_parameter"));
                push_set(&mut v, "speed", values[0]);
                push_set(&mut v, "accel", values[1]);
                push_set(&mut v, "blend_linear", values[2]);
                push_set(&mut v, "blend_angular", values[3]);
                push_set(&mut v, "tcp_speed_linear", values[4]);
                push_set(&mut v, "tcp_speed_angular", values[5]);
            },
            RobotCommand::Motion { motion_mode, target } => {
                v.push(text_field("action", "motion"));
                v.push(text_field("motion_mode", motion_mode.name()));
                let mut rest = target.fields();
                v.append(&mut rest);
            },
        }
        v
    }

    /// The command to wait for `second` thousandths of a second.
    pub fn sleep(second: i64) -> (r: RobotCommand)
        ensures
            r == (RobotCommand::Sleep { second }),
    {
        RobotCommand::Sleep { second }
    }

    /// The command to wait for the motions before it.
    pub fn synchorize() -> (r: RobotCommand)
        ensures
            r == RobotCommand::Synchronize,
    {
        RobotCommand::Synchronize
    }

    /// The command to take `motion_param`.
    pub fn set_parameter(motion_param: MotionParam) -> (r: RobotCommand)
        ensures
            r == RobotCommand::SetParameter(motion_param),
    {
        RobotCommand::SetParameter(motion_param)
    }

    /// The motion of `mode` to `target`.
    pub open spec fn motion_spec(mode: MotionMode, target: MotionTarget) -> RobotCommand {
        RobotCommand::Motion { motion_mode: mode, target }
    }

    /// The linear motion to `target`.
    pub fn linear(target: Transform) -> (r: RobotCommand)
        ensures
            r == Self::motion_spec(MotionMode::Linear, MotionTarget::Transform(target)),
    {
        RobotCommand::Motion {
            motion_mode: MotionMode::Linear,
            target: MotionTarget::Transform(target),
        }
    }

    /// The linear motion by `target`.
    pub fn linear_relative(target: Transform) -> (r: RobotCommand)
        ensures
            r == Self::motion_spec(MotionMode::LinearRelative, MotionTarget::Transform(target)),
    {
        RobotCommand::Motion {
            motion_mode: MotionMode::LinearRelative,
            target: MotionTarget::Transform(target),
        }
    }

    /// The joint motion to `target`, a pose or joint coordinates.
    pub fn joint(target: MotionTarget) -> (r: RobotCommand)
        ensures
            r == Self::motion_spec(MotionMode::Joint, target),
    {
        RobotCommand::Motion { motion_mode: MotionMode::Joint, target }
    }

    /// The joint motion by `target`.
    pub fn joint_relative(target: Transform) -> (r: RobotCommand)
        ensures
            r == Self::motion_spec(MotionMode::JointRelative, MotionTarget::Transform(target)),
    {
        RobotCommand::Motion {
            motion_mode: MotionMode::JointRelative,
            target: MotionTarget::Transform(target),
        }
    }
}

/// What the gripper can be told.
#[derive(Debug, Clone)]
pub enum GripperCommand {
    Activate,
    Get,
    /// Close or open to the width stored under `label`.
    SetTo { label: String },
}

impl GripperCommand {
    /// The members that write this command.
    pub open spec fn wire(&self) -> Seq<FieldModel> {
        match self {
            GripperCommand::Activate => seq![text("action"@, "activate"@)],
            GripperCommand::Get => seq![text("action"@, "get"@)],
            GripperCommand::SetTo { label } => seq![
                text("action"@, "set"@),
                text("label"@, label@),
            ],
        }
    }

    /// The members that write this command.
    pub fn fields(&self) -> (v: Vec<Field>)
        ensures
            fields_view(v@) == self.wire(),
    {
        let mut v: Vec<Field> = Vec::new();
        match self {
            GripperCommand::Activate => {
                v.push(text_field("action", "activate"));
            },
            GripperCommand::Get => {
                v.push(text_field("action", "get"));
            },
            GripperCommand::SetTo { label } => {
                v.push(text_field("action", "set"));
                v.push(text_field("label", label.as_str()));
            },
        }
        v
    }
}

/// Which bank of digital ports is meant.
#[derive(Debug, Clone, Copy, PartialEq, Eq, Structural)]
pub enum IOTarget {
    Beckhoff,
    Wrist,
}

impl IOTarget {
    /// The name of this bank on the wire.
    pub open spec fn name_spec(self) -> Seq<char> {
        match self {
            IOTarget::Beckhoff => "beckhoff"@,
            IOTarget::Wrist => "wrist"@,
        }
    }

    /// The name of this bank on the wire.
    pub fn name(self) -> (s: &'static str)
        ensures
            s@ == self.name_spec(),
    {
        match self {
            IOTarget::Beckhoff => "beckhoff",
            IOTarget::Wrist => "wrist",
        }
    }
}

/// What a digital port can be told.
#[derive(Debug, Clone, Copy, PartialEq, Eq, Structural)]
pub enum IOCommand {
    Get,
    /// Switch the port on or off.
    SetTo { state: bool },
}

impl IOCommand {
    /// The members that write this command.
    pub open spec fn wire(self) -> Seq<FieldModel> {
        match self {
            IOCommand::Get => seq![text("action"@, "get"@)],
            IOCommand::SetTo { state } => seq![text("action"@, "set"@), flag("state"@, state)],
        }
    }

    /// The members that write this command.
    pub fn fields(&self) -> (v: Vec<Field>)
        ensures
            fields_view(v@) == self.wire(),
    {
        let mut v: Vec<Field> = Vec::new();
        match self {
            IOCommand::Get => {
                v.push(text_field("action", "get"));
            },
            IOCommand::SetTo { state } => {
                v.push(text_field("action", "set"));
                v.push(flag_field("state", *state));
            },
        }
        v
    }
}

/// What the robot can be asked for.
#[derive(Debug, Clone)]
pub enum GetTarget {
    /// Where the tool stands.
    Transform,
    /// Where the joints stand.
    JointCoord,
    /// An entry of the robot's data store.
    Data { key: String },
}

impl GetTarget {
    /// The entry `key` of the robot's data store.
    pub fn data(key: &str) -> (r: GetTarget)
        ensures
            r matches GetTarget::Data { key: k } && k@ == key@,
    {
        GetTarget::Data { key: String::from_str(key) }
    }

    /// The members that write this target.
    pub open spec fn wire(&self) -> Seq<FieldModel> {
        match self {
            GetTarget::Transform => seq![text("target"@, "transform"@)],
            GetTarget::JointCoord => seq![text("target"@, "joint_coord"@)],
            GetTarget::Data { key } => seq![text("target"@, "data"@), text("key"@, key@)],
        }
    }

    /// The members that write this target.
    pub fn fields(&self) -> (v: Vec<Field>)
        ensures
            fields_view(v@) == self.wire(),
    {
        let mut v: Vec<Field> = Vec::new();
        match self {
            GetTarget::Transform => {
                v.push(text_field("target", "transform"));
            },
            GetTarget::JointCoord => {
                v.push(text_field("target", "joint_coord"));
            },
            GetTarget::Data { key } => {
                v.push(text_field("target", "data"));
                v.push(text_field("key", key.as_str()));
            },
        }
        v
    }
}

/// A value of a custom command: a text, or a number in hundredths.
#[derive(Debug, Clone)]
pub enum CustomArg {
    String(String),
    Float(i64),
}

impl View for CustomArg {
    type V = ValueModel;

    open spec fn view(&self) -> ValueModel {
        match self {
            CustomArg::String(s) => ValueModel::Text(s@),
            CustomArg::Float(v) => ValueModel::Number { value: *v as int, decimals: 2 },
        }
    }
}

/// Whether the text `a` stands before the text `b`, given that they are
/// alike before position `i`: decided by the first position from `i` on at
/// which they differ, where the smaller character stands first; a text that
/// ends there stands before one that goes on.
pub open spec fn before_from(a: Seq<char>, b: Seq<char>, i: int) -> bool
    decreases a.len() - i,
{
    if i >= b.len() {
        false
    } else if i >= a.len() {
        true
    } else if a[i] != b[i] {
        (a[i] as u32) < (b[i] as u32)
    } else {
        before_from(a, b, i + 1)
    }
}

/// Whether the text `a` stands before the text `b` in the order of texts,
/// which is the order of `String`.
pub open spec fn text_before(a: Seq<char>, b: Seq<char>) -> bool {
    before_from(a, b, 0)
}

/// The order of texts passes on: a text before a second that is before a
/// third is before the third.
pub proof fn lemma_before_passes_on(a: Seq<char>, b: Seq<char>, c: Seq<char>, i: int)
    requires
        0 <= i,
        before_from(a, b, i),
        before_from(b, c, i),
    ensures
        before_from(a, c, i),
    decreases a.len() - i,
{
    if i < a.len() && a[i] == b[i] && b[i] == c[i] {
        lemma_before_passes_on(a, b, c, i + 1);
    }
}

/// Of two texts that differ one stands before the other.
pub proof fn lemma_before_or_after(a: Seq<char>, b: Seq<char>, i: int)
    requires
        0 <= i <= a.len(),
        i <= b.len(),
        forall|m: int| 0 <= m < i ==> a[m] == b[m],
    ensures
        a == b || before_from(a, b, i) || before_from(b, a, i),
    decreases a.len() - i,
{
    if i < a.len() && i < b.len() {
        if a[i] == b[i] {
            lemma_before_or_after(a, b, i + 1);
        } else {
            vstd::utf8::char_u32_cast(a[i], a[i] as u32);
            vstd::utf8::char_u32_cast(b[i], b[i] as u32);
        }
    } else if i == a.len() && i == b.len() {
        assert(a =~= b);
    }
}

/// No text stands before itself.
pub proof fn lemma_not_before_itself(a: Seq<char>, i: int)
    requires
        0 <= i,
    ensures
        !before_from(a, a, i),
    decreases a.len() - i,
{
    if i < a.len() {
        lemma_not_before_itself(a, i + 1);
    }
}

/// Entries in order hold no key twice.
pub proof fn lemma_keys_differ(entries: Seq<FieldModel>, i: int, j: int)
    requires
        in_order(entries),
        0 <= i < j < entries.len(),
    ensures
        entries[i].key != entries[j].key,
{
    lemma_not_before_itself(entries[i].key, 0);
}

/// Whether `a` stands before `b` in the order of texts.
pub fn comes_before(a: &str, b: &str) -> (r: bool)
    ensures
        r == text_before(a@, b@),
{
    let x = chars_of(a);
    let y = chars_of(b);
    let mut i: usize = 0;
    while i < x.len() && i < y.len() && x[i] == y[i]
        invariant
            i <= x.len(),
            i <= y.len(),
            before_from(x@, y@, 0) == before_from(x@, y@, i as int),
        decreases x.len() - i,
    {
        i = i + 1;
    }
    if i >= y.len() {
        false
    } else if i >= x.len() {
        true
    } else {
        (x[i] as u32) < (y[i] as u32)
    }
}

/// Whether the keys of `entries` stand in the order of texts, each before
/// all that follow it. No key then stands twice.
pub open spec fn in_order(entries: Seq<FieldModel>) -> bool {
    forall|i: int, j: int|
        0 <= i < j < entries.len() ==> text_before(
            (#[trigger] entries[i]).key,
            (#[trigger] entries[j]).key,
        )
}

/// How many entries at the head of `entries` have a key before `key`: the
/// place of `key` among them.
pub open spec fn place_of(entries: Seq<FieldModel>, key: Seq<char>) -> int
    decreases entries.len(),
{
    if entries.len() == 0 {
        0
    } else if !text_before(entries[0].key, key) {
        0
    } else {
        1 + place_of(entries.drop_first(), key)
    }
}

/// `entries` with `value` under `key`, at the place of `key`: in the place
/// of the value that `key` had, or put in between where it had none.
pub open spec fn put(entries: Seq<FieldModel>, key: Seq<char>, value: ValueModel) -> Seq<
    FieldModel,
> {
    let i = place_of(entries, key);
    if i < entries.len() && entries[i].key == key {
        entries.update(i, FieldModel { key, value })
    } else {
        entries.insert(i, FieldModel { key, value })
    }
}

/// The first `p` entries have a key before `key`, so the place of `key` is
/// `p` or later, and `p` where the entries end or the key there is not
/// before `key`.
pub proof fn lemma_place_of(entries: Seq<FieldModel>, key: Seq<char>, p: int)
    requires
        0 <= p <= entries.len(),
        forall|m: int| 0 <= m < p ==> text_before(entries[m].key, key),
    ensures
        p <= place_of(entries, key) <= entries.len(),
        (p == entries.len() || !text_before(entries[p].key, key)) ==> place_of(entries, key) == p,
    decreases entries.len(),
{
    if entries.len() > 0 && text_before(entries[0].key, key) {
        let t = entries.drop_first();
        if p > 0 {
            lemma_place_of(t, key, p - 1);
        } else {
            lemma_place_of(t, key, 0);
        }
    }
}

/// Every entry before the place of `key` has a key before `key`, and the
/// entry at that place has none.
pub proof fn lemma_before_place(entries: Seq<FieldModel>, key: Seq<char>)
    ensures
        0 <= place_of(entries, key) <= entries.len(),
        forall|m: int|
            0 <= m < place_of(entries, key) ==> text_before((#[trigger] entries[m]).key, key),
        place_of(entries, key) < entries.len() ==> !text_before(
            entries[place_of(entries, key)].key,
            key,
        ),
    decreases entries.len(),
{
    if entries.len() > 0 && text_before(entries[0].key, key) {
        let t = entries.drop_first();
        lemma_before_place(t, key);
        assert forall|m: int| 0 <= m < place_of(entries, key) implies text_before(
            (#[trigger] entries[m]).key,
            key,
        ) by {
            if m > 0 {
                assert(entries[m] == t[m - 1]);
            }
        }
    }
}

/// Entries in order stay in order when a value is put under a key, and the
/// key then holds that value.
pub proof fn lemma_put_in_order(entries: Seq<FieldModel>, key: Seq<char>, value: ValueModel)
    requires
        in_order(entries),
    ensures
        in_order(put(entries, key, value)),
        put(entries, key, value)[place_of(entries, key)] == (FieldModel { key, value }),
{
    let p = place_of(entries, key);
    let after = put(entries, key, value);
    lemma_before_place(entries, key);
    assert forall|i: int, j: int| 0 <= i < j < after.len() implies text_before(
        (#[trigger] after[i]).key,
        (#[trigger] after[j]).key,
    ) by {
        if p < entries.len() && entries[p].key == key {
            assert(after[i].key == entries[i].key);
            assert(after[j].key == entries[j].key);
        } else if j < p {
            assert(after[i] == entries[i] && after[j] == entries[j]);
        } else if j == p {
            assert(after[i] == entries[i]);
        } else {
            let next = entries[j - 1].key;
            lemma_before_or_after(key, entries[p].key, 0);
            if p < j - 1 {
                lemma_before_passes_on(key, entries[p].key, next, 0);
            }
            if i < p {
                assert(after[i] == entries[i]);
                lemma_before_passes_on(entries[i].key, key, next, 0);
            } else if i > p {
                assert(after[i] == entries[i - 1]);
            }
        }
    }
}

/// A command of the user's own, which the program on the robot must know:
/// values under keys. A key holds one value, the one given last, and the
/// keys stand in the order of texts.
#[derive(Debug)]
pub struct CustomCommand(Vec<(String, CustomArg)>);

/// What a list of keys and values stands for.
pub open spec fn entries_view(entries: Seq<(String, CustomArg)>) -> Seq<FieldModel> {
    entries.map_values(|e: (String, CustomArg)| FieldModel { key: e.0@, value: e.1@ })
}

/// `entries` with `arg` under `key`.
fn put_entry(entries: Vec<(String, CustomArg)>, key: &str, arg: CustomArg) -> (r: Vec<
    (String, CustomArg),
>)
    ensures
        entries_view(r@) == put(entries_view(entries@), key@, arg@),
{
    let ghost before = entries_view(entries@);
    let mut list = entries;
    let owned = String::from_str(key);
    let n = list.len();
    let mut i: usize = 0;
    while i < n && comes_before(list[i].0.as_str(), key)
        invariant
            i <= n,
            n == list@.len(),
            before == entries_view(list@),
            forall|m: int| 0 <= m < i ==> text_before(before[m].key, key@),
        decreases n - i,
    {
        i = i + 1;
    }
    proof {
        lemma_place_of(before, key@, i as int);
    }
    if i < n && list[i].0.eq(&owned) {
        list.set(i, (owned, arg));
        assert(entries_view(list@) =~= put(before, key@, arg@));
    } else {
        list.insert(i, (owned, arg));
        assert(entries_view(list@) =~= put(before, key@, arg@));
    }
    list
}

impl View for CustomCommand {
    type V = Seq<FieldModel>;

    closed spec fn view(&self) -> Seq<FieldModel> {
        entries_view(self.0@)
    }
}

impl Clone for CustomCommand {
    fn clone(&self) -> (r: CustomCommand)
        ensures
            r@ == self@,
    {
        proof {
            use_type_invariant(self);
        }
        let mut list: Vec<(String, CustomArg)> = Vec::new();
        let n = self.0.len();
        let mut i: usize = 0;
        while i < n
            invariant
                i <= n,
                n == self.0@.len(),
                list@.len() == i,
                forall|m: int|
                    0 <= m < i ==> (#[trigger] list@[m]).0@ == self.0@[m].0@ && list@[m].1@
                        == self.0@[m].1@,
            decreases n - i,
        {
            let arg = match &self.0[i].1 {
                CustomArg::String(s) => CustomArg::String(s.clone()),
                CustomArg::Float(x) => CustomArg::Float(*x),
            };
            list.push((self.0[i].0.clone(), arg));
            i = i + 1;
        }
        assert(entries_view(list@) =~= entries_view(self.0@));
        CustomCommand(list)
    }
}

impl CustomCommand {
    #[verifier::type_invariant]
    spec fn well_formed(self) -> bool {
        in_order(self@)
    }

    /// The command without values.
    pub fn new() -> (r: CustomCommand)
        ensures
            r@ == Seq::<FieldModel>::empty(),
    {
        let r = CustomCommand(Vec::new());
        r
    }

    /// This command with `arg` under `key`.
    fn with(self, key: &str, arg: CustomArg) -> (r: CustomCommand)
        ensures
            r@ == put(self@, key@, arg@),
            in_order(self@),
            in_order(r@),
    {
        proof {
            use_type_invariant(&self);
            lemma_put_in_order(self@, key@, arg@);
        }
        CustomCommand(put_entry(self.0, key, arg))
    }

    /// This command with the text `value` under `key`, the keys in order.
    pub fn add_string(self, key: &str, value: &str) -> (r: CustomCommand)
        ensures
            r@ == put(self@, key@, ValueModel::Text(value@)),
            in_order(self@),
            in_order(r@),
    {
        self.with(key, CustomArg::String(String::from_str(value)))
    }

    /// This command with the number `value`, in hundredths, under `key`, the
    /// keys in order.
    pub fn add_float(self, key: &str, value: i64) -> (r: CustomCommand)
        ensures
            r@ == put(self@, key@, ValueModel::Number { value: value as int, decimals: 2 }),
            in_order(self@),
            in_order(r@),
    {
        self.with(key, CustomArg::Float(value))
    }

    /// The members that write this command: its values under their keys,
    /// the keys in order.
    pub fn fields(&self) -> (v: Vec<Field>)
        ensures
            fields_view(v@) == self@,
            in_order(self@),
    {
        proof {
            use_type_invariant(self);
        }
        let mut v: Vec<Field> = Vec::new();
        let n = self.0.len();
        let mut i: usize = 0;
        while i < n
            invariant
                i <= n,
                n == self.0@.len(),
                v@.len() == i,
                forall|m: int| 0 <= m < i ==> (#[trigger] v@[m])@ == self@[m],
            decreases n - i,
        {
            let key = self.0[i].0.clone();
            let value = match &self.0[i].1 {
                CustomArg::String(s) => Value::Text(s.clone()),
                CustomArg::Float(x) => Value::Number { value: *x, decimals: 2 },
            };
            let field = Field { key, value };
            v.push(field);
            i = i + 1;
        }
        v
    }
}

/// One round trip with the robot: what is sent, and what the answer is
/// expected to be.
#[derive(Debug, Clone)]
pub enum Instruction {
    /// Do the command now; with `enter_context` the robot also remembers how
    /// to undo it.
    Execute { robot_command: RobotCommand, enter_context: bool },
    /// Put the command on the robot's queue.
    Enqueue(RobotCommand),
    /// Do what is on the queue, in order; with `enter_context` the robot
    /// also remembers how to undo it.
    Dequeue { enter_context: bool },
    /// Undo what the robot remembered last.
    Pop,
    Gripper(GripperCommand),
    IO { target: IOTarget, port: u16, io_command: IOCommand },
    Get(GetTarget),
    Custom(CustomCommand),
}

/// The member that names the kind of an instruction.
pub open spec fn op_code(name: Seq<char>) -> FieldModel {
    text("op_code"@, name)
}

impl Instruction {
    /// The members of the wire message of this instruction, in order.
    pub open spec fn wire(&self) -> Seq<FieldModel> {
        match self {
            Instruction::Execute { robot_command, enter_context } => seq![op_code("execute"@)]
                + robot_command.wire() + seq![flag("enter_context"@, *enter_context)],
            Instruction::Enqueue(robot_command) => seq![op_code("enqueue"@)]
                + robot_command.wire(),
            Instruction::Dequeue { enter_context } => seq![
                op_code("dequeue"@),
                flag("enter_context"@, *enter_context),
            ],
            Instruction::Pop => seq![op_code("pop"@)],
            Instruction::Gripper(gripper_command) => seq![op_code("gripper"@)]
                + gripper_command.wire(),
            Instruction::IO { target, port, io_command } => seq![
                op_code("io"@),
                text("target"@, target.name_spec()),
                number("port"@, *port as int, 0),
            ] + io_command.wire(),
            Instruction::Get(get_target) => seq![op_code("get"@)] + get_target.wire(),
            Instruction::Custom(custom_command) => seq![op_code("custom"@)] + custom_command@,
        }
    }

    /// The members of the wire message of this instruction, in order.
    pub fn fields(&self) -> (v: Vec<Field>)
        ensures
            fields_view(v@) == self.wire(),
    {
        let mut v: Vec<Field> = Vec::new();
        match self {
            Instruction::Execute { robot_command, enter_context } => {
                v.push(text_field("op_code", "execute"));
                let mut rest = robot_command.fields();
                v.append(&mut rest);
                v.push(flag_field("enter_context", *enter_context));
            },
            Instruction::Enqueue(robot_command) => {
                v.push(text_field("op_code", "enqueue"));
                let mut rest = robot_command.fields();
                v.append(&mut rest);
            },
            Instruction::Dequeue { enter_context } => {
                v.push(text_field("op_code", "dequeue"));
                v.push(flag_field("enter_context", *enter_context));
            },
            Instruction::Pop => {
                v.push(text_field("op_code", "pop"));
            },
            Instruction::Gripper(gripper_command) => {
                v.push(text_field("op_code", "gripper"));
                let mut rest = gripper_command.fields();
                v.append(&mut rest);
            },
            Instruction::IO { target, port, io_command } => {
                v.push(text_field("op_code", "io"));
                v.push(text_field("target", target.name()));
                v.push(number_field("port", *port as i64, 0));
                let mut rest = io_command.fields();
                v.append(&mut rest);
            },
            Instruction::Get(get_target) => {
                v.push(text_field("op_code", "get"));
                let mut rest = get_target.fields();
                v.append(&mut rest);
            },
            Instruction::Custom(custom_command) => {
                v.push(text_field("op_code", "custom"));
                let mut rest = custom_command.fields();
                v.append(&mut rest);
            },
        }
        v
    }

    /// Do `robot_command` now.
    pub fn exec(robot_command: RobotCommand) -> (r: Instruction)
        ensures
            r == (Instruction::Execute { robot_command, enter_context: false }),
    {
        Instruction::Execute { robot_command, enter_context: false }
    }

    /// Do `robot_command` now, and remember how to undo it.
    pub fn exec_push(robot_command: RobotCommand) -> (r: Instruction)
        ensures
            r == (Instruction::Execute { robot_command, enter_context: true }),
    {
        Instruction::Execute { robot_command, enter_context: true }
    }

    /// Put `robot_command` on the queue.
    pub fn enqueue(robot_command: RobotCommand) -> (r: Instruction)
        ensures
            r == Instruction::Enqueue(robot_command),
    {
        Instruction::Enqueue(robot_command)
    }

    /// Do what is on the queue.
    pub fn dequeue() -> (r: Instruction)
        ensures
            r == (Instruction::Dequeue { enter_context: false }),
    {
        Instruction::Dequeue { enter_context: false }
    }

    /// Do what is on the queue, and remember how to undo it.
    pub fn dequeue_push() -> (r: Instruction)
        ensures
            r == (Instruction::Dequeue { enter_context: true }),
    {
        Instruction::Dequeue { enter_context: true }
    }

    /// Undo what was remembered last.
    pub fn pop() -> (r: Instruction)
        ensures
            r == Instruction::Pop,
    {
        Instruction::Pop
    }

    /// Ask for `get_target`.
    pub fn get(get_target: GetTarget) -> (r: Instruction)
        ensures
            r == Instruction::Get(get_target),
    {
        Instruction::Get(get_target)
    }

    /// Tell the gripper `gripper_command`.
    pub fn gripper(gripper_command: GripperCommand) -> (r: Instruction)
        ensures
            r == Instruction::Gripper(gripper_command),
    {
        Instruction::Gripper(gripper_command)
    }

    /// Switch port `port` of `target` on or off.
    pub fn io_set(target: IOTarget, port: u16, state: bool) -> (r: Instruction)
        ensures
            r == (Instruction::IO { target, port, io_command: IOCommand::SetTo { state } }),
    {
        Instruction::IO { target, port, io_command: IOCommand::SetTo { state } }
    }

    /// Ask whether port `port` of `target` is on.
    pub fn io_get(target: IOTarget, port: u16) -> (r: Instruction)
        ensures
            r == (Instruction::IO { target, port, io_command: IOCommand::Get }),
    {
        Instruction::IO { target, port, io_command: IOCommand::Get }
    }

    /// Do the user's own `custom_command`.
    pub fn custom(custom_command: CustomCommand) -> (r: Instruction)
        ensures
            r == Instruction::Custom(custom_command),
    {
        Instruction::Custom(custom_command)
    }
}

/// The digit of `n` to the base sixteen, in small letters.
pub open spec fn hex_char(n: int) -> char {
    if n == 10 {
        'a'
    } else if n == 11 {
        'b'
    } else if n == 12 {
        'c'
    } else if n == 13 {
        'd'
    } else if n == 14 {
        'e'
    } else if n == 15 {
        'f'
    } else {
        digit_char(n)
    }
}

/// How a character stands inside a JSON string literal: the quote and the
/// backslash after a backslash; backspace, form feed, line feed, carriage
/// return and tab as `\b`, `\f`, `\n`, `\r`, `\t`; any other control
/// character as `\u00` and its two digits to the base sixteen; every other
/// character as it is.
pub open spec fn escaped(c: char) -> Seq<char> {
    if c == '"' {
        seq!['\\', '"']
    } else if c == '\\' {
        seq!['\\', '\\']
    } else if c == '\u{8}' {
        seq!['\\', 'b']
    } else if c == '\u{c}' {
        seq!['\\', 'f']
    } else if c == '\n' {
        seq!['\\', 'n']
    } else if c == '\r' {
        seq!['\\', 'r']
    } else if c == '\t' {
        seq!['\\', 't']
    } else if (c as u32) < 32 {
        seq!['\\', 'u', '0', '0', hex_char(c as u32 as int / 16), hex_char(c as u32 as int % 16)]
    } else {
        seq![c]
    }
}

/// The characters of `s`, each as it stands inside a JSON string literal.
pub open spec fn escaped_text(s: Seq<char>) -> Seq<char>
    decreases s.len(),
{
    if s.len() == 0 {
        Seq::empty()
    } else {
        escaped_text(s.drop_last()) + escaped(s.last())
    }
}

/// The JSON string literal of `s`: its characters between double quotes,
/// each as it stands inside a literal.
pub open spec fn json_quoted(s: Seq<char>) -> Seq<char> {
    seq!['"'] + escaped_text(s) + seq!['"']
}

/// The digit of `n` to the base sixteen.
fn hex_str(n: u32) -> (s: &'static str)
    requires
        n < 16,
    ensures
        s@ == seq![hex_char(n as int)],
{
    proof {
        reveal_strlit("0");
        reveal_strlit("1");
        reveal_strlit("2");
        reveal_strlit("3");
        reveal_strlit("4");
        reveal_strlit("5");
        reveal_strlit("6");
        reveal_strlit("7");
        reveal_strlit("8");
        reveal_strlit("9");
        reveal_strlit("a");
        reveal_strlit("b");
        reveal_strlit("c");
        reveal_strlit("d");
        reveal_strlit("e");
        reveal_strlit("f");
    }
    let s = if n == 0 {
        "0"
    } else if n == 1 {
        "1"
    } else if n == 2 {
        "2"
    } else if n == 3 {
        "3"
    } else if n == 4 {
        "4"
    } else if n == 5 {
        "5"
    } else if n == 6 {
        "6"
    } else if n == 7 {
        "7"
    } else if n == 8 {
        "8"
    } else if n == 9 {
        "9"
    } else if n == 10 {
        "a"
    } else if n == 11 {
        "b"
    } else if n == 12 {
        "c"
    } else if n == 13 {
        "d"
    } else if n == 14 {
        "e"
    } else {
        "f"
    };
    s
}

/// Appends to `out` the character at place `i` of `text`, as it stands
/// inside a JSON string literal.
fn push_escaped(out: &mut String, text: &str, i: usize)
    requires
        i < text@.len() <= usize::MAX,
    ensures
        final(out)@ == old(out)@ + escaped(text@[i as int]),
{
    let c = text.get_char(i);
    proof {
        reveal_strlit("\\\"");
        reveal_strlit("\\\\");
        reveal_strlit("\\b");
        reveal_strlit("\\f");
        reveal_strlit("\\n");
        reveal_strlit("\\r");
        reveal_strlit("\\t");
        reveal_strlit("\\u00");
    }
    if c == '"' {
        out.append("\\\"");
    } else if c == '\\' {
        out.append("\\\\");
    } else if c == '\u{8}' {
        out.append("\\b");
    } else if c == '\u{c}' {
        out.append("\\f");
    } else if c == '\n' {
        out.append("\\n");
    } else if c == '\r' {
        out.append("\\r");
    } else if c == '\t' {
        out.append("\\t");
    } else if (c as u32) < 32 {
        let code = c as u32;
        out.append("\\u00");
        out.append(hex_str(code / 16));
        out.append(hex_str(code % 16));
    } else {
        let plain = text.substring_char(i, i + 1);
        out.append(plain);
    }
}

/// Writes the JSON string literal of `text`.
pub fn quote(text: &str) -> (q: String)
    ensures
        q@ == json_quoted(text@),
{
    proof {
        reveal_strlit("\"");
    }
    let n = text.unicode_len();
    let mut q = String::from_str("\"");
    let mut i: usize = 0;
    while i < n
        invariant
            i <= n,
            n == text@.len(),
            q@ == seq!['"'] + escaped_text(text@.take(i as int)),
        decreases n - i,
    {
        proof {
            let next = text@.take(i + 1);
            assert(next.drop_last() =~= text@.take(i as int));
        }
        push_escaped(&mut q, text, i);
        i = i + 1;
    }
    assert(text@.take(n as int) =~= text@);
    q.append("\"");
    q
}

/// How a value is written: a text as a JSON string literal, a number as a
/// decimal with its places.
pub open spec fn value_text(v: ValueModel) -> Seq<char> {
    match v {
        ValueModel::Text(t) => json_quoted(t),
        ValueModel::Number { value, decimals } => fixed_text(value, decimals),
    }
}

/// How a member is written: the key as a JSON string literal, a colon, the
/// value.
pub open spec fn field_text(f: FieldModel) -> Seq<char> {
    json_quoted(f.key) + seq![':'] + value_text(f.value)
}

/// `parts`, with a comma between each two.
pub open spec fn joined(parts: Seq<Seq<char>>) -> Seq<char>
    decreases parts.len(),
{
    if parts.len() == 0 {
        Seq::empty()
    } else if parts.len() == 1 {
        parts[0]
    } else {
        joined(parts.drop_last()) + seq![','] + parts.last()
    }
}

/// The JSON object whose members are written as `parts`.
pub open spec fn object_text(parts: Seq<Seq<char>>) -> Seq<char> {
    seq!['{'] + joined(parts) + seq!['}']
}

/// The wire message with the members `fields`: one JSON object on one line.
pub open spec fn json_text(fields: Seq<FieldModel>) -> Seq<char> {
    object_text(fields.map_values(|f: FieldModel| field_text(f)))
}

/// What a list of texts stands for.
pub open spec fn texts_view(parts: Seq<String>) -> Seq<Seq<char>> {
    parts.map_values(|p: String| p@)
}

/// Writes the JSON object whose members are written as `parts`.
pub fn join_object(parts: &Vec<String>) -> (s: String)
    ensures
        s@ == object_text(texts_view(parts@)),
{
    proof {
        reveal_strlit("{");
        reveal_strlit("}");
    }
    let mut s = String::from_str("{");
    let n = parts.len();
    let mut i: usize = 0;
    while i < n
        invariant
            i <= n,
            n == parts@.len(),
            s@ == seq!['{'] + joined(texts_view(parts@).take(i as int)),
        decreases n - i,
    {
        let ghost before = texts_view(parts@).take(i as int);
        let ghost after = texts_view(parts@).take(i + 1);
        assert(after.drop_last() =~= before);
        if i > 0 {
            s.append(",");
        }
        s.append(parts[i].as_str());
        proof {
            reveal_strlit(",");
        }
        i = i + 1;
    }
    assert(texts_view(parts@).take(n as int) =~= texts_view(parts@));
    s.append("}");
    s
}

impl Field {
    /// Writes this member.
    pub fn render(&self) -> (t: String)
        ensures
            t@ == field_text(self@),
    {
        proof {
            reveal_strlit(":");
        }
        let mut out = quote(self.key.as_str());
        out.append(":");
        match &self.value {
            Value::Text(t) => {
                let q = quote(t.as_str());
                out.append(q.as_str());
            },
            Value::Number { value, decimals } => {
                let digits = format_fixed(*value, *decimals);
                out.append(digits.as_str());
            },
        }
        out
    }
}

/// Writes the wire message with the members `fields`.
pub fn render_fields(fields: &Vec<Field>) -> (t: String)
    ensures
        t@ == json_text(fields_view(fields@)),
{
    let mut parts: Vec<String> = Vec::new();
    let n = fields.len();
    let mut i: usize = 0;
    while i < n
        invariant
            i <= n,
            n == fields@.len(),
            parts@.len() == i,
            forall|m: int| 0 <= m < i ==> (#[trigger] parts@[m])@ == field_text(fields@[m]@),
        decreases n - i,
    {
        parts.push(fields[i].render());
        i = i + 1;
    }
    assert(texts_view(parts@) =~= fields_view(fields@).map_values(|f: FieldModel| field_text(f)));
    join_object(&parts)
}

impl Instruction {
    /// Writes the wire message of this instruction. Writing never fails.
    pub fn to_json(self) -> (r: Result<String, serde_json::Error>)
        ensures
            r matches Ok(t) && t@ == json_text(self.wire()),
    {
        let fields = self.fields();
        Ok(render_fields(&fields))
    }
}

} // verus!
