//! Reading the robot's replies.
//!
//! A scalar reply is `True`, `False`, a decimal numeral, or a text. A pose
//! comes as members between braces, `{key: value, key: value}`, in metres
//! and radians. Spaces do not count. A member whose key is none of the pose's
//! own is passed over; a member of the pose that is missing stands for zero.
use vstd::prelude::*;
use vstd::string::*;
use crate::geometry::JointCoord;
use crate::geometry::rad_to_deg;
use crate::geometry::rad_to_deg_spec;
use crate::geometry::Transform;
use crate::iva::MotionTarget;
use crate::number::chars_of;
use crate::number::fixed_value;
use crate::number::integer_value;
use crate::number::parse_chars;
use crate::number::parse_fixed;
use crate::number::parse_integer;
use crate::number::slice;

verus! {

/// Where `c` first stands in `s` at `from` or later; the length of `s` where
/// it does not.
pub open spec fn index_from(s: Seq<char>, c: char, from: int) -> int
    decreases s.len() - from,
{
    if from >= s.len() {
        s.len() as int
    } else if s[from] == c {
        from
    } else {
        index_from(s, c, from + 1)
    }
}

/// Where `c` first stands in `chars` at `from` or later.
fn find_from(chars: &Vec<char>, c: char, from: usize) -> (r: usize)
    requires
        from <= chars@.len(),
    ensures
        r == index_from(chars@, c, from as int),
        from <= r <= chars@.len(),
{
    let n = chars.len();
    let mut i: usize = from;
    while i < n && chars[i] != c
        invariant
            from <= i <= n,
            n == chars@.len(),
            index_from(chars@, c, i as int) == index_from(chars@, c, from as int),
        decreases n - i,
    {
        i = i + 1;
    }
    i
}

/// `s` without its spaces.
pub open spec fn without_spaces(s: Seq<char>) -> Seq<char>
    decreases s.len(),
{
    if s.len() == 0 {
        Seq::empty()
    } else if s.last() == ' ' {
        without_spaces(s.drop_last())
    } else {
        without_spaces(s.drop_last()).push(s.last())
    }
}

/// The characters of `chars` from `from` up to `to`, without the spaces.
fn strip_spaces(chars: &Vec<char>, from: usize, to: usize) -> (r: Vec<char>)
    requires
        from <= to <= chars@.len(),
    ensures
        r@ == without_spaces(chars@.subrange(from as int, to as int)),
{
    let mut r: Vec<char> = Vec::new();
    let mut i: usize = from;
    while i < to
        invariant
            from <= i <= to <= chars@.len(),
            r@ == without_spaces(chars@.subrange(from as int, i as int)),
        decreases to - i,
    {
        let ghost next = chars@.subrange(from as int, i + 1);
        assert(next.drop_last() =~= chars@.subrange(from as int, i as int));
        if chars[i] != ' ' {
            r.push(chars[i]);
        }
        i = i + 1;
    }
    r
}

/// Whether `chars` spell `word`.
fn spells(chars: &Vec<char>, word: &str) -> (b: bool)
    ensures
        b == (chars@ == word@),
{
    let n = word.unicode_len();
    if chars.len() != n {
        return false;
    }
    let mut i: usize = 0;
    while i < n
        invariant
            i <= n,
            n == word@.len(),
            n == chars@.len(),
            forall|m: int| 0 <= m < i ==> chars@[m] == word@[m],
        decreases n - i,
    {
        if chars[i] != word.get_char(i) {
            return false;
        }
        i = i + 1;
    }
    assert(chars@ =~= word@);
    true
}

/// The two kinds of pose.
#[derive(Debug, Clone, Copy, PartialEq, Eq, Structural)]
pub enum PoseKind {
    /// A `Transform`, with the members `x`, `y`, `z`, `rx`, `ry`, `rz`.
    Cartesian,
    /// A `JointCoord`, with the members `j1` to `j6`.
    Joint,
}

/// Which component of a pose of `kind` the member `key` is; `None` where it
/// is none.
pub open spec fn slot_of(kind: PoseKind, key: Seq<char>) -> Option<int> {
    match kind {
        PoseKind::Cartesian => if key == "x"@ {
            Some(0)
        } else if key == "y"@ {
            Some(1)
        } else if key == "z"@ {
            Some(2)
        } else if key == "rx"@ {
            Some(3)
        } else if key == "ry"@ {
            Some(4)
        } else if key == "rz"@ {
            Some(5)
        } else {
            None
        },
        PoseKind::Joint => if key == "j1"@ {
            Some(0)
        } else if key == "j2"@ {
            Some(1)
        } else if key == "j3"@ {
            Some(2)
        } else if key == "j4"@ {
            Some(3)
        } else if key == "j5"@ {
            Some(4)
        } else if key == "j6"@ {
            Some(5)
        } else {
            None
        },
    }
}

/// Which component of a pose of `kind` the member `key` is.
fn slot_index(kind: PoseKind, key: &Vec<char>) -> (r: Option<usize>)
    ensures
        match r {
            Some(i) => slot_of(kind, key@) == Some(i as int) && i < 6,
            None => slot_of(kind, key@) is None,
        },
{
    match kind {
        PoseKind::Cartesian => if spells(key, "x") {
            Some(0)
        } else if spells(key, "y") {
            Some(1)
        } else if spells(key, "z") {
            Some(2)
        } else if spells(key, "rx") {
            Some(3)
        } else if spells(key, "ry") {
            Some(4)
        } else if spells(key, "rz") {
            Some(5)
        } else {
            None
        },
        PoseKind::Joint => if spells(key, "j1") {
            Some(0)
        } else if spells(key, "j2") {
            Some(1)
        } else if spells(key, "j3") {
            Some(2)
        } else if spells(key, "j4") {
            Some(3)
        } else if spells(key, "j5") {
            Some(4)
        } else if spells(key, "j6") {
            Some(5)
        } else {
            None
        },
    }
}

/// Whether component `slot` of a pose of `kind` is an angle.
pub open spec fn is_angle_slot(kind: PoseKind, slot: int) -> bool {
    kind == PoseKind::Joint || slot >= 3
}

/// What component `slot` of a pose of `kind` is, in hundredths of a
/// millimetre or of a degree, when the wire says `wire` in units of `10^-5`
/// m or rad.
pub open spec fn slot_value(kind: PoseKind, slot: int, wire: int) -> int {
    if is_angle_slot(kind, slot) {
        rad_to_deg_spec(wire)
    } else {
        wire
    }
}

/// The components `slots` after the member `term` is read. An empty member
/// changes nothing, nor does one with a key of another kind. `None` where
/// the member has no colon, or is the pose's own and its value is no numeral
/// of the 64-bit range.
pub open spec fn read_term(kind: PoseKind, term: Seq<char>, slots: Seq<i64>) -> Option<Seq<i64>> {
    let colon = index_from(term, ':', 0);
    if term.len() == 0 {
        Some(slots)
    } else if colon >= term.len() {
        None
    } else {
        match slot_of(kind, term.subrange(0, colon)) {
            None => Some(slots),
            Some(slot) => match fixed_value(term.subrange(colon + 1, term.len() as int), 5) {
                None => None,
                Some(wire) => Some(slots.update(slot, slot_value(kind, slot, wire) as i64)),
            },
        }
    }
}

/// The components `slots` after the members of `body` from `from` on are
/// read, one after the other; members end at a comma.
pub open spec fn read_terms(kind: PoseKind, body: Seq<char>, from: int, slots: Seq<i64>) -> Option<
    Seq<i64>,
>
    decreases body.len() - from,
{
    let end = index_from(body, ',', from);
    if from >= body.len() {
        Some(slots)
    } else if end < from {
        None
    } else {
        match read_term(kind, body.subrange(from, end), slots) {
            None => None,
            Some(next) => if end >= body.len() {
                Some(next)
            } else {
                read_terms(kind, body, end + 1, next)
            },
        }
    }
}

/// What stands between the first opening brace of `s` and the first closing
/// brace after it; `None` where one of the two is missing.
pub open spec fn pose_body(s: Seq<char>) -> Option<Seq<char>> {
    let open = index_from(s, '{', 0);
    let close = index_from(s, '}', open + 1);
    if open >= s.len() || close >= s.len() {
        None
    } else {
        Some(s.subrange(open + 1, close))
    }
}

/// Six zeros: the components of a pose before any member is read.
pub open spec fn zeros() -> Seq<i64> {
    seq![0i64, 0i64, 0i64, 0i64, 0i64, 0i64]
}

/// The six components of the pose of `kind` that the reply `s` holds.
pub open spec fn pose_slots(kind: PoseKind, s: Seq<char>) -> Option<Seq<i64>> {
    match pose_body(s) {
        None => None,
        Some(body) => read_terms(kind, without_spaces(body), 0, zeros()),
    }
}

/// Reads the member `term` into `slots`.
fn take_term(kind: PoseKind, term: &Vec<char>, slots: Vec<i64>) -> (r: Option<Vec<i64>>)
    requires
        slots@.len() == 6,
    ensures
        match r {
            Some(next) => read_term(kind, term@, slots@) == Some(next@) && next@.len() == 6,
            None => read_term(kind, term@, slots@) is None,
        },
{
    let n = term.len();
    if n == 0 {
        return Some(slots);
    }
    let colon = find_from(term, ':', 0);
    if colon >= n {
        return None;
    }
    let key = slice(term, 0, colon);
    match slot_index(kind, &key) {
        None => Some(slots),
        Some(slot) => {
            let value = slice(term, colon + 1, n);
            match parse_chars(&value, 5) {
                None => None,
                Some(wire) => {
                    let angle = match kind {
                        PoseKind::Joint => true,
                        PoseKind::Cartesian => slot >= 3,
                    };
                    let v = if angle {
                        rad_to_deg(wire)
                    } else {
                        wire
                    };
                    let mut next = slots;
                    next.set(slot, v);
                    Some(next)
                },
            }
        },
    }
}

/// Reads the six components of the pose of `kind` out of the reply `raw`, in
/// hundredths of a millimetre or of a degree. `None` where the reply has no
/// braces, a member without a colon, or a member of the pose whose value is
/// no numeral.
pub fn decode_slots(kind: PoseKind, raw: &str) -> (r: Option<Vec<i64>>)
    ensures
        match r {
            Some(slots) => pose_slots(kind, raw@) == Some(slots@) && slots@.len() == 6,
            None => pose_slots(kind, raw@) is None,
        },
{
    let chars = chars_of(raw);
    let n = chars.len();
    let open = find_from(&chars, '{', 0);
    if open >= n {
        return None;
    }
    let close = find_from(&chars, '}', open + 1);
    if close >= n {
        return None;
    }
    let body = strip_spaces(&chars, open + 1, close);
    let len = body.len();
    let mut slots: Vec<i64> = Vec::new();
    slots.push(0);
    slots.push(0);
    slots.push(0);
    slots.push(0);
    slots.push(0);
    slots.push(0);
    assert(slots@ =~= seq![0i64, 0i64, 0i64, 0i64, 0i64, 0i64]);
    let mut from: usize = 0;
    while from < len
        invariant
            len == body@.len(),
            slots@.len() == 6,
            pose_slots(kind, raw@) == read_terms(kind, body@, from as int, slots@),
        decreases len - from,
    {
        let end = find_from(&body, ',', from);
        let term = slice(&body, from, end);
        match take_term(kind, &term, slots) {
            None => {
                return None;
            },
            Some(next) => {
                slots = next;
            },
        }
        if end >= len {
            return Some(slots);
        }
        from = end + 1;
    }
    Some(slots)
}

/// The pose of `kind` that the reply `raw` holds. An error holds the reply
/// that could not be read.
pub fn decode_pose(kind: PoseKind, raw: String) -> (r: Result<MotionTarget, String>)
    ensures
        match r {
            Ok(pose) => pose_slots(kind, raw@) == Some(target_slots(pose)) && (pose is Transform
                <==> kind == PoseKind::Cartesian) && pose_of(kind, raw@) == Some(pose),
            Err(e) => pose_slots(kind, raw@) is None && e == raw && pose_of(kind, raw@) is None,
        },
{
    match decode_slots(kind, raw.as_str()) {
        None => Err(raw),
        Some(slots) => {
            let pose = match kind {
                PoseKind::Cartesian => MotionTarget::Transform(
                    Transform::new(slots[0], slots[1], slots[2], slots[3], slots[4], slots[5]),
                ),
                PoseKind::Joint => MotionTarget::JointCoord(
                    JointCoord::new(slots[0], slots[1], slots[2], slots[3], slots[4], slots[5]),
                ),
            };
            Ok(pose)
        },
    }
}

/// The six components of a pose.
pub open spec fn transform_slots(t: Transform) -> Seq<i64> {
    seq![t.x, t.y, t.z, t.rx, t.ry, t.rz]
}

/// The six angles of joint coordinates.
pub open spec fn joint_slots(j: JointCoord) -> Seq<i64> {
    seq![j.j1, j.j2, j.j3, j.j4, j.j5, j.j6]
}

/// The six components of a target.
pub open spec fn target_slots(target: MotionTarget) -> Seq<i64> {
    match target {
        MotionTarget::Transform(t) => transform_slots(t),
        MotionTarget::JointCoord(j) => joint_slots(j),
    }
}

/// The target of `kind` with the six components `slots`.
pub open spec fn target_of(kind: PoseKind, slots: Seq<i64>) -> MotionTarget {
    match kind {
        PoseKind::Cartesian => MotionTarget::Transform(
            Transform {
                x: slots[0],
                y: slots[1],
                z: slots[2],
                rx: slots[3],
                ry: slots[4],
                rz: slots[5],
            },
        ),
        PoseKind::Joint => MotionTarget::JointCoord(
            JointCoord {
                j1: slots[0],
                j2: slots[1],
                j3: slots[2],
                j4: slots[3],
                j5: slots[4],
                j6: slots[5],
            },
        ),
    }
}

/// The pose of `kind` that the reply `raw` holds; `None` where it holds
/// none.
pub open spec fn pose_of(kind: PoseKind, raw: Seq<char>) -> Option<MotionTarget> {
    match pose_slots(kind, raw) {
        Some(slots) => Some(target_of(kind, slots)),
        None => None,
    }
}

/// A number in hundredths, as the robot gives a width or a measure.
#[derive(Debug, Clone, Copy, PartialEq, Eq, Structural)]
pub struct Centi(pub i64);

/// What can be read from a reply of the robot.
pub trait FromRobot: Sized {
    /// Whether reading the reply `res` may give `r`. An error holds what the
    /// reading left of the reply.
    open spec fn reads(res: Seq<char>, r: Result<Self, String>) -> bool {
        true
    }

    /// Reads the reply `res`.
    fn from_robot(res: String) -> (r: Result<Self, String>)
        ensures
            Self::reads(res@, r),
    ;
}

/// Whether `r` is the value `value` where there is one, and else an error
/// that holds the reply `res` as it came.
pub open spec fn read_as<T>(res: Seq<char>, value: Option<T>, r: Result<T, String>) -> bool {
    match value {
        Some(v) => r == Ok::<T, String>(v),
        None => r matches Err(e) && e@ == res,
    }
}

impl FromRobot for bool {
    /// `True` is read as true, `False` as false, and nothing else is read.
    open spec fn reads(res: Seq<char>, r: Result<bool, String>) -> bool {
        read_as(
            res,
            if res == "True"@ {
                Some(true)
            } else if res == "False"@ {
                Some(false)
            } else {
                None
            },
            r,
        )
    }

    fn from_robot(res: String) -> (r: Result<bool, String>) {
        let chars = chars_of(res.as_str());
        if spells(&chars, "True") {
            Ok(true)
        } else if spells(&chars, "False") {
            Ok(false)
        } else {
            Err(res)
        }
    }
}

/// `v` as a 64-bit integer.
pub open spec fn as_i64(v: Option<int>) -> Option<i64> {
    match v {
        Some(n) => Some(n as i64),
        None => None,
    }
}

/// `v` as a number in hundredths.
pub open spec fn as_centi(v: Option<int>) -> Option<Centi> {
    match v {
        Some(n) => Some(Centi(n as i64)),
        None => None,
    }
}

impl FromRobot for i64 {
    /// An integer numeral of the 64-bit range is read as its value.
    open spec fn reads(res: Seq<char>, r: Result<i64, String>) -> bool {
        read_as(res, as_i64(integer_value(res)), r)
    }

    fn from_robot(res: String) -> (r: Result<i64, String>) {
        match parse_integer(res.as_str()) {
            Some(v) => Ok(v),
            None => Err(res),
        }
    }
}

impl FromRobot for Centi {
    /// A decimal numeral is read as its value in hundredths; further places
    /// are cut off.
    open spec fn reads(res: Seq<char>, r: Result<Centi, String>) -> bool {
        read_as(res, as_centi(fixed_value(res, 2)), r)
    }

    fn from_robot(res: String) -> (r: Result<Centi, String>) {
        match parse_fixed(res.as_str(), 2) {
            Some(v) => Ok(Centi(v)),
            None => Err(res),
        }
    }
}

impl FromRobot for String {
    /// Every reply is read, as the text that it is.
    open spec fn reads(res: Seq<char>, r: Result<String, String>) -> bool {
        r matches Ok(text) && text@ == res
    }

    fn from_robot(res: String) -> (r: Result<String, String>) {
        Ok(res)
    }
}

/// The pose that `target` is, if it is one.
pub open spec fn as_transform(target: Option<MotionTarget>) -> Option<Transform> {
    match target {
        Some(MotionTarget::Transform(t)) => Some(t),
        _ => None,
    }
}

/// The joint coordinates that `target` is, if it is such.
pub open spec fn as_joint(target: Option<MotionTarget>) -> Option<JointCoord> {
    match target {
        Some(MotionTarget::JointCoord(j)) => Some(j),
        _ => None,
    }
}

impl FromRobot for Transform {
    /// A reply that holds a pose is read as that pose.
    open spec fn reads(res: Seq<char>, r: Result<Transform, String>) -> bool {
        read_as(res, as_transform(pose_of(PoseKind::Cartesian, res)), r)
    }

    fn from_robot(res: String) -> (r: Result<Transform, String>) {
        match decode_slots(PoseKind::Cartesian, res.as_str()) {
            Some(slots) => Ok(
                Transform::new(slots[0], slots[1], slots[2], slots[3], slots[4], slots[5]),
            ),
            None => Err(res),
        }
    }
}

impl FromRobot for JointCoord {
    /// A reply that holds joint coordinates is read as those.
    open spec fn reads(res: Seq<char>, r: Result<JointCoord, String>) -> bool {
        read_as(res, as_joint(pose_of(PoseKind::Joint, res)), r)
    }

    fn from_robot(res: String) -> (r: Result<JointCoord, String>) {
        match decode_slots(PoseKind::Joint, res.as_str()) {
            Some(slots) => Ok(
                JointCoord::new(slots[0], slots[1], slots[2], slots[3], slots[4], slots[5]),
            ),
            None => Err(res),
        }
    }
}

/// What a scalar reply holds.
#[derive(Debug, Clone, PartialEq, Eq)]
pub enum Scalar {
    /// `True` or `False`.
    Bool(bool),
    /// An integer numeral.
    Int(i64),
    /// A decimal numeral with a point, in hundredths.
    Number(Centi),
}

/// What the scalar reply `raw` holds: a truth value for `True` and `False`,
/// an integer for an integer numeral of the 64-bit range, the hundredths of
/// a decimal numeral with a point; `None` for anything else.
pub open spec fn scalar_of(raw: Seq<char>) -> Option<Scalar> {
    if raw == "True"@ {
        Some(Scalar::Bool(true))
    } else if raw == "False"@ {
        Some(Scalar::Bool(false))
    } else if integer_value(raw) is Some {
        Some(Scalar::Int(integer_value(raw)->0 as i64))
    } else if fixed_value(raw, 2) is Some {
        Some(Scalar::Number(Centi(fixed_value(raw, 2)->0 as i64)))
    } else {
        None
    }
}

/// Reads the scalar reply `raw`. An error holds the reply that is no
/// scalar.
pub fn decode_scalar(raw: String) -> (r: Result<Scalar, String>)
    ensures
        match r {
            Ok(value) => scalar_of(raw@) == Some(value),
            Err(e) => scalar_of(raw@) is None && e == raw,
        },
{
    let chars = chars_of(raw.as_str());
    if spells(&chars, "True") {
        Ok(Scalar::Bool(true))
    } else if spells(&chars, "False") {
        Ok(Scalar::Bool(false))
    } else {
        match parse_integer(raw.as_str()) {
            Some(v) => Ok(Scalar::Int(v)),
            None => match parse_fixed(raw.as_str(), 2) {
                Some(v) => Ok(Scalar::Number(Centi(v))),
                None => Err(raw),
            },
        }
    }
}

} // verus!
