//! The robot arm and what it can be told.
pub mod command_sequence;
pub mod contexts;
pub mod motion_param;
pub mod reply;

pub use command_sequence::CommandSequence;
pub use contexts::MotionContext;
pub use contexts::ParamContext;
pub use contexts::RobotContext;
pub use motion_param::MotionParam;
pub use motion_param::MotionValues;
pub use reply::decode_pose;
pub use reply::pose_of;
pub use reply::decode_scalar;
pub use reply::decode_slots;
pub use reply::Centi;
pub use reply::FromRobot;
pub use reply::PoseKind;
pub use reply::Scalar;

use vstd::prelude::*;
use vstd::string::*;
use crate::context::Context;
use crate::context::ContextGuard;
use crate::geometry::JointCoord;
use crate::geometry::Transform;
use crate::iva::CustomCommand;
use crate::iva::FieldModel;
use crate::iva::GetTarget;
use crate::iva::GripperCommand;
use crate::iva::Instruction;
use crate::iva::IOCommand;
use crate::iva::IOTarget;
use crate::iva::json_text;
use crate::iva::MotionMode;
use crate::iva::MotionTarget;
use crate::iva::op_code;
use crate::iva::RobotCommand;
use crate::iva::text;
use crate::logger::Logable;
use crate::logger::Logger;
use crate::number::chars_of;
use crate::ros_bridge::RosBridgeError;
use crate::socket::Transport;
use crate::socket::Written;

verus! {

/// What can go wrong when the robot is told something.
#[derive(Debug)]
pub enum RobotError {
    /// The channel to the robot failed.
    SocketError(std::io::Error),
    /// The ROS bridge failed.
    RosBridgeError(RosBridgeError),
    /// The instruction could not be written.
    JsonSer(serde_json::Error),
    /// The robot answered, but not with what was expected; this is its
    /// answer.
    ResponseError(String),
}

/// One round trip: the line that was handed over, and how it ended.
pub struct Exchange {
    pub line: Seq<char>,
    pub reply: Result<String, RobotError>,
}

/// What an answer to a command means: `OK` is success, any other answer is a
/// `ResponseError` that holds it, and a failed round trip is its own error.
pub open spec fn acknowledged(reply: Result<String, RobotError>) -> Result<(), RobotError> {
    match reply {
        Ok(s) => if s@ == "OK"@ {
            Ok(())
        } else {
            Err(RobotError::ResponseError(s))
        },
        Err(e) => Err(e),
    }
}

/// Tells whether the answer `reply` to a command acknowledges it.
pub fn assert_ok(reply: Result<String, RobotError>) -> (r: Result<(), RobotError>)
    ensures
        r == acknowledged(reply),
{
    match reply {
        Ok(s) => {
            let chars = chars_of(s.as_str());
            if reply_is_ok(&chars) {
                Ok(())
            } else {
                Err(RobotError::ResponseError(s))
            }
        },
        Err(e) => Err(e),
    }
}

fn reply_is_ok(chars: &Vec<char>) -> (b: bool)
    ensures
        b == (chars@ == "OK"@),
{
    proof {
        reveal_strlit("OK");
    }
    let b = chars.len() == 2 && chars[0] == 'O' && chars[1] == 'K';
    assert(b == (chars@ =~= "OK"@));
    b
}

/// Whether `r` is what the answer `reply` to a question gives: the value
/// read from it; where it cannot be read, a `ResponseError` that holds the
/// answer as it came; the error of a failed round trip.
pub open spec fn answered<T: FromRobot>(
    reply: Result<String, RobotError>,
    r: Result<T, RobotError>,
) -> bool {
    match reply {
        Ok(s) => match r {
            Ok(value) => T::reads(s@, Ok(value)),
            Err(e) => {
                &&& e matches RobotError::ResponseError(raw)
                &&& raw@ == s@
                &&& exists|left: String| T::reads(s@, Err(left))
            },
        },
        Err(e) => r == Err::<T, RobotError>(e),
    }
}

/// Reads the answer `reply` to a question. The answer is kept, so that the
/// error holds it whatever the reading leaves of it.
pub fn read_reply<T: FromRobot>(reply: Result<String, RobotError>) -> (r: Result<T, RobotError>)
    ensures
        answered(reply, r),
{
    match reply {
        Ok(s) => {
            let kept = s.clone();
            match T::from_robot(s) {
                Ok(value) => Ok(value),
                Err(left) => {
                    assert(T::reads(kept@, Err(left)));
                    Err(RobotError::ResponseError(kept))
                },
            }
        },
        Err(e) => Err(e),
    }
}

/// Whether `now` is `before` followed by the round trips of the first `sent`
/// of `requests`, in order and each acknowledged.
pub open spec fn progressed(
    before: Seq<Exchange>,
    now: Seq<Exchange>,
    requests: Seq<Seq<FieldModel>>,
    sent: int,
) -> bool {
    &&& 0 <= sent <= requests.len()
    &&& now.len() == before.len() + sent
    &&& now.take(before.len() as int) == before
    &&& forall|i: int|
        0 <= i < sent ==> (#[trigger] now[before.len() + i]).line == json_text(requests[i])
            && acknowledged(now[before.len() + i].reply) is Ok
}

/// Whether the round trips from `before` to `after` are those of sending
/// `requests` in order for as long as each is acknowledged, with `outcome`
/// what the answer to the last one sent means: at least one was sent, none
/// after one that was not acknowledged, and all of them if the outcome is
/// success.
pub open spec fn ran(
    before: Seq<Exchange>,
    after: Seq<Exchange>,
    requests: Seq<Seq<FieldModel>>,
    outcome: Result<(), RobotError>,
) -> bool {
    let sent = after.len() - before.len();
    &&& 1 <= sent <= requests.len()
    &&& progressed(before, after.drop_last(), requests, sent - 1)
    &&& after.last().line == json_text(requests[sent - 1])
    &&& acknowledged(after.last().reply) == outcome
    &&& outcome is Ok ==> sent == requests.len()
}

/// Whether `after` is `before` followed by the one round trip of `request`,
/// with `outcome` what its answer means.
pub open spec fn told(
    before: Seq<Exchange>,
    after: Seq<Exchange>,
    request: Seq<FieldModel>,
    outcome: Result<(), RobotError>,
) -> bool {
    ran(before, after, seq![request], outcome)
}

/// Whether `after` is `before` followed by the one round trip of `request`,
/// with `r` what its answer gives.
pub open spec fn asked<T: FromRobot>(
    before: Seq<Exchange>,
    after: Seq<Exchange>,
    request: Seq<FieldModel>,
    r: Result<T, RobotError>,
) -> bool {
    &&& after.len() == before.len() + 1
    &&& after.drop_last() == before
    &&& after.last().line == json_text(request)
    &&& answered(after.last().reply, r)
}

/// The requests that put each of `commands` on the queue, in order.
pub open spec fn enqueues(commands: Seq<RobotCommand>) -> Seq<Seq<FieldModel>> {
    commands.map_values(|c: RobotCommand| Instruction::Enqueue(c).wire())
}

/// The requests of a batch: each command put on the queue, in order, and
/// then the queue run.
pub open spec fn batch(commands: Seq<RobotCommand>, enter_context: bool) -> Seq<Seq<FieldModel>> {
    enqueues(commands).push(Instruction::Dequeue { enter_context }.wire())
}

/// The kind of pose that `target` is.
pub open spec fn kind_of(target: MotionTarget) -> PoseKind {
    match target {
        MotionTarget::Transform(_) => PoseKind::Cartesian,
        MotionTarget::JointCoord(_) => PoseKind::Joint,
    }
}

/// The message that asks where the robot stands, as a pose of `kind`.
pub open spec fn where_wire(kind: PoseKind) -> Seq<FieldModel> {
    match kind {
        PoseKind::Cartesian => Instruction::Get(GetTarget::Transform).wire(),
        PoseKind::Joint => Instruction::Get(GetTarget::JointCoord).wire(),
    }
}

/// What the answer `reply` to the question where the robot stands gives: the
/// pose of `kind` that it holds; a `ResponseError` with the answer where it
/// holds none; the error of a failed round trip.
pub open spec fn pose_read(kind: PoseKind, reply: Result<String, RobotError>) -> Result<
    MotionTarget,
    RobotError,
> {
    match reply {
        Ok(s) => match pose_of(kind, s@) {
            Some(pose) => Ok(pose),
            None => Err(RobotError::ResponseError(s)),
        },
        Err(e) => Err(e),
    }
}

/// Reads the answer `reply` to the question where the robot stands.
pub fn read_pose(kind: PoseKind, reply: Result<String, RobotError>) -> (r: Result<
    MotionTarget,
    RobotError,
>)
    ensures
        r == pose_read(kind, reply),
{
    match reply {
        Ok(s) => match decode_pose(kind, s) {
            Ok(pose) => Ok(pose),
            Err(raw) => Err(RobotError::ResponseError(raw)),
        },
        Err(e) => Err(e),
    }
}

/// The message that sets the gripper to the width stored under `label`.
pub open spec fn gripper_set_wire(label: Seq<char>) -> Seq<FieldModel> {
    seq![op_code("gripper"@), text("action"@, "set"@), text("label"@, label)]
}

/// The message that asks for the entry `key` of the data store.
pub open spec fn get_data_wire(key: Seq<char>) -> Seq<FieldModel> {
    seq![op_code("get"@), text("target"@, "data"@), text("key"@, key)]
}

/// What a robot has sent when it has run a batch of `commands`.
///
/// If the run succeeded, the robot made one round trip for each command, in
/// order, each putting that command on the queue, and then exactly one more,
/// which ran the queue. If the run failed after no more round trips than
/// there are commands, every round trip put a command on the queue, and the
/// queue was never run.
pub proof fn lemma_batch_sent(
    before: Seq<Exchange>,
    after: Seq<Exchange>,
    commands: Seq<RobotCommand>,
    enter_context: bool,
    outcome: Result<(), RobotError>,
)
    requires
        ran(before, after, batch(commands, enter_context), outcome),
    ensures
        after.take(before.len() as int) == before,
        outcome is Ok ==> after.len() == before.len() + commands.len() + 1,
        outcome is Ok ==> after.last().line == json_text(
            (Instruction::Dequeue { enter_context }).wire(),
        ),
        outcome is Ok ==> forall|i: int|
            0 <= i < commands.len() ==> (#[trigger] after[before.len() + i]).line == json_text(
                Instruction::Enqueue(commands[i]).wire(),
            ),
        outcome is Err && after.len() <= before.len() + commands.len() ==> forall|i: int|
            0 <= i < after.len() - before.len() ==> (#[trigger] after[before.len() + i]).line
                == json_text(Instruction::Enqueue(commands[i]).wire()),
        outcome is Err ==> forall|i: int|
            0 <= i < after.len() - before.len() - 1 ==> acknowledged(
                (#[trigger] after[before.len() + i]).reply,
            ) is Ok,
{
    let requests = batch(commands, enter_context);
    let sent = after.len() - before.len();
    let head = after.drop_last();
    assert forall|i: int| 0 <= i < sent - 1 implies (#[trigger] after[before.len() + i])
        == head[before.len() + i] by {}
}

/// One more acknowledged round trip carries the progress through a list of
/// requests one further; one that is not acknowledged ends the run.
pub proof fn lemma_progress(
    before: Seq<Exchange>,
    now: Seq<Exchange>,
    next: Seq<Exchange>,
    requests: Seq<Seq<FieldModel>>,
    sent: int,
    outcome: Result<(), RobotError>,
)
    requires
        progressed(before, now, requests, sent),
        sent < requests.len(),
        told(now, next, requests[sent], outcome),
    ensures
        outcome is Ok ==> progressed(before, next, requests, sent + 1),
        outcome is Err || sent + 1 == requests.len() ==> ran(before, next, requests, outcome),
{
    assert(next.drop_last() =~= now);
    assert(next.take(before.len() as int) =~= now.take(before.len() as int));
    assert forall|i: int| 0 <= i < sent implies (#[trigger] next[before.len() + i])
        == now[before.len() + i] by {
    }
}

/// The message that tells the robot to do `robot_command` now.
pub open spec fn execute_wire(robot_command: RobotCommand) -> Seq<FieldModel> {
    Instruction::Execute { robot_command, enter_context: false }.wire()
}

/// The message that tells the robot to do `robot_command` now and to
/// remember how to undo it.
pub open spec fn push_wire(robot_command: RobotCommand) -> Seq<FieldModel> {
    Instruction::Execute { robot_command, enter_context: true }.wire()
}

/// The motion of `mode` to the pose `target`.
pub open spec fn moving(mode: MotionMode, target: Transform) -> RobotCommand {
    RobotCommand::Motion { motion_mode: mode, target: MotionTarget::Transform(target) }
}

/// The message that switches port `port` of `target` on or off.
pub open spec fn io_set_wire(target: IOTarget, port: u16, state: bool) -> Seq<FieldModel> {
    Instruction::IO { target, port, io_command: IOCommand::SetTo { state } }.wire()
}

/// The message that asks whether port `port` of `target` is on.
pub open spec fn io_get_wire(target: IOTarget, port: u16) -> Seq<FieldModel> {
    Instruction::IO { target, port, io_command: IOCommand::Get }.wire()
}

/// An Inovo robot that speaks the `IVA` protocol. All that a robot has to
/// provide is the round trip of one instruction; what it can be told is built
/// on that.
pub trait IvaRobot: Sized {
    /// Whether robots of this type keep track of their round trips. What
    /// is said below of the round trips of a robot is said of those that
    /// do.
    open spec fn traced() -> bool {
        false
    }

    /// The round trips that this robot has made, oldest first.
    open spec fn trace(&self) -> Seq<Exchange> {
        Seq::empty()
    }

    /// The motion parameters that this robot holds for its parameter
    /// contexts: the ones that hold when none is set, and above them those
    /// put aside, the ones set last on top. Telling the robot something
    /// leaves them as they are; only a parameter context changes them.
    open spec fn held(&self) -> Seq<MotionParam> {
        Seq::empty()
    }

    /// Sends an instruction to the robot and returns its answer.
    fn instruction(&mut self, inst: Instruction) -> (r: Result<String, RobotError>)
        ensures
            Self::traced() ==> final(self).trace() == old(self).trace().push(
                Exchange { line: json_text(inst.wire()), reply: r },
            ),
            Self::traced() ==> final(self).held() == old(self).held(),
    ;

    /// Sends an instruction and expects the answer `OK`.
    fn instruction_assert_ok(&mut self, inst: Instruction) -> (r: Result<&mut Self, RobotError>)
        ensures
            match r {
                Ok(m) => {
                    &&& Self::traced() ==> told(
                        old(self).trace(),
                        m.trace(),
                        inst.wire(),
                        Ok(()),
                    )
                    &&& Self::traced() ==> m.held() == old(self).held()
                    &&& *final(m) == *final(self)
                },
                Err(e) => {
                    &&& Self::traced() ==> told(
                        old(self).trace(),
                        final(self).trace(),
                        inst.wire(),
                        Err(e),
                    )
                    &&& Self::traced() ==> final(self).held() == old(self).held()
                },
            },
    {
        let ghost before = self.trace();
        let reply = self.instruction(inst);
        proof {
            if Self::traced() {
                let after = self.trace();
                assert(after.drop_last() =~= before);
                assert(before.take(before.len() as int) =~= before);
            }
        }
        match assert_ok(reply) {
            Ok(()) => Ok(self),
            Err(e) => Err(e),
        }
    }

    /// Sends an instruction and reads the answer as a `T`.
    fn instruction_return<T: FromRobot>(&mut self, inst: Instruction) -> (r: Result<T, RobotError>)
        ensures
            Self::traced() ==> asked(
                old(self).trace(),
                final(self).trace(),
                inst.wire(),
                r,
            ),
            Self::traced() ==> final(self).held() == old(self).held(),
    {
        let ghost before = self.trace();
        let reply = self.instruction(inst);
        assert(Self::traced() ==> self.trace().drop_last() =~= before);
        read_reply(reply)
    }

    /// Sends the user's own `custom_command` and returns the answer as it
    /// is.
    fn custom(&mut self, custom_command: CustomCommand) -> (r: Result<String, RobotError>)
        ensures
            Self::traced() ==> final(self).trace() == old(self).trace().push(
                Exchange { line: json_text(Instruction::Custom(custom_command).wire()), reply: r },
            ),
            Self::traced() ==> final(self).held() == old(self).held(),
    {
        self.instruction(Instruction::custom(custom_command))
    }

    /// Tells the robot to do `robot_command` now.
    fn execute(&mut self, robot_command: RobotCommand) -> (r: Result<&mut Self, RobotError>)
        ensures
            match r {
                Ok(m) => {
                    &&& Self::traced() ==> told(
                        old(self).trace(),
                        m.trace(),
                        execute_wire(robot_command),
                        Ok(()),
                    )
                    &&& Self::traced() ==> m.held() == old(self).held()
                    &&& *final(m) == *final(self)
                },
                Err(e) => {
                    &&& Self::traced() ==> told(
                        old(self).trace(),
                        final(self).trace(),
                        execute_wire(robot_command),
                        Err(e),
                    )
                    &&& Self::traced() ==> final(self).held() == old(self).held()
                },
            },
    {
        self.instruction_assert_ok(Instruction::exec(robot_command))
    }

    /// Tells the robot to wait for `second` thousandths of a second.
    fn sleep(&mut self, second: i64) -> (r: Result<&mut Self, RobotError>)
        ensures
            match r {
                Ok(m) => {
                    &&& Self::traced() ==> told(
                        old(self).trace(),
                        m.trace(),
                        execute_wire(RobotCommand::Sleep { second }),
                        Ok(()),
                    )
                    &&& Self::traced() ==> m.held() == old(self).held()
                    &&& *final(m) == *final(self)
                },
                Err(e) => {
                    &&& Self::traced() ==> told(
                        old(self).trace(),
                        final(self).trace(),
                        execute_wire(RobotCommand::Sleep { second }),
                        Err(e),
                    )
                    &&& Self::traced() ==> final(self).held() == old(self).held()
                },
            },
    {
        self.execute(RobotCommand::Sleep { second })
    }

    /// Tells the robot to take `motion_param`.
    fn set_param(&mut self, motion_param: MotionParam) -> (r: Result<&mut Self, RobotError>)
        ensures
            match r {
                Ok(m) => {
                    &&& Self::traced() ==> told(
                        old(self).trace(),
                        m.trace(),
                        execute_wire(RobotCommand::SetParameter(motion_param)),
                        Ok(()),
                    )
                    &&& Self::traced() ==> m.held() == old(self).held()
                    &&& *final(m) == *final(self)
                },
                Err(e) => {
                    &&& Self::traced() ==> told(
                        old(self).trace(),
                        final(self).trace(),
                        execute_wire(RobotCommand::SetParameter(motion_param)),
                        Err(e),
                    )
                    &&& Self::traced() ==> final(self).held() == old(self).held()
                },
            },
    {
        self.execute(RobotCommand::SetParameter(motion_param))
    }

    /// Tells the robot to move to `target` in the way of `mode`.
    fn motion(&mut self, mode: MotionMode, target: Transform) -> (r: Result<&mut Self, RobotError>)
        ensures
            match r {
                Ok(m) => {
                    &&& Self::traced() ==> told(
                        old(self).trace(),
                        m.trace(),
                        execute_wire(moving(mode, target)),
                        Ok(()),
                    )
                    &&& Self::traced() ==> m.held() == old(self).held()
                    &&& *final(m) == *final(self)
                },
                Err(e) => {
                    &&& Self::traced() ==> told(
                        old(self).trace(),
                        final(self).trace(),
                        execute_wire(moving(mode, target)),
                        Err(e),
                    )
                    &&& Self::traced() ==> final(self).held() == old(self).held()
                },
            },
    {
        self.execute(
            RobotCommand::Motion { motion_mode: mode, target: MotionTarget::Transform(target) },
        )
    }

    /// Tells the robot to move the tool to `target` on a straight line.
    fn linear(&mut self, target: Transform) -> (r: Result<&mut Self, RobotError>)
        ensures
            match r {
                Ok(m) => {
                    &&& Self::traced() ==> told(
                        old(self).trace(),
                        m.trace(),
                        execute_wire(moving(MotionMode::Linear, target)),
                        Ok(()),
                    )
                    &&& Self::traced() ==> m.held() == old(self).held()
                    &&& *final(m) == *final(self)
                },
                Err(e) => {
                    &&& Self::traced() ==> told(
                        old(self).trace(),
                        final(self).trace(),
                        execute_wire(moving(MotionMode::Linear, target)),
                        Err(e),
                    )
                    &&& Self::traced() ==> final(self).held() == old(self).held()
                },
            },
    {
        self.motion(MotionMode::Linear, target)
    }

    /// Tells the robot to move the tool by `target` on a straight line.
    fn linear_relative(&mut self, target: Transform) -> (r: Result<&mut Self, RobotError>)
        ensures
            match r {
                Ok(m) => {
                    &&& Self::traced() ==> told(
                        old(self).trace(),
                        m.trace(),
                        execute_wire(moving(MotionMode::LinearRelative, target)),
                        Ok(()),
                    )
                    &&& Self::traced() ==> m.held() == old(self).held()
                    &&& *final(m) == *final(self)
                },
                Err(e) => {
                    &&& Self::traced() ==> told(
                        old(self).trace(),
                        final(self).trace(),
                        execute_wire(moving(MotionMode::LinearRelative, target)),
                        Err(e),
                    )
                    &&& Self::traced() ==> final(self).held() == old(self).held()
                },
            },
    {
        self.motion(MotionMode::LinearRelative, target)
    }

    /// Tells the robot to move to `target`, a pose or joint coordinates, by turning
    /// its joints.
    fn joint(&mut self, target: MotionTarget) -> (r: Result<&mut Self, RobotError>)
        ensures
            match r {
                Ok(m) => {
                    &&& Self::traced() ==> told(
                        old(self).trace(),
                        m.trace(),
                        execute_wire(RobotCommand::motion_spec(MotionMode::Joint, target)),
                        Ok(()),
                    )
                    &&& Self::traced() ==> m.held() == old(self).held()
                    &&& *final(m) == *final(self)
                },
                Err(e) => {
                    &&& Self::traced() ==> told(
                        old(self).trace(),
                        final(self).trace(),
                        execute_wire(RobotCommand::motion_spec(MotionMode::Joint, target)),
                        Err(e),
                    )
                    &&& Self::traced() ==> final(self).held() == old(self).held()
                },
            },
    {
        self.execute(RobotCommand::Motion { motion_mode: MotionMode::Joint, target })
    }

    /// Tells the robot to move by `target` by turning its joints.
    fn joint_relative(&mut self, target: Transform) -> (r: Result<&mut Self, RobotError>)
        ensures
            match r {
                Ok(m) => {
                    &&& Self::traced() ==> told(
                        old(self).trace(),
                        m.trace(),
                        execute_wire(moving(MotionMode::JointRelative, target)),
                        Ok(()),
                    )
                    &&& Self::traced() ==> m.held() == old(self).held()
                    &&& *final(m) == *final(self)
                },
                Err(e) => {
                    &&& Self::traced() ==> told(
                        old(self).trace(),
                        final(self).trace(),
                        execute_wire(moving(MotionMode::JointRelative, target)),
                        Err(e),
                    )
                    &&& Self::traced() ==> final(self).held() == old(self).held()
                },
            },
    {
        self.motion(MotionMode::JointRelative, target)
    }

    /// Puts `robot_command` on the robot's queue.
    fn enqueue(&mut self, robot_command: RobotCommand) -> (r: Result<&mut Self, RobotError>)
        ensures
            match r {
                Ok(m) => {
                    &&& Self::traced() ==> told(
                        old(self).trace(),
                        m.trace(),
                        Instruction::Enqueue(robot_command).wire(),
                        Ok(()),
                    )
                    &&& Self::traced() ==> m.held() == old(self).held()
                    &&& *final(m) == *final(self)
                },
                Err(e) => {
                    &&& Self::traced() ==> told(
                        old(self).trace(),
                        final(self).trace(),
                        Instruction::Enqueue(robot_command).wire(),
                        Err(e),
                    )
                    &&& Self::traced() ==> final(self).held() == old(self).held()
                },
            },
    {
        self.instruction_assert_ok(Instruction::enqueue(robot_command))
    }

    /// Tells the robot to do what is on its queue.
    fn dequeue(&mut self) -> (r: Result<&mut Self, RobotError>)
        ensures
            match r {
                Ok(m) => {
                    &&& Self::traced() ==> told(
                        old(self).trace(),
                        m.trace(),
                        Instruction::Dequeue { enter_context: false }.wire(),
                        Ok(()),
                    )
                    &&& Self::traced() ==> m.held() == old(self).held()
                    &&& *final(m) == *final(self)
                },
                Err(e) => {
                    &&& Self::traced() ==> told(
                        old(self).trace(),
                        final(self).trace(),
                        Instruction::Dequeue { enter_context: false }.wire(),
                        Err(e),
                    )
                    &&& Self::traced() ==> final(self).held() == old(self).held()
                },
            },
    {
        self.instruction_assert_ok(Instruction::dequeue())
    }

    /// Switches port `port` of `io_target` on or off.
    fn io_set(
        &mut self,
        io_target: IOTarget,
        port: u16,
        state: bool,
    ) -> (r: Result<&mut Self, RobotError>)
        ensures
            match r {
                Ok(m) => {
                    &&& Self::traced() ==> told(
                        old(self).trace(),
                        m.trace(),
                        io_set_wire(io_target, port, state),
                        Ok(()),
                    )
                    &&& Self::traced() ==> m.held() == old(self).held()
                    &&& *final(m) == *final(self)
                },
                Err(e) => {
                    &&& Self::traced() ==> told(
                        old(self).trace(),
                        final(self).trace(),
                        io_set_wire(io_target, port, state),
                        Err(e),
                    )
                    &&& Self::traced() ==> final(self).held() == old(self).held()
                },
            },
    {
        self.instruction_assert_ok(Instruction::io_set(io_target, port, state))
    }

    /// Switches port `port` of the Beckhoff bank on or off.
    fn beckhoff_set(&mut self, port: u16, state: bool) -> (r: Result<&mut Self, RobotError>)
        ensures
            match r {
                Ok(m) => {
                    &&& Self::traced() ==> told(
                        old(self).trace(),
                        m.trace(),
                        io_set_wire(IOTarget::Beckhoff, port, state),
                        Ok(()),
                    )
                    &&& Self::traced() ==> m.held() == old(self).held()
                    &&& *final(m) == *final(self)
                },
                Err(e) => {
                    &&& Self::traced() ==> told(
                        old(self).trace(),
                        final(self).trace(),
                        io_set_wire(IOTarget::Beckhoff, port, state),
                        Err(e),
                    )
                    &&& Self::traced() ==> final(self).held() == old(self).held()
                },
            },
    {
        self.io_set(IOTarget::Beckhoff, port, state)
    }

    /// Switches port `port` of the wrist on or off.
    fn wrist_set(&mut self, port: u16, state: bool) -> (r: Result<&mut Self, RobotError>)
        ensures
            match r {
                Ok(m) => {
                    &&& Self::traced() ==> told(
                        old(self).trace(),
                        m.trace(),
                        io_set_wire(IOTarget::Wrist, port, state),
                        Ok(()),
                    )
                    &&& Self::traced() ==> m.held() == old(self).held()
                    &&& *final(m) == *final(self)
                },
                Err(e) => {
                    &&& Self::traced() ==> told(
                        old(self).trace(),
                        final(self).trace(),
                        io_set_wire(IOTarget::Wrist, port, state),
                        Err(e),
                    )
                    &&& Self::traced() ==> final(self).held() == old(self).held()
                },
            },
    {
        self.io_set(IOTarget::Wrist, port, state)
    }

    /// Activates the gripper.
    fn gripper_activate(&mut self) -> (r: Result<&mut Self, RobotError>)
        ensures
            match r {
                Ok(m) => {
                    &&& Self::traced() ==> told(
                        old(self).trace(),
                        m.trace(),
                        Instruction::Gripper(GripperCommand::Activate).wire(),
                        Ok(()),
                    )
                    &&& Self::traced() ==> m.held() == old(self).held()
                    &&& *final(m) == *final(self)
                },
                Err(e) => {
                    &&& Self::traced() ==> told(
                        old(self).trace(),
                        final(self).trace(),
                        Instruction::Gripper(GripperCommand::Activate).wire(),
                        Err(e),
                    )
                    &&& Self::traced() ==> final(self).held() == old(self).held()
                },
            },
    {
        self.instruction_assert_ok(Instruction::Gripper(GripperCommand::Activate))
    }

    /// Sets the gripper to the width stored under `label`.
    fn gripper_set(&mut self, label: &str) -> (r: Result<&mut Self, RobotError>)
        ensures
            match r {
                Ok(m) => {
                    &&& Self::traced() ==> told(
                        old(self).trace(),
                        m.trace(),
                        gripper_set_wire(label@),
                        Ok(()),
                    )
                    &&& Self::traced() ==> m.held() == old(self).held()
                    &&& *final(m) == *final(self)
                },
                Err(e) => {
                    &&& Self::traced() ==> told(
                        old(self).trace(),
                        final(self).trace(),
                        gripper_set_wire(label@),
                        Err(e),
                    )
                    &&& Self::traced() ==> final(self).held() == old(self).held()
                },
            },
    {
        let inst = Instruction::gripper(GripperCommand::SetTo { label: String::from_str(label) });
        assert(inst.wire() =~= gripper_set_wire(label@));
        self.instruction_assert_ok(inst)
    }

    /// Tells the robot to do the user's own `custom_command` and expects the
    /// answer `OK`.
    fn custom_and(&mut self, custom_command: CustomCommand) -> (r: Result<&mut Self, RobotError>)
        ensures
            match r {
                Ok(m) => {
                    &&& Self::traced() ==> told(
                        old(self).trace(),
                        m.trace(),
                        Instruction::Custom(custom_command).wire(),
                        Ok(()),
                    )
                    &&& Self::traced() ==> m.held() == old(self).held()
                    &&& *final(m) == *final(self)
                },
                Err(e) => {
                    &&& Self::traced() ==> told(
                        old(self).trace(),
                        final(self).trace(),
                        Instruction::Custom(custom_command).wire(),
                        Err(e),
                    )
                    &&& Self::traced() ==> final(self).held() == old(self).held()
                },
            },
    {
        self.instruction_assert_ok(Instruction::custom(custom_command))
    }

    /// Asks the robot for `get_target` and reads the answer as a `T`.
    fn get<T: FromRobot>(&mut self, get_target: GetTarget) -> (r: Result<T, RobotError>)
        ensures
            Self::traced() ==> asked(
                old(self).trace(),
                final(self).trace(),
                Instruction::Get(get_target).wire(),
                r,
            ),
            Self::traced() ==> final(self).held() == old(self).held(),
    {
        self.instruction_return(Instruction::Get(get_target))
    }

    /// Asks where the robot stands, as a pose of `kind`. The answer is read
    /// as `pose_read` says.
    fn current_pose(&mut self, kind: PoseKind) -> (r: Result<MotionTarget, RobotError>)
        ensures
            Self::traced() ==> {
                &&& final(self).trace().len() == old(self).trace().len() + 1
                &&& final(self).trace().drop_last() == old(self).trace()
                &&& final(self).trace().last().line == json_text(where_wire(kind))
                &&& r == pose_read(kind, final(self).trace().last().reply)
            },
            Self::traced() ==> final(self).held() == old(self).held(),
    {
        let question = match kind {
            PoseKind::Cartesian => GetTarget::Transform,
            PoseKind::Joint => GetTarget::JointCoord,
        };
        let reply = self.instruction(Instruction::Get(question));
        read_pose(kind, reply)
    }

    /// Asks where the tool stands.
    fn get_current_transform(&mut self) -> (r: Result<Transform, RobotError>)
        ensures
            Self::traced() ==> asked(
                old(self).trace(),
                final(self).trace(),
                Instruction::Get(GetTarget::Transform).wire(),
                r,
            ),
            Self::traced() ==> final(self).held() == old(self).held(),
    {
        self.get(GetTarget::Transform)
    }

    /// Asks where the joints stand.
    fn get_current_joint(&mut self) -> (r: Result<JointCoord, RobotError>)
        ensures
            Self::traced() ==> asked(
                old(self).trace(),
                final(self).trace(),
                Instruction::Get(GetTarget::JointCoord).wire(),
                r,
            ),
            Self::traced() ==> final(self).held() == old(self).held(),
    {
        self.get(GetTarget::JointCoord)
    }

    /// Asks for the entry `key` of the robot's data store and reads it as a `T`.
    fn get_data<T: FromRobot>(&mut self, key: &str) -> (r: Result<T, RobotError>)
        ensures
            Self::traced() ==> asked(
                old(self).trace(),
                final(self).trace(),
                get_data_wire(key@),
                r,
            ),
            Self::traced() ==> final(self).held() == old(self).held(),
    {
        let target = GetTarget::data(key);
        assert(Instruction::Get(target).wire() =~= get_data_wire(key@));
        self.get(target)
    }

    /// Asks whether port `port` of `io_target` is on.
    fn io_get(&mut self, io_target: IOTarget, port: u16) -> (r: Result<bool, RobotError>)
        ensures
            Self::traced() ==> asked(
                old(self).trace(),
                final(self).trace(),
                io_get_wire(io_target, port),
                r,
            ),
            Self::traced() ==> final(self).held() == old(self).held(),
    {
        self.instruction_return(Instruction::io_get(io_target, port))
    }

    /// Asks whether port `port` of the Beckhoff bank is on.
    fn beckhoff_get(&mut self, port: u16) -> (r: Result<bool, RobotError>)
        ensures
            Self::traced() ==> asked(
                old(self).trace(),
                final(self).trace(),
                io_get_wire(IOTarget::Beckhoff, port),
                r,
            ),
            Self::traced() ==> final(self).held() == old(self).held(),
    {
        self.io_get(IOTarget::Beckhoff, port)
    }

    /// Asks whether port `port` of the wrist is on.
    fn wrist_get(&mut self, port: u16) -> (r: Result<bool, RobotError>)
        ensures
            Self::traced() ==> asked(
                old(self).trace(),
                final(self).trace(),
                io_get_wire(IOTarget::Wrist, port),
                r,
            ),
            Self::traced() ==> final(self).held() == old(self).held(),
    {
        self.io_get(IOTarget::Wrist, port)
    }

    /// Asks for the width of the gripper, in hundredths.
    fn gripper_get(&mut self) -> (r: Result<Centi, RobotError>)
        ensures
            Self::traced() ==> asked(
                old(self).trace(),
                final(self).trace(),
                Instruction::Gripper(GripperCommand::Get).wire(),
                r,
            ),
            Self::traced() ==> final(self).held() == old(self).held(),
    {
        self.instruction_return(Instruction::gripper(GripperCommand::Get))
    }

    /// Puts the commands of `command_sequence` on the robot's queue, in
    /// order, and stops at the first that the robot does not acknowledge.
    fn enqueue_all(&mut self, command_sequence: &CommandSequence) -> (r: Result<(), RobotError>)
        ensures
            match r {
                Ok(()) => {
                    &&& Self::traced() ==> progressed(
                        old(self).trace(),
                        final(self).trace(),
                        enqueues(command_sequence@),
                        command_sequence@.len() as int,
                    )
                    &&& Self::traced() ==> final(self).held() == old(self).held()
                },
                Err(e) => {
                    &&& Self::traced() ==> ran(
                        old(self).trace(),
                        final(self).trace(),
                        enqueues(command_sequence@),
                        Err(e),
                    )
                    &&& Self::traced() ==> final(self).held() == old(self).held()
                },
            },
    {
        let ghost before = self.trace();
        let ghost requests = enqueues(command_sequence@);
        let n = command_sequence.len();
        let mut i: usize = 0;
        assert(before.take(before.len() as int) =~= before);
        while i < n
            invariant
                i <= n,
                n == command_sequence@.len(),
                requests == enqueues(command_sequence@),
                before == old(self).trace(),
                Self::traced() ==> progressed(before, self.trace(), requests, i as int),
                Self::traced() ==> self.held() == old(self).held(),
            decreases n - i,
        {
            let ghost now = self.trace();
            let command = command_sequence.get(i);
            match self.enqueue(command) {
                Ok(_) => {
                    proof {
                        if Self::traced() {
                            lemma_progress(before, now, self.trace(), requests, i as int, Ok(()));
                        }
                    }
                },
                Err(e) => {
                    proof {
                        if Self::traced() {
                            lemma_progress(before, now, self.trace(), requests, i as int, Err(e));
                        }
                    }
                    return Err(e);
                },
            }
            i = i + 1;
        }
        Ok(())
    }

    /// Runs `command_sequence` as one batch: puts each command on the
    /// robot's queue, in order, and then tells the robot to do what is on
    /// the queue. Stops at the first round trip that the robot does not
    /// acknowledge; what is on the queue by then stays there.
    fn sequence(&mut self, command_sequence: CommandSequence) -> (r: Result<&mut Self, RobotError>)
        ensures
            match r {
                Ok(m) => {
                    &&& Self::traced() ==> ran(
                        old(self).trace(),
                        m.trace(),
                        batch(command_sequence@, false),
                        Ok(()),
                    )
                    &&& Self::traced() ==> m.held() == old(self).held()
                    &&& *final(m) == *final(self)
                },
                Err(e) => {
                    &&& Self::traced() ==> ran(
                        old(self).trace(),
                        final(self).trace(),
                        batch(command_sequence@, false),
                        Err(e),
                    )
                    &&& Self::traced() ==> final(self).held() == old(self).held()
                },
            },
    {
        let ghost before = self.trace();
        let ghost requests = batch(command_sequence@, false);
        match self.enqueue_all(&command_sequence) {
            Ok(()) => {},
            Err(e) => {
                return Err(e);
            },
        }
        let ghost now = self.trace();
        proof {
            let last = command_sequence@.len() as int;
            if Self::traced() {
                assert forall|next: Seq<Exchange>, outcome: Result<(), RobotError>| #[trigger]
                    told(now, next, requests[last], outcome) implies ran(
                    before,
                    next,
                    requests,
                    outcome,
                ) by {
                    lemma_progress(before, now, next, requests, last, outcome);
                }
            }
        }
        self.dequeue()
    }
}

/// What a failure, or none, means as an outcome.
pub open spec fn outcome_of(failed: Option<RobotError>) -> Result<(), RobotError> {
    match failed {
        None => Ok(()),
        Some(e) => Err(e),
    }
}

/// The context that the robot keeps itself: it is entered by an instruction
/// that lets the robot remember how to undo it, and left by telling the robot
/// to undo what it remembered last.
#[derive(Debug, Clone, Copy)]
pub struct IvaContext;

impl<R: IvaRobot> Context<R> for IvaContext {
    type Error = RobotError;

    open spec fn enters(
        before: &Self,
        machine: &R,
        after: &Self,
        changed: &R,
        failed: Option<RobotError>,
    ) -> bool {
        changed == machine && failed is None
    }

    open spec fn leaves(
        before: &Self,
        machine: &R,
        after: &Self,
        changed: &R,
        failed: Option<RobotError>,
    ) -> bool {
        R::traced() ==> {
            &&& told(machine.trace(), changed.trace(), Instruction::Pop.wire(), outcome_of(failed))
            &&& changed.held() == machine.held()
        }
    }

    /// Does nothing: the instruction that opened the context has done it.
    fn context_enter(&mut self, machine: &mut R) -> (r: Result<(), RobotError>) {
        Ok(())
    }

    /// Tells the robot to undo what it remembered last.
    fn context_drop(&mut self, machine: &mut R) -> (r: Result<(), RobotError>) {
        match machine.instruction_assert_ok(Instruction::Pop) {
            Ok(_) => Ok(()),
            Err(e) => Err(e),
        }
    }

    /// A context that the robot keeps is named `iva`.
    open spec fn named(&self, label: Seq<char>) -> bool {
        label == "iva"@
    }

    fn label(&self) -> (s: String) {
        String::from_str("iva")
    }
}

/// What an `IvaRobot` can be told for the length of a scope: each of these
/// enters a context and returns the guard that leaves it when it is closed.
/// A motion is a context of the library, which moves the arm back itself.
/// A command, a pause and a run of the queue are contexts that the robot
/// keeps: it remembers how to undo them and is told to do so.
pub trait IvaScoped: IvaRobot {
    /// Tells the robot to do `robot_command` now and to remember how to undo it;
    /// closing the guard undoes it.
    fn with_execute(&mut self, robot_command: RobotCommand) -> (r: Result<
        ContextGuard<'_, Self, IvaContext>,
        RobotError,
    >)
        ensures
            match r {
                Ok(g) => {
                    &&& Self::traced() ==> told(
                        old(self).trace(),
                        g.guard.trace(),
                        push_wire(robot_command),
                        Ok(()),
                    )
                    &&& Self::traced() ==> g.guard.held() == old(self).held()
                    &&& *final(g.guard) == *final(self)
                },
                Err(e) => {
                    &&& Self::traced() ==> told(
                        old(self).trace(),
                        final(self).trace(),
                        push_wire(robot_command),
                        Err(e),
                    )
                    &&& Self::traced() ==> final(self).held() == old(self).held()
                },
            },
    {
        match self.instruction_assert_ok(Instruction::exec_push(robot_command)) {
            Ok(m) => match ContextGuard::new(m, IvaContext) {
                Ok(g) => Ok(g),
                Err(e) => Err(e),
            },
            Err(e) => Err(e),
        }
    }

    /// A wait of `second` thousandths of a second, as a context.
    fn with_sleep(&mut self, second: i64) -> (r: Result<
        ContextGuard<'_, Self, IvaContext>,
        RobotError,
    >)
        ensures
            match r {
                Ok(g) => {
                    &&& Self::traced() ==> told(
                        old(self).trace(),
                        g.guard.trace(),
                        push_wire(RobotCommand::Sleep { second }),
                        Ok(()),
                    )
                    &&& Self::traced() ==> g.guard.held() == old(self).held()
                    &&& *final(g.guard) == *final(self)
                },
                Err(e) => {
                    &&& Self::traced() ==> told(
                        old(self).trace(),
                        final(self).trace(),
                        push_wire(RobotCommand::Sleep { second }),
                        Err(e),
                    )
                    &&& Self::traced() ==> final(self).held() == old(self).held()
                },
            },
    {
        self.with_execute(RobotCommand::Sleep { second })
    }

    /// A motion of `mode` to `target`, a pose or joint coordinates, as a
    /// context of the library: entering makes the motion, and closing the
    /// guard makes the motion that undoes it, as `MotionContext` says.
    fn with_target(&mut self, mode: MotionMode, target: MotionTarget) -> (r: Result<
        ContextGuard<'_, Self, MotionContext>,
        RobotError,
    >)
        ensures
            ({
                let context = MotionContext::to(mode, target);
                match r {
                    Ok(g) => {
                        &&& Self::traced() ==> context.entered_by(
                            old(self).trace(),
                            g.context,
                            g.guard.trace(),
                            None,
                        )
                        &&& Self::traced() ==> g.guard.held() == old(self).held()
                        &&& *final(g.guard) == *final(self)
                    },
                    Err(e) => {
                        &&& Self::traced() ==> context.entered_by(
                            old(self).trace(),
                            context,
                            final(self).trace(),
                            Some(e),
                        )
                        &&& Self::traced() ==> final(self).held() == old(self).held()
                    },
                }
            }),
    {
        ContextGuard::new(self, MotionContext::new(mode, target))
    }

    /// A motion to the pose `target` in the way of `mode`, as a context:
    /// closing the guard moves the arm back.
    fn with_motion(&mut self, mode: MotionMode, target: Transform) -> (r: Result<
        ContextGuard<'_, Self, MotionContext>,
        RobotError,
    >)
        ensures
            ({
                let context = MotionContext::to(mode, MotionTarget::Transform(target));
                match r {
                    Ok(g) => {
                        &&& Self::traced() ==> context.entered_by(
                            old(self).trace(),
                            g.context,
                            g.guard.trace(),
                            None,
                        )
                        &&& Self::traced() ==> g.guard.held() == old(self).held()
                        &&& *final(g.guard) == *final(self)
                    },
                    Err(e) => {
                        &&& Self::traced() ==> context.entered_by(
                            old(self).trace(),
                            context,
                            final(self).trace(),
                            Some(e),
                        )
                        &&& Self::traced() ==> final(self).held() == old(self).held()
                    },
                }
            }),
    {
        self.with_target(mode, MotionTarget::Transform(target))
    }

    /// A linear motion to `target`, as a context: closing the guard moves the
    /// arm back to where it stood.
    fn with_linear(&mut self, target: Transform) -> (r: Result<
        ContextGuard<'_, Self, MotionContext>,
        RobotError,
    >)
        ensures
            ({
                let context = MotionContext::to(
                    MotionMode::Linear,
                    MotionTarget::Transform(target),
                );
                match r {
                    Ok(g) => {
                        &&& Self::traced() ==> context.entered_by(
                            old(self).trace(),
                            g.context,
                            g.guard.trace(),
                            None,
                        )
                        &&& Self::traced() ==> g.guard.held() == old(self).held()
                        &&& *final(g.guard) == *final(self)
                    },
                    Err(e) => {
                        &&& Self::traced() ==> context.entered_by(
                            old(self).trace(),
                            context,
                            final(self).trace(),
                            Some(e),
                        )
                        &&& Self::traced() ==> final(self).held() == old(self).held()
                    },
                }
            }),
    {
        self.with_motion(MotionMode::Linear, target)
    }

    /// A linear motion by `target`, as a context: closing the guard moves the
    /// arm by the opposite delta.
    fn with_linear_relative(&mut self, target: Transform) -> (r: Result<
        ContextGuard<'_, Self, MotionContext>,
        RobotError,
    >)
        ensures
            ({
                let context = MotionContext::to(
                    MotionMode::LinearRelative,
                    MotionTarget::Transform(target),
                );
                match r {
                    Ok(g) => {
                        &&& Self::traced() ==> context.entered_by(
                            old(self).trace(),
                            g.context,
                            g.guard.trace(),
                            None,
                        )
                        &&& Self::traced() ==> g.guard.held() == old(self).held()
                        &&& *final(g.guard) == *final(self)
                    },
                    Err(e) => {
                        &&& Self::traced() ==> context.entered_by(
                            old(self).trace(),
                            context,
                            final(self).trace(),
                            Some(e),
                        )
                        &&& Self::traced() ==> final(self).held() == old(self).held()
                    },
                }
            }),
    {
        self.with_motion(MotionMode::LinearRelative, target)
    }

    /// A joint motion to `target`, a pose or joint coordinates, as a context:
    /// closing the guard moves the arm back to where it stood.
    fn with_joint(&mut self, target: MotionTarget) -> (r: Result<
        ContextGuard<'_, Self, MotionContext>,
        RobotError,
    >)
        ensures
            ({
                let context = MotionContext::to(MotionMode::Joint, target);
                match r {
                    Ok(g) => {
                        &&& Self::traced() ==> context.entered_by(
                            old(self).trace(),
                            g.context,
                            g.guard.trace(),
                            None,
                        )
                        &&& Self::traced() ==> g.guard.held() == old(self).held()
                        &&& *final(g.guard) == *final(self)
                    },
                    Err(e) => {
                        &&& Self::traced() ==> context.entered_by(
                            old(self).trace(),
                            context,
                            final(self).trace(),
                            Some(e),
                        )
                        &&& Self::traced() ==> final(self).held() == old(self).held()
                    },
                }
            }),
    {
        self.with_target(MotionMode::Joint, target)
    }

    /// A joint motion by `target`, as a context: closing the guard moves the
    /// arm by the opposite delta.
    fn with_joint_relative(&mut self, target: Transform) -> (r: Result<
        ContextGuard<'_, Self, MotionContext>,
        RobotError,
    >)
        ensures
            ({
                let context = MotionContext::to(
                    MotionMode::JointRelative,
                    MotionTarget::Transform(target),
                );
                match r {
                    Ok(g) => {
                        &&& Self::traced() ==> context.entered_by(
                            old(self).trace(),
                            g.context,
                            g.guard.trace(),
                            None,
                        )
                        &&& Self::traced() ==> g.guard.held() == old(self).held()
                        &&& *final(g.guard) == *final(self)
                    },
                    Err(e) => {
                        &&& Self::traced() ==> context.entered_by(
                            old(self).trace(),
                            context,
                            final(self).trace(),
                            Some(e),
                        )
                        &&& Self::traced() ==> final(self).held() == old(self).held()
                    },
                }
            }),
    {
        self.with_motion(MotionMode::JointRelative, target)
    }

    /// Tells the robot to do what is on its queue and to remember how to undo
    /// the last step; closing the guard undoes it.
    fn with_dequeue(&mut self) -> (r: Result<ContextGuard<'_, Self, IvaContext>, RobotError>)
        ensures
            match r {
                Ok(g) => {
                    &&& Self::traced() ==> told(
                        old(self).trace(),
                        g.guard.trace(),
                        Instruction::Dequeue { enter_context: true }.wire(),
                        Ok(()),
                    )
                    &&& Self::traced() ==> g.guard.held() == old(self).held()
                    &&& *final(g.guard) == *final(self)
                },
                Err(e) => {
                    &&& Self::traced() ==> told(
                        old(self).trace(),
                        final(self).trace(),
                        Instruction::Dequeue { enter_context: true }.wire(),
                        Err(e),
                    )
                    &&& Self::traced() ==> final(self).held() == old(self).held()
                },
            },
    {
        match self.instruction_assert_ok(Instruction::dequeue_push()) {
            Ok(m) => match ContextGuard::new(m, IvaContext) {
                Ok(g) => Ok(g),
                Err(e) => Err(e),
            },
            Err(e) => Err(e),
        }
    }

    /// Runs `command_sequence` as one batch, as a context: each command is
    /// put on the robot's queue, and the queue is run with the robot
    /// remembering how to undo the last step. Closing the guard undoes that
    /// step, not the batch.
    fn with_sequence(&mut self, command_sequence: CommandSequence) -> (r: Result<
        ContextGuard<'_, Self, IvaContext>,
        RobotError,
    >)
        ensures
            match r {
                Ok(g) => {
                    &&& Self::traced() ==> ran(
                        old(self).trace(),
                        g.guard.trace(),
                        batch(command_sequence@, true),
                        Ok(()),
                    )
                    &&& Self::traced() ==> g.guard.held() == old(self).held()
                    &&& *final(g.guard) == *final(self)
                },
                Err(e) => {
                    &&& Self::traced() ==> ran(
                        old(self).trace(),
                        final(self).trace(),
                        batch(command_sequence@, true),
                        Err(e),
                    )
                    &&& Self::traced() ==> final(self).held() == old(self).held()
                },
            },
    {
        let ghost before = self.trace();
        let ghost requests = batch(command_sequence@, true);
        match self.enqueue_all(&command_sequence) {
            Ok(()) => {},
            Err(e) => {
                return Err(e);
            },
        }
        let ghost now = self.trace();
        proof {
            let last = command_sequence@.len() as int;
            if Self::traced() {
                assert forall|next: Seq<Exchange>, outcome: Result<(), RobotError>| #[trigger]
                    told(now, next, requests[last], outcome) implies ran(
                    before,
                    next,
                    requests,
                    outcome,
                ) by {
                    lemma_progress(before, now, next, requests, last, outcome);
                }
            }
        }
        self.with_dequeue()
    }
}

impl<R: IvaRobot> IvaScoped for R {
}

/// What the robot makes of what the channel gave when a line was asked of
/// it: the line, or the error of the channel as a `SocketError`.
pub open spec fn line_taken(given: Result<String, std::io::Error>) -> Result<String, RobotError> {
    match given {
        Ok(line) => Ok(line),
        Err(e) => Err(RobotError::SocketError(e)),
    }
}

/// Whether the channel went from `before` to `after` by being handed the
/// line `line`, once, with `r` what came of it: success if the channel took
/// the line, and else the error of the channel as a `SocketError`. Nothing
/// was asked of the channel.
pub open spec fn handed<S: Transport>(
    before: &S,
    after: &S,
    line: Seq<char>,
    r: Result<(), RobotError>,
) -> bool {
    S::kept() ==> {
        &&& after.sent().len() == before.sent().len() + 1
        &&& after.sent().drop_last() == before.sent()
        &&& after.sent().last().line == line
        &&& after.given() == before.given()
        &&& match after.sent().last().outcome {
            Ok(_) => r is Ok,
            Err(e) => r == Err::<(), RobotError>(RobotError::SocketError(e)),
        }
    }
}

/// Whether the channel went from `before` to `after` by being asked for a
/// line, once, with `r` what the robot makes of what it gave. Nothing was
/// handed to the channel.
pub open spec fn took<S: Transport>(before: &S, after: &S, r: Result<String, RobotError>) -> bool {
    S::kept() ==> {
        &&& after.given().len() == before.given().len() + 1
        &&& after.given().drop_last() == before.given()
        &&& after.sent() == before.sent()
        &&& r == line_taken(after.given().last())
    }
}

/// Whether the channel went from `before` to `after` by one round trip of
/// the line `line`, with `r` what came of it. The line was handed to the
/// channel, once. If the channel did not take it, no answer was asked for,
/// and `r` is the error of the channel. If it took the line, one answer was
/// asked for, and `r` is what the robot makes of what the channel gave.
pub open spec fn exchanged<S: Transport>(
    before: &S,
    after: &S,
    line: Seq<char>,
    r: Result<String, RobotError>,
) -> bool {
    S::kept() ==> {
        &&& after.sent().len() == before.sent().len() + 1
        &&& after.sent().drop_last() == before.sent()
        &&& after.sent().last().line == line
        &&& match after.sent().last().outcome {
            Ok(_) => {
                &&& after.given().len() == before.given().len() + 1
                &&& after.given().drop_last() == before.given()
                &&& r == line_taken(after.given().last())
            },
            Err(e) => {
                &&& after.given() == before.given()
                &&& r == Err::<String, RobotError>(RobotError::SocketError(e))
            },
        }
    }
}

/// The round trips that a channel has made, oldest first, as what was
/// handed to it and what it gave tell. Each line handed to it is one round
/// trip. Where the channel did not take the line, the round trip ended with
/// the error of the channel. Where it took the line, the round trip ended
/// with the answer given for it: the last answer for the last line taken,
/// the one before for the line taken before, and so on. A line taken for
/// which no answer was ever asked is no round trip.
pub open spec fn round_trips_of(
    sent: Seq<Written>,
    given: Seq<Result<String, std::io::Error>>,
) -> Seq<Exchange>
    decreases sent.len(),
{
    if sent.len() == 0 {
        Seq::empty()
    } else {
        match sent.last().outcome {
            Err(e) => round_trips_of(sent.drop_last(), given).push(
                Exchange { line: sent.last().line, reply: Err(RobotError::SocketError(e)) },
            ),
            Ok(_) => if given.len() == 0 {
                round_trips_of(sent.drop_last(), given)
            } else {
                round_trips_of(sent.drop_last(), given.drop_last()).push(
                    Exchange { line: sent.last().line, reply: line_taken(given.last()) },
                )
            },
        }
    }
}

/// One round trip over a channel adds one round trip to those that the
/// channel has made: the line, with what came of it.
pub proof fn lemma_round_trip<S: Transport>(
    before: &S,
    after: &S,
    line: Seq<char>,
    r: Result<String, RobotError>,
)
    requires
        S::kept(),
        exchanged(before, after, line, r),
    ensures
        round_trips_of(after.sent(), after.given()) == round_trips_of(
            before.sent(),
            before.given(),
        ).push(Exchange { line, reply: r }),
{
}

/// Whether the robot went from `before` to `after` by telling the arm to
/// take `param`, with `outcome` what came of it: one round trip over the
/// channel, of the line that sets `param`, and one more round trip among
/// those of the robot, whose answer must be `OK`.
pub open spec fn param_told<S: Transport>(
    before: &Robot<S>,
    after: &Robot<S>,
    param: MotionParam,
    outcome: Result<(), RobotError>,
) -> bool {
    S::kept() ==> {
        &&& told(
            before.round_trips(),
            after.round_trips(),
            execute_wire(RobotCommand::SetParameter(param)),
            outcome,
        )
        &&& exchanged(
            &before.stream,
            &after.stream,
            json_text(execute_wire(RobotCommand::SetParameter(param))),
            after.round_trips().last().reply,
        )
    }
}

/// An Inovo robot arm at the other end of a channel. It keeps the motion
/// parameters that parameter contexts have put aside, the one set last on
/// top, and the parameters that hold when none is set. Its round trips are
/// those of its channel.
pub struct Robot<S: Transport> {
    /// The logger of the robot.
    pub logger: Logger,
    /// The channel to the robot.
    pub stream: S,
    /// The parameters that parameter contexts have set, the last on top.
    pub params: Vec<MotionParam>,
    /// The parameters that hold when no parameter context is entered.
    pub default_param: MotionParam,
}

impl<S: Transport> Robot<S> {
    /// The round trips that the channel of this robot has made, oldest
    /// first.
    pub open spec fn round_trips(&self) -> Seq<Exchange> {
        round_trips_of(self.stream.sent(), self.stream.given())
    }

    /// A robot at the other end of `stream`, with no parameters put aside
    /// and the parameters with none set as default.
    pub fn new(stream: S, logger: Logger) -> (r: Self)
        ensures
            r.stream == stream,
            r.logger == logger,
            r.params@ == Seq::<MotionParam>::empty(),
            r.default_param@ == MotionValues::unset(),
    {
        Robot { logger, stream, params: Vec::new(), default_param: MotionParam::new() }
    }

    /// Hands the line `msg` to the channel.
    pub fn write(&mut self, msg: &str) -> (r: Result<(), RobotError>)
        ensures
            handed(&old(self).stream, &final(self).stream, msg@, r),
            r matches Err(e) ==> e is SocketError,
            final(self).params == old(self).params,
            final(self).default_param == old(self).default_param,
            final(self).logger == old(self).logger,
    {
        let outcome = self.stream.write(String::from_str(msg));
        assert(S::kept() ==> self.stream.sent().drop_last() =~= old(self).stream.sent());
        match outcome {
            Ok(done) => Ok(done),
            Err(e) => Err(RobotError::SocketError(e)),
        }
    }

    /// Asks the channel for a line, once, and returns what it gave: the line,
    /// or the error of the channel.
    pub fn read(&mut self) -> (r: Result<String, RobotError>)
        ensures
            took(&old(self).stream, &final(self).stream, r),
            r matches Err(e) ==> e is SocketError,
            final(self).params == old(self).params,
            final(self).default_param == old(self).default_param,
            final(self).logger == old(self).logger,
    {
        let given = self.stream.read();
        assert(S::kept() ==> self.stream.given().drop_last() =~= old(self).stream.given());
        match given {
            Ok(msg) => Ok(msg),
            Err(e) => Err(RobotError::SocketError(e)),
        }
    }

    /// Sets the parameters that hold when no parameter context is entered.
    pub fn set_default_param(&mut self, param: MotionParam)
        ensures
            final(self).default_param == param,
            final(self).params == old(self).params,
            final(self).logger == old(self).logger,
            final(self).stream == old(self).stream,
    {
        self.default_param = param;
    }

    /// Hands the line `text` to the channel and, if the channel took it,
    /// asks for the answer.
    fn round_trip(&mut self, text: &str) -> (r: Result<String, RobotError>)
        ensures
            exchanged(&old(self).stream, &final(self).stream, text@, r),
            r matches Err(e) ==> e is SocketError,
            final(self).params == old(self).params,
            final(self).default_param == old(self).default_param,
            final(self).logger == old(self).logger,
    {
        match self.write(text) {
            Err(e) => Err(e),
            Ok(_) => self.read(),
        }
    }

    /// Tells the robot to take `param`, and leaves alone what is put aside:
    /// one round trip over the channel, whose answer must be `OK`.
    pub fn apply_param(&mut self, param: MotionParam) -> (r: Result<(), RobotError>)
        ensures
            param_told(old(self), final(self), param, r),
            final(self).params == old(self).params,
            final(self).default_param == old(self).default_param,
            final(self).logger == old(self).logger,
    {
        let ghost before = self.round_trips();
        let reply = self.instruction(Instruction::exec(RobotCommand::SetParameter(param)));
        proof {
            if S::kept() {
                assert(self.round_trips().drop_last() =~= before);
                assert(before.take(before.len() as int) =~= before);
            }
        }
        assert_ok(reply)
    }
}

impl<S: Transport> IvaRobot for Robot<S> {
    /// A robot keeps track of its round trips where its channel keeps its
    /// lines.
    open spec fn traced() -> bool {
        S::kept()
    }

    open spec fn trace(&self) -> Seq<Exchange> {
        self.round_trips()
    }

    /// A robot holds its default parameters and, above them, those that
    /// its parameter contexts have put aside.
    open spec fn held(&self) -> Seq<MotionParam> {
        seq![self.default_param] + self.params@
    }

    /// Hands the instruction to the channel as one line of JSON and, if the
    /// channel took it, asks for one line of answer. An error is one of the
    /// channel.
    fn instruction(&mut self, inst: Instruction) -> (r: Result<String, RobotError>)
        ensures
            exchanged(&old(self).stream, &final(self).stream, json_text(inst.wire()), r),
            r matches Err(e) ==> e is SocketError,
            final(self).params == old(self).params,
            final(self).default_param == old(self).default_param,
            final(self).logger == old(self).logger,
    {
        let r = match inst.to_json() {
            Ok(text) => self.round_trip(text.as_str()),
            Err(e) => Err(RobotError::JsonSer(e)),
        };
        proof {
            if S::kept() {
                lemma_round_trip(&old(self).stream, &self.stream, json_text(inst.wire()), r);
            }
        }
        r
    }
}

/// Robots that hold the same parameters have the same default parameters
/// and have put the same aside.
pub proof fn lemma_held<S: Transport>(a: &Robot<S>, b: &Robot<S>)
    requires
        a.held() == b.held(),
    ensures
        a.default_param == b.default_param,
        a.params@ == b.params@,
{
    assert(a.held()[0] == a.default_param);
    assert(b.held()[0] == b.default_param);
    assert(a.held().len() == a.params@.len() + 1);
    assert(b.held().len() == b.params@.len() + 1);
    assert forall|i: int| 0 <= i < a.params@.len() implies a.params@[i] == b.params@[i] by {
        assert(a.held()[i + 1] == a.params@[i]);
        assert(b.held()[i + 1] == b.params@[i]);
    }
    assert(a.params@ =~= b.params@);
}

impl<S: Transport> Logable for Robot<S> {
    open spec fn logs_with(&self, logger: Logger) -> bool {
        logger == self.logger
    }

    fn get_logger(&mut self) -> (l: &mut Logger)
        ensures
            final(self).params == old(self).params,
            final(self).default_param == old(self).default_param,
            final(self).stream == old(self).stream,
    {
        &mut self.logger
    }
}

} // verus!
