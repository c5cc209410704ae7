//! Lists of commands that the robot runs as one batch.
use vstd::prelude::*;
use crate::geometry::Transform;
use crate::iva::MotionMode;
use crate::iva::MotionTarget;
use crate::iva::RobotCommand;
use crate::robot::MotionParam;

verus! {

/// A list of commands, in the order in which the robot is to run them.
/// Commands are added at the end and never taken away.
#[derive(Debug, Clone)]
pub struct CommandSequence {
    seq: Vec<RobotCommand>,
}

impl View for CommandSequence {
    type V = Seq<RobotCommand>;

    closed spec fn view(&self) -> Seq<RobotCommand> {
        self.seq@
    }
}

impl CommandSequence {
    /// The empty list.
    pub fn new() -> (r: Self)
        ensures
            r@ == Seq::<RobotCommand>::empty(),
    {
        CommandSequence { seq: Vec::new() }
    }

    fn with(self, robot_command: RobotCommand) -> (r: Self)
        ensures
            r@ == self@.push(robot_command),
    {
        let mut seq = self.seq;
        seq.push(robot_command);
        CommandSequence { seq }
    }

    /// This list with `robot_command` added.
    pub fn then(self, robot_command: RobotCommand) -> (r: Self)
        ensures
            r@ == self@.push(robot_command),
    {
        self.with(robot_command)
    }

    /// This list with a linear motion to `target` added.
    pub fn then_linear(self, target: Transform) -> (r: Self)
        ensures
            r@ == self@.push(
                RobotCommand::motion_spec(MotionMode::Linear, MotionTarget::Transform(target)),
            ),
    {
        self.with(RobotCommand::linear(target))
    }

    /// This list with a linear motion by `target` added.
    pub fn then_linear_relative(self, target: Transform) -> (r: Self)
        ensures
            r@ == self@.push(
                RobotCommand::motion_spec(
                    MotionMode::LinearRelative,
                    MotionTarget::Transform(target),
                ),
            ),
    {
        self.with(RobotCommand::linear_relative(target))
    }

    /// This list with a joint motion to `target` added.
    pub fn then_joint(self, target: MotionTarget) -> (r: Self)
        ensures
            r@ == self@.push(RobotCommand::motion_spec(MotionMode::Joint, target)),
    {
        self.with(RobotCommand::joint(target))
    }

    /// This list with a joint motion by `target` added.
    pub fn then_joint_relative(self, target: Transform) -> (r: Self)
        ensures
            r@ == self@.push(
                RobotCommand::motion_spec(
                    MotionMode::JointRelative,
                    MotionTarget::Transform(target),
                ),
            ),
    {
        self.with(RobotCommand::joint_relative(target))
    }

    /// This list with a wait of `second` thousandths of a second added.
    pub fn then_sleep(self, second: i64) -> (r: Self)
        ensures
            r@ == self@.push(RobotCommand::Sleep { second }),
    {
        self.with(RobotCommand::Sleep { second })
    }

    /// This list with a wait for the motions before it added.
    pub fn then_sync(self) -> (r: Self)
        ensures
            r@ == self@.push(RobotCommand::Synchronize),
    {
        self.with(RobotCommand::Synchronize)
    }

    /// This list with the taking of `param` added.
    pub fn then_set_param(self, param: MotionParam) -> (r: Self)
        ensures
            r@ == self@.push(RobotCommand::SetParameter(param)),
    {
        self.with(RobotCommand::SetParameter(param))
    }

    /// How many commands the list holds.
    pub fn len(&self) -> (n: usize)
        ensures
            n == self@.len(),
    {
        self.seq.len()
    }

    /// The command at place `i`.
    pub fn get(&self, i: usize) -> (c: RobotCommand)
        requires
            i < self@.len(),
        ensures
            c == self@[i as int],
    {
        self.seq[i]
    }

    /// The list of the commands of `commands`, in their order.
    pub fn from_vec(commands: Vec<RobotCommand>) -> (r: Self)
        ensures
            r@ == commands@,
    {
        CommandSequence { seq: commands }
    }

    /// The commands of this list, in their order.
    pub fn into_vec(self) -> (v: Vec<RobotCommand>)
        ensures
            v@ == self@,
    {
        self.seq
    }
}

} // verus!
