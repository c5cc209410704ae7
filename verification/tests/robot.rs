use inovo_rs::context::{Context, ContextGuard, ContextMachine, ContextStackError};
use inovo_rs::geometry::{JointCoord, Transform};
use inovo_rs::iva::{
    CustomCommand, GetTarget, IOTarget, Instruction, MotionMode, MotionTarget, RobotCommand,
};
use inovo_rs::logger::{Logable, Logger};
use inovo_rs::robot::{
    assert_ok, read_reply, Centi, CommandSequence, FromRobot, IvaContext, IvaRobot, IvaScoped,
    MotionContext,
    MotionParam, ParamContext, Robot, RobotContext, RobotError,
};
use inovo_rs::socket::{Scripted, Transport};
use std::collections::VecDeque;

/// A channel that answers from a list and keeps what was written.
struct Script {
    replies: VecDeque<String>,
    sent: Vec<String>,
}

impl Script {
    fn new(replies: &[&str]) -> Script {
        Script { replies: replies.iter().map(|r| r.to_string()).collect(), sent: vec![] }
    }
}

impl Transport for Script {
    fn write(&mut self, msg: String) -> Result<(), std::io::Error> {
        self.sent.push(msg);
        Ok(())
    }

    fn read(&mut self) -> Result<String, std::io::Error> {
        match self.replies.pop_front() {
            Some(r) => Ok(r),
            None => Err(std::io::Error::other("0 input bytes, diconnected")),
        }
    }
}

fn robot(replies: &[&str]) -> Robot<Script> {
    Robot::new(Script::new(replies), Logger::empty())
}

fn json(inst: Instruction) -> String {
    inst.to_json().unwrap()
}

fn exec(command: RobotCommand) -> String {
    json(Instruction::exec(command))
}

fn motion(mode: MotionMode, target: MotionTarget) -> String {
    exec(RobotCommand::Motion { motion_mode: mode, target })
}

fn response(r: Result<(), RobotError>) -> Option<String> {
    match r {
        Err(RobotError::ResponseError(s)) => Some(s),
        _ => None,
    }
}

#[test]
fn an_instruction_is_one_write_and_one_read() {
    let mut bot = robot(&["anything"]);
    let answer = bot.instruction(Instruction::pop()).unwrap();
    assert_eq!(answer, "anything");
    assert_eq!(bot.stream.sent, vec![r#"{"op_code":"pop"}"#.to_string()]);
    assert!(matches!(bot.instruction(Instruction::pop()), Err(RobotError::SocketError(_))));
    assert_eq!(bot.stream.sent.len(), 2);
}

#[test]
fn write_and_read_reach_the_channel() {
    let mut bot = robot(&["pong"]);
    bot.write("ping").unwrap();
    assert_eq!(bot.read().unwrap(), "pong");
    assert_eq!(bot.stream.sent, vec!["ping".to_string()]);
    assert!(matches!(bot.read(), Err(RobotError::SocketError(_))));
}

#[test]
fn a_read_gives_what_the_channel_gave() {
    let mut bot = robot(&["first", "", "third"]);
    assert_eq!(bot.read().unwrap(), "first");
    assert_eq!(bot.read().unwrap(), "");
    assert_eq!(bot.read().unwrap(), "third");
    match bot.read() {
        Err(RobotError::SocketError(e)) => assert_eq!(e.to_string(), "0 input bytes, diconnected"),
        _ => panic!("an empty channel gives its error"),
    }
    assert!(bot.stream.sent.is_empty());
}

#[test]
fn the_channel_in_memory_answers_from_its_list() {
    let replies = vec!["OK".to_string(), "True".to_string()];
    let mut bot = Robot::new(Scripted::new(replies), Logger::empty());
    bot.sleep(1).unwrap();
    assert_eq!(bot.beckhoff_get(0).unwrap(), true);
    assert!(matches!(bot.sleep(1), Err(RobotError::SocketError(_))));
    assert_eq!(bot.stream.next, 2);
    assert_eq!(
        bot.stream.lines,
        vec![
            exec(RobotCommand::Sleep { second: 1 }),
            json(Instruction::io_get(IOTarget::Beckhoff, 0)),
            exec(RobotCommand::Sleep { second: 1 }),
        ]
    );
    let mut channel = Scripted::new(vec![]);
    channel.write("a line".to_string()).unwrap();
    assert!(channel.read().is_err());
    assert_eq!(channel.lines, vec!["a line"]);
}

/// Something that reads a reply and spoils it on the way.
#[derive(Debug, PartialEq)]
struct Spoiled;

impl FromRobot for Spoiled {
    fn from_robot(res: String) -> Result<Self, String> {
        Err(res.to_uppercase())
    }
}

#[test]
fn an_answer_that_cannot_be_read_is_kept_as_it_came() {
    assert!(matches!(
        read_reply::<Spoiled>(Ok("as it came".to_string())),
        Err(RobotError::ResponseError(s)) if s == "as it came"
    ));
    let mut bot = robot(&["as it came"]);
    assert!(matches!(
        bot.get::<Spoiled>(GetTarget::Transform),
        Err(RobotError::ResponseError(s)) if s == "as it came"
    ));
}

#[test]
fn only_ok_acknowledges() {
    assert!(assert_ok(Ok("OK".to_string())).is_ok());
    assert_eq!(response(assert_ok(Ok("ok".to_string()))), Some("ok".to_string()));
    assert_eq!(response(assert_ok(Ok("OK ".to_string()))), Some("OK ".to_string()));
    assert_eq!(response(assert_ok(Ok("".to_string()))), Some("".to_string()));
    assert!(matches!(
        assert_ok(Err(RobotError::ResponseError("kept".to_string()))),
        Err(RobotError::ResponseError(s)) if s == "kept"
    ));
    let mut bot = robot(&["OK", "NO"]);
    assert!(bot.sleep(1000).is_ok());
    assert!(matches!(bot.sleep(1000), Err(RobotError::ResponseError(s)) if s == "NO"));
}

#[test]
fn answers_are_read_as_the_type_asked_for() {
    assert_eq!(read_reply::<bool>(Ok("True".to_string())).unwrap(), true);
    assert_eq!(read_reply::<i64>(Ok("12".to_string())).unwrap(), 12);
    assert_eq!(read_reply::<Centi>(Ok("0.5".to_string())).unwrap(), Centi(50));
    assert!(matches!(
        read_reply::<bool>(Ok("Maybe".to_string())),
        Err(RobotError::ResponseError(s)) if s == "Maybe"
    ));
    assert!(matches!(
        read_reply::<bool>(Err(RobotError::ResponseError("kept".to_string()))),
        Err(RobotError::ResponseError(s)) if s == "kept"
    ));
}

#[test]
fn commands_chain() {
    let mut bot = robot(&["OK", "OK", "OK", "OK", "OK", "OK", "OK"]);
    let t = Transform::from_x(10000);
    bot.linear(t)
        .unwrap()
        .linear_relative(t)
        .unwrap()
        .joint(MotionTarget::JointCoord(JointCoord::from_j1(9000)))
        .unwrap()
        .joint_relative(t)
        .unwrap()
        .sleep(500)
        .unwrap()
        .set_param(MotionParam::new().set_speed(10000))
        .unwrap()
        .motion(MotionMode::Linear, t)
        .unwrap();
    assert_eq!(
        bot.stream.sent,
        vec![
            motion(MotionMode::Linear, MotionTarget::Transform(t)),
            motion(MotionMode::LinearRelative, MotionTarget::Transform(t)),
            motion(MotionMode::Joint, MotionTarget::JointCoord(JointCoord::from_j1(9000))),
            motion(MotionMode::JointRelative, MotionTarget::Transform(t)),
            exec(RobotCommand::Sleep { second: 500 }),
            exec(RobotCommand::SetParameter(MotionParam::new().set_speed(10000))),
            motion(MotionMode::Linear, MotionTarget::Transform(t)),
        ]
    );
}

#[test]
fn questions_are_asked_and_read() {
    let mut bot = robot(&[
        "{x: 0.1, y: 0, z: 0, rx: 0, ry: 0, rz: 0}",
        "{j1: 1.5708}",
        "True",
        "False",
        "85.25",
        "17",
        "free text",
        "raw",
        "nonsense",
    ]);
    assert_eq!(bot.get_current_transform().unwrap(), Transform::from_x(10000));
    assert_eq!(bot.get_current_joint().unwrap(), JointCoord::from_j1(9000));
    assert_eq!(bot.beckhoff_get(3).unwrap(), true);
    assert_eq!(bot.wrist_get(4).unwrap(), false);
    assert_eq!(bot.gripper_get().unwrap(), Centi(8525));
    assert_eq!(bot.get_data::<i64>("count").unwrap(), 17);
    assert_eq!(bot.get::<String>(GetTarget::data("note")).unwrap(), "free text");
    assert_eq!(bot.custom(CustomCommand::new().add_float("n", 100)).unwrap(), "raw");
    assert!(matches!(
        bot.io_get(IOTarget::Wrist, 0),
        Err(RobotError::ResponseError(s)) if s == "nonsense"
    ));
    assert_eq!(
        bot.stream.sent,
        vec![
            json(Instruction::get(GetTarget::Transform)),
            json(Instruction::get(GetTarget::JointCoord)),
            json(Instruction::io_get(IOTarget::Beckhoff, 3)),
            json(Instruction::io_get(IOTarget::Wrist, 4)),
            r#"{"op_code":"gripper","action":"get"}"#.to_string(),
            r#"{"op_code":"get","target":"data","key":"count"}"#.to_string(),
            r#"{"op_code":"get","target":"data","key":"note"}"#.to_string(),
            r#"{"op_code":"custom","n":1.00}"#.to_string(),
            json(Instruction::io_get(IOTarget::Wrist, 0)),
        ]
    );
}

#[test]
fn ports_and_gripper_are_told() {
    let mut bot = robot(&["OK", "OK", "OK", "OK", "OK", "OK", "OK"]);
    bot.beckhoff_set(1, true).unwrap();
    bot.wrist_set(2, false).unwrap();
    bot.io_set(IOTarget::Wrist, 3, true).unwrap();
    bot.gripper_activate().unwrap();
    bot.gripper_set("open").unwrap();
    bot.custom_and(CustomCommand::new().add_string("k", "v")).unwrap();
    bot.instruction_assert_ok(Instruction::pop()).unwrap();
    assert_eq!(
        bot.stream.sent,
        vec![
            json(Instruction::io_set(IOTarget::Beckhoff, 1, true)),
            json(Instruction::io_set(IOTarget::Wrist, 2, false)),
            json(Instruction::io_set(IOTarget::Wrist, 3, true)),
            r#"{"op_code":"gripper","action":"activate"}"#.to_string(),
            r#"{"op_code":"gripper","action":"set","label":"open"}"#.to_string(),
            r#"{"op_code":"custom","k":"v"}"#.to_string(),
            r#"{"op_code":"pop"}"#.to_string(),
        ]
    );
}

fn three_commands() -> CommandSequence {
    CommandSequence::new()
        .then_linear(Transform::from_x(100))
        .then_sleep(1000)
        .then_sync()
}

fn three_enqueues() -> Vec<String> {
    vec![
        json(Instruction::enqueue(RobotCommand::linear(Transform::from_x(100)))),
        json(Instruction::enqueue(RobotCommand::Sleep { second: 1000 })),
        json(Instruction::enqueue(RobotCommand::Synchronize)),
    ]
}

#[test]
fn a_sequence_is_enqueued_and_then_dequeued() {
    let mut bot = robot(&["OK", "OK", "OK", "OK"]);
    assert!(bot.sequence(three_commands()).is_ok());
    let mut expected = three_enqueues();
    expected.push(json(Instruction::dequeue()));
    assert_eq!(bot.stream.sent, expected);
}

#[test]
fn an_empty_sequence_is_one_dequeue() {
    let mut bot = robot(&["OK"]);
    assert!(bot.sequence(CommandSequence::new()).is_ok());
    assert_eq!(bot.stream.sent, vec![json(Instruction::dequeue())]);
}

#[test]
fn a_sequence_stops_at_the_first_refusal() {
    let mut bot = robot(&["OK", "queue full", "OK", "OK"]);
    let r = bot.sequence(three_commands());
    assert!(matches!(r, Err(RobotError::ResponseError(s)) if s == "queue full"));
    assert_eq!(bot.stream.sent, three_enqueues()[..2].to_vec());
    assert_eq!(bot.stream.replies.len(), 2);
}

#[test]
fn a_sequence_reports_a_refused_dequeue() {
    let mut bot = robot(&["OK", "OK", "OK", "busy"]);
    let r = bot.sequence(three_commands());
    assert!(matches!(r, Err(RobotError::ResponseError(s)) if s == "busy"));
    assert_eq!(bot.stream.sent.len(), 4);
}

#[test]
fn a_sequence_reports_a_lost_channel() {
    let mut bot = robot(&["OK"]);
    let r = bot.sequence(three_commands());
    assert!(matches!(r, Err(RobotError::SocketError(_))));
    assert_eq!(bot.stream.sent, three_enqueues()[..2].to_vec());
}

#[test]
fn a_sequence_as_a_context_pops_at_the_end() {
    let mut bot = robot(&["OK", "OK", "OK", "OK", "OK"]);
    let guard = bot.with_sequence(three_commands()).ok().unwrap();
    assert!(guard.close().is_ok());
    let mut expected = three_enqueues();
    expected.push(json(Instruction::dequeue_push()));
    expected.push(json(Instruction::pop()));
    assert_eq!(bot.stream.sent, expected);

    let mut bot = robot(&["no"]);
    assert!(matches!(
        bot.with_sequence(three_commands()),
        Err(RobotError::ResponseError(s)) if s == "no"
    ));
    assert_eq!(bot.stream.sent.len(), 1);
}

#[test]
fn command_sequences_are_lists() {
    let cs = CommandSequence::new()
        .then(RobotCommand::joint(MotionTarget::JointCoord(JointCoord::identity())))
        .then_linear_relative(Transform::from_z(-1000))
        .then_set_param(MotionParam::default())
        .then_sleep(10000)
        .then_sync()
        .then_joint(MotionTarget::Transform(Transform::identity()))
        .then_joint_relative(Transform::from_x(1))
        .then_linear(Transform::from_y(2));
    assert_eq!(cs.len(), 8);
    assert!(matches!(cs.get(4), RobotCommand::Synchronize));
    assert!(matches!(cs.get(3), RobotCommand::Sleep { second: 10000 }));
    let commands = cs.clone().into_vec();
    assert_eq!(commands.len(), 8);
    assert_eq!(CommandSequence::from_vec(commands).len(), 8);
    assert_eq!(CommandSequence::new().len(), 0);
}

#[test]
fn contexts_that_the_robot_keeps_push_and_pop() {
    let mut bot = robot(&["OK"; 6]);
    bot.with_execute(RobotCommand::Synchronize).ok().unwrap().close().unwrap();
    bot.with_sleep(1).ok().unwrap().close().unwrap();
    bot.with_dequeue().ok().unwrap().close().unwrap();
    let pop = json(Instruction::pop());
    let push = |c: RobotCommand| json(Instruction::exec_push(c));
    assert_eq!(
        bot.stream.sent,
        vec![
            push(RobotCommand::Synchronize),
            pop.clone(),
            push(RobotCommand::Sleep { second: 1 }),
            pop.clone(),
            json(Instruction::dequeue_push()),
            pop.clone(),
        ]
    );
}

const STOOD: &str = "{x: 0.1, y: 0.2, z: 0.3, rx: 0, ry: 0, rz: 1.5708}";

fn stood() -> MotionTarget {
    MotionTarget::Transform(Transform::new(10000, 20000, 30000, 0, 0, 9000))
}

#[test]
fn a_guarded_motion_goes_back_to_where_the_robot_stood() {
    let t = Transform::from_x(500);
    let target = MotionTarget::Transform(t);
    let mut bot = robot(&[STOOD, "OK", "OK", STOOD, "OK", "OK", STOOD, "OK", "OK"]);
    let guard = bot.with_motion(MotionMode::Linear, t).ok().unwrap();
    assert_eq!(guard.context.restore, Some(stood()));
    guard.close().unwrap();
    bot.with_linear(t).ok().unwrap().close().unwrap();
    bot.with_joint(target).ok().unwrap().close().unwrap();
    let ask = json(Instruction::get(GetTarget::Transform));
    assert_eq!(
        bot.stream.sent,
        vec![
            ask.clone(),
            motion(MotionMode::Linear, target),
            motion(MotionMode::Linear, stood()),
            ask.clone(),
            motion(MotionMode::Linear, target),
            motion(MotionMode::Linear, stood()),
            ask.clone(),
            motion(MotionMode::Joint, target),
            motion(MotionMode::Joint, stood()),
        ]
    );
}

#[test]
fn a_guarded_motion_to_joint_coordinates_asks_for_the_joints() {
    let target = MotionTarget::JointCoord(JointCoord::from_j2(4500));
    let mut bot = robot(&["{j1: 0.01745}", "OK", "OK"]);
    bot.with_joint(target).ok().unwrap().close().unwrap();
    assert_eq!(
        bot.stream.sent,
        vec![
            json(Instruction::get(GetTarget::JointCoord)),
            motion(MotionMode::Joint, target),
            motion(MotionMode::Joint, MotionTarget::JointCoord(JointCoord::from_j1(100))),
        ]
    );
}

#[test]
fn a_guarded_relative_motion_is_undone_by_the_opposite_delta() {
    let t = Transform::from_z(-1000);
    let there = MotionTarget::Transform(t);
    let back = MotionTarget::Transform(Transform::from_z(1000));
    let mut bot = robot(&["OK"; 4]);
    bot.with_linear_relative(t).ok().unwrap().close().unwrap();
    bot.with_joint_relative(t).ok().unwrap().close().unwrap();
    assert_eq!(
        bot.stream.sent,
        vec![
            motion(MotionMode::LinearRelative, there),
            motion(MotionMode::LinearRelative, back),
            motion(MotionMode::JointRelative, there),
            motion(MotionMode::JointRelative, back),
        ]
    );
}

#[test]
fn guarded_parameters_are_put_back() {
    let a = MotionParam::new().set_speed(1000);
    let b = MotionParam::new().set_speed(9000).set_blend_linear(500);
    let mut bot = robot(&["OK"; 4]);
    let outer = bot.with_set_param(a).ok().unwrap();
    let inner = outer.guard.with_set_param(b).ok().unwrap();
    assert_eq!(inner.guard.params.len(), 3);
    inner.close().unwrap();
    outer.close().unwrap();
    assert_eq!(bot.stream.sent, vec![set(a), set(b), set(a), set(MotionParam::new())]);
    assert_eq!(bot.params.len(), 1);
}

#[test]
fn parameters_are_put_back_whatever_was_entered_in_between() {
    let a = MotionParam::new().set_accel(2500);
    let there = Transform::from_x(100);
    let mut bot = robot(&["OK"; 6]);
    let outer = bot.with_set_param(a).ok().unwrap();
    let moved = outer.guard.with_linear_relative(there).ok().unwrap();
    let slept = moved.guard.with_sleep(5).ok().unwrap();
    assert_eq!(slept.guard.params.len(), 2);
    slept.close().unwrap();
    moved.close().unwrap();
    outer.close().unwrap();
    assert_eq!(
        bot.stream.sent,
        vec![
            set(a),
            motion(MotionMode::LinearRelative, MotionTarget::Transform(there)),
            json(Instruction::exec_push(RobotCommand::Sleep { second: 5 })),
            json(Instruction::pop()),
            motion(MotionMode::LinearRelative, MotionTarget::Transform(Transform::from_x(-100))),
            set(MotionParam::new()),
        ]
    );
    assert_eq!(bot.params.len(), 1);
}

#[test]
fn guards_nest_and_close_inside_out() {
    let mut bot = robot(&[STOOD, "OK", "OK", "OK", "stuck"]);
    let outer = bot.with_linear(Transform::from_x(100)).ok().unwrap();
    let inner = outer.guard.with_linear_relative(Transform::from_z(100)).ok().unwrap();
    assert!(inner.close().is_ok());
    let closed = outer.close();
    assert!(matches!(closed, Err(RobotError::ResponseError(s)) if s == "stuck"));
    assert_eq!(bot.stream.sent.len(), 5);
    assert_eq!(
        bot.stream.sent[3],
        motion(MotionMode::LinearRelative, MotionTarget::Transform(Transform::from_z(-100)))
    );
    assert_eq!(bot.stream.sent[4], motion(MotionMode::Linear, stood()));
}

#[test]
fn a_refused_context_has_no_guard() {
    let mut bot = robot(&[STOOD, "no"]);
    assert!(matches!(
        bot.with_linear(Transform::identity()),
        Err(RobotError::ResponseError(s)) if s == "no"
    ));
    assert_eq!(bot.stream.sent.len(), 2);
    let mut bot = robot(&["not a pose"]);
    assert!(matches!(
        bot.with_linear(Transform::identity()),
        Err(RobotError::ResponseError(s)) if s == "not a pose"
    ));
    assert_eq!(bot.stream.sent.len(), 1);
    let mut bot = robot(&["no"]);
    assert!(matches!(
        bot.with_set_param(MotionParam::new()),
        Err(RobotError::ResponseError(s)) if s == "no"
    ));
    assert!(bot.params.is_empty());
}

#[test]
fn an_absolute_motion_goes_back_to_where_the_robot_stood() {
    let stood = Transform::new(10000, 20000, 30000, 0, 0, 9000);
    let target = Transform::new(500, 0, 0, 0, 0, 0);
    let mut bot = robot(&["{x: 0.1, y: 0.2, z: 0.3, rx: 0, ry: 0, rz: 1.5708}", "OK", "OK"]);
    let mut context = MotionContext::new(MotionMode::Linear, MotionTarget::Transform(target));
    assert!(context.context_enter(&mut bot).is_ok());
    assert_eq!(
        bot.stream.sent,
        vec![
            json(Instruction::get(GetTarget::Transform)),
            motion(MotionMode::Linear, MotionTarget::Transform(target)),
        ]
    );
    assert_eq!(context.restore, Some(MotionTarget::Transform(stood)));
    assert!(context.context_drop(&mut bot).is_ok());
    assert_eq!(bot.stream.sent[2], motion(MotionMode::Linear, MotionTarget::Transform(stood)));
    assert_eq!(bot.stream.sent.len(), 3);
}

#[test]
fn an_absolute_joint_motion_asks_for_the_kind_of_its_target() {
    let mut bot = robot(&["{j1: 0.01745}", "OK", "OK"]);
    let target = MotionTarget::JointCoord(JointCoord::from_j2(4500));
    let guard = ContextGuard::new(&mut bot, MotionContext::new(MotionMode::Joint, target));
    assert!(guard.ok().unwrap().close().is_ok());
    assert_eq!(
        bot.stream.sent,
        vec![
            json(Instruction::get(GetTarget::JointCoord)),
            motion(MotionMode::Joint, target),
            motion(MotionMode::Joint, MotionTarget::JointCoord(JointCoord::from_j1(100))),
        ]
    );
}

#[test]
fn an_absolute_motion_is_not_made_without_knowing_the_way_back() {
    let target = MotionTarget::Transform(Transform::identity());
    let mut bot = robot(&["no pose", "OK"]);
    let mut context = MotionContext::new(MotionMode::Linear, target);
    let r = context.context_enter(&mut bot);
    assert!(matches!(r, Err(RobotError::ResponseError(s)) if s == "no pose"));
    assert_eq!(bot.stream.sent, vec![json(Instruction::get(GetTarget::Transform))]);
    assert_eq!(context.restore, None);

    let mut bot = robot(&["{}", "refused"]);
    let mut context = MotionContext::new(MotionMode::Linear, target);
    let r = context.context_enter(&mut bot);
    assert!(matches!(r, Err(RobotError::ResponseError(s)) if s == "refused"));
    assert_eq!(bot.stream.sent.len(), 2);
    assert_eq!(context.restore, None);
}

#[test]
fn a_relative_motion_is_undone_by_the_opposite_delta() {
    let delta = MotionTarget::Transform(Transform::from_z(-1000));
    let back = MotionTarget::Transform(Transform::from_z(1000));
    let mut bot = robot(&["OK", "OK"]);
    let mut context = MotionContext::new(MotionMode::LinearRelative, delta);
    assert!(context.context_enter(&mut bot).is_ok());
    assert_eq!(context.restore, Some(back));
    assert!(context.context_drop(&mut bot).is_ok());
    assert_eq!(
        bot.stream.sent,
        vec![motion(MotionMode::LinearRelative, delta), motion(MotionMode::LinearRelative, back)]
    );
}

#[test]
fn a_relative_motion_can_be_given_its_way_back() {
    let delta = MotionTarget::Transform(Transform::new(100, 0, 0, 0, 0, 9000));
    let back = MotionTarget::Transform(Transform::new(0, 100, 0, 0, 0, -9000));
    let mut bot = robot(&["OK", "OK"]);
    let mut context = MotionContext::new(MotionMode::JointRelative, delta).with_restore(back);
    assert!(context.context_enter(&mut bot).is_ok());
    assert!(context.context_drop(&mut bot).is_ok());
    assert_eq!(
        bot.stream.sent,
        vec![motion(MotionMode::JointRelative, delta), motion(MotionMode::JointRelative, back)]
    );
}

#[test]
fn a_context_never_entered_leaves_nothing_to_undo() {
    let mut bot = robot(&[]);
    let mut context =
        MotionContext::new(MotionMode::Linear, MotionTarget::Transform(Transform::identity()));
    assert!(context.context_drop(&mut bot).is_ok());
    assert!(bot.stream.sent.is_empty());
}

fn set(p: MotionParam) -> String {
    exec(RobotCommand::SetParameter(p))
}

#[test]
fn parameters_stack() {
    let a = MotionParam::new().set_speed(1000);
    let b = MotionParam::new().set_speed(9000).set_blend_linear(500);
    let mut machine: ContextMachine<Robot<Script>, RobotContext> =
        ContextMachine::new(robot(&["OK", "OK", "OK", "OK"]));
    assert!(machine.enter(RobotContext::Param(ParamContext::new(a))).is_ok());
    assert_eq!(machine.machine.params.len(), 2);
    assert!(machine.enter(RobotContext::Param(ParamContext::new(b))).is_ok());
    assert_eq!(machine.machine.params.len(), 3);
    assert_eq!(machine.depth(), 2);
    assert!(machine.exit().is_ok());
    assert!(machine.exit().is_ok());
    assert_eq!(machine.depth(), 0);
    assert_eq!(machine.machine.params.len(), 1);
    assert_eq!(
        machine.machine.stream.sent,
        vec![set(a), set(b), set(a), set(MotionParam::new())]
    );
}

#[test]
fn parameters_fall_back_to_the_default_of_the_robot() {
    let usual = MotionParam::new().set_speed(5000).set_accel(5000);
    let fast = MotionParam::new().set_speed(10000);
    let mut bot = robot(&["OK", "OK", "OK", "OK"]);
    bot.set_default_param(usual);
    let mut context = ParamContext::new(fast);
    assert!(context.context_enter(&mut bot).is_ok());
    assert!(context.context_drop(&mut bot).is_ok());
    assert!(context.context_enter(&mut bot).is_ok());
    assert!(context.context_drop(&mut bot).is_ok());
    assert_eq!(bot.stream.sent, vec![set(fast), set(usual), set(fast), set(usual)]);
}

#[test]
fn parameters_refused_are_not_put_aside() {
    let mut bot = robot(&["no", "OK", "no"]);
    let mut context = ParamContext::new(MotionParam::new().set_speed(100));
    let r = context.context_enter(&mut bot);
    assert!(matches!(r, Err(RobotError::ResponseError(s)) if s == "no"));
    assert!(bot.params.is_empty());
    assert!(context.context_enter(&mut bot).is_ok());
    assert_eq!(bot.params.len(), 2);
    assert!(context.context_drop(&mut bot).is_err());
    assert_eq!(bot.params.len(), 1);
}

#[test]
fn parameters_do_not_care_for_other_contexts() {
    let a = MotionParam::new().set_accel(2000);
    let delta = MotionTarget::JointCoord(JointCoord::from_j6(100));
    let mut machine: ContextMachine<Robot<Script>, RobotContext> =
        ContextMachine::new(robot(&["OK"; 6]));
    let entered = [
        RobotContext::Param(ParamContext::new(a)),
        RobotContext::Motion(MotionContext::new(MotionMode::JointRelative, delta)),
        RobotContext::Remote(IvaContext),
    ];
    for context in entered {
        assert!(machine.enter(context).is_ok());
    }
    assert_eq!(machine.depth(), 3);
    assert!(machine.exit().is_ok());
    assert!(machine.exit().is_ok());
    assert!(machine.exit().is_ok());
    assert_eq!(
        machine.machine.stream.sent,
        vec![
            set(a),
            motion(MotionMode::JointRelative, delta),
            json(Instruction::pop()),
            motion(MotionMode::JointRelative, delta.negate()),
            set(MotionParam::new()),
        ]
    );
}

#[test]
fn contexts_are_left_last_in_first_out() {
    let a = MotionTarget::Transform(Transform::from_x(100));
    let b = MotionTarget::Transform(Transform::from_y(200));
    let mut machine: ContextMachine<Robot<Script>, MotionContext> =
        ContextMachine::new(robot(&["OK", "OK", "OK", "OK"]));
    assert!(machine.enter(MotionContext::new(MotionMode::LinearRelative, a)).is_ok());
    assert!(machine.enter(MotionContext::new(MotionMode::LinearRelative, b)).is_ok());
    assert!(machine.exit().is_ok());
    assert_eq!(machine.depth(), 1);
    assert!(machine.exit().is_ok());
    assert_eq!(
        machine.machine.stream.sent,
        vec![
            motion(MotionMode::LinearRelative, a),
            motion(MotionMode::LinearRelative, b),
            motion(MotionMode::LinearRelative, b.negate()),
            motion(MotionMode::LinearRelative, a.negate()),
        ]
    );
}

#[test]
fn leaving_with_nothing_entered_is_an_error() {
    let mut machine: ContextMachine<Robot<Script>, MotionContext> =
        ContextMachine::new(robot(&[]));
    assert!(matches!(machine.exit(), Err(ContextStackError::NoContextToExit)));
    assert!(matches!(machine.exit(), Err(ContextStackError::NoContextToExit)));
    assert!(machine.machine.stream.sent.is_empty());
    assert_eq!(machine.depth(), 0);
}

#[test]
fn a_context_that_fails_to_enter_is_not_on_the_stack() {
    let delta = MotionTarget::Transform(Transform::from_x(100));
    let mut machine: ContextMachine<Robot<Script>, MotionContext> =
        ContextMachine::new(robot(&["collision"]));
    let r = machine.enter(MotionContext::new(MotionMode::LinearRelative, delta));
    assert!(matches!(r, Err(RobotError::ResponseError(s)) if s == "collision"));
    assert_eq!(machine.depth(), 0);
    assert!(matches!(machine.exit(), Err(ContextStackError::NoContextToExit)));
}

#[test]
fn a_context_that_fails_to_leave_is_off_the_stack() {
    let delta = MotionTarget::Transform(Transform::from_x(100));
    let mut machine: ContextMachine<Robot<Script>, MotionContext> =
        ContextMachine::new(robot(&["OK", "stuck"]));
    assert!(machine.enter(MotionContext::new(MotionMode::LinearRelative, delta)).is_ok());
    let r = machine.exit();
    assert!(matches!(
        r,
        Err(ContextStackError::Failed(RobotError::ResponseError(s))) if s == "stuck"
    ));
    assert_eq!(machine.depth(), 0);
    assert!(matches!(machine.exit(), Err(ContextStackError::NoContextToExit)));
}

#[test]
fn a_scope_leaves_what_it_entered() {
    let a = MotionTarget::Transform(Transform::from_x(100));
    let b = MotionTarget::Transform(Transform::from_y(200));
    let mut machine: ContextMachine<Robot<Script>, MotionContext> =
        ContextMachine::new(robot(&["OK", "OK", "OK", "OK"]));
    let outer = machine.scoped(MotionContext::new(MotionMode::LinearRelative, a)).ok().unwrap();
    assert_eq!(outer.machine.depth(), 1);
    let inner = outer
        .machine
        .scoped(MotionContext::new(MotionMode::LinearRelative, b))
        .ok()
        .unwrap();
    assert_eq!(inner.machine.depth(), 2);
    assert!(inner.close().is_ok());
    assert_eq!(outer.machine.depth(), 1);
    assert!(outer.close().is_ok());
    assert_eq!(machine.depth(), 0);
    assert_eq!(
        machine.machine.stream.sent[2..].to_vec(),
        vec![
            motion(MotionMode::LinearRelative, b.negate()),
            motion(MotionMode::LinearRelative, a.negate()),
        ]
    );
}

#[test]
fn contexts_have_labels() {
    let m = MotionContext::new(MotionMode::Linear, MotionTarget::Transform(Transform::identity()));
    let p = ParamContext::new(MotionParam::new());
    assert_eq!(<MotionContext as Context<Robot<Script>>>::label(&m), "motion");
    assert_eq!(<ParamContext as Context<Robot<Script>>>::label(&p), "param");
    assert_eq!(<IvaContext as Context<Robot<Script>>>::label(&IvaContext), "iva");
    assert_eq!(<RobotContext as Context<Robot<Script>>>::label(&RobotContext::Param(p)), "param");
}

#[test]
fn a_robot_has_a_logger() {
    let mut bot = Robot::new(Script::new(&[]), Logger::default_target("arm"));
    assert_eq!(bot.get_logger().targets.len(), 2);
    assert_eq!(Logable::info(&mut bot, "ready").len(), 2);
    assert_eq!(Logable::debug(&mut bot, "ready").len(), 1);
    assert_eq!(Logable::trace(&mut bot, "ready").len(), 0);
    assert_eq!(Logable::warn(&mut bot, "ready").len(), 2);
    assert_eq!(Logable::error(&mut bot, "ready").len(), 2);
    assert_eq!(Logable::log(&mut bot, "ready", inovo_rs::logger::LogLevel::Off).len(), 2);
}

/// A robot of another make: it answers every instruction the same way and
/// counts them.
struct Echo {
    answer: &'static str,
    told: Vec<String>,
}

impl IvaRobot for Echo {
    fn instruction(&mut self, inst: Instruction) -> Result<String, RobotError> {
        self.told.push(inst.to_json().unwrap());
        Ok(self.answer.to_string())
    }
}

#[test]
fn any_robot_that_makes_round_trips_can_be_told() {
    let mut echo = Echo { answer: "OK", told: vec![] };
    echo.sleep(1).unwrap().dequeue().unwrap();
    assert!(echo.sequence(three_commands()).is_ok());
    let guard = echo.with_sleep(2).ok().unwrap();
    assert!(guard.close().is_ok());
    let guard = echo.with_linear_relative(Transform::from_x(1)).ok().unwrap();
    assert!(guard.close().is_ok());
    assert_eq!(echo.told.len(), 10);
    let mut deaf = Echo { answer: "?", told: vec![] };
    assert!(deaf.sequence(three_commands()).is_err());
    assert_eq!(deaf.told, three_enqueues()[..1].to_vec());
}

/// A machine that keeps a diary, and a context that writes into it.
struct Diary {
    lines: Vec<String>,
}

struct Chapter {
    name: &'static str,
    fails: bool,
}

impl Context<Diary> for Chapter {
    type Error = String;

    fn context_enter(&mut self, machine: &mut Diary) -> Result<(), String> {
        if self.fails {
            return Err(format!("cannot open {}", self.name));
        }
        machine.lines.push(format!("open {}", self.name));
        Ok(())
    }

    fn context_drop(&mut self, machine: &mut Diary) -> Result<(), String> {
        machine.lines.push(format!("close {}", self.name));
        Ok(())
    }

    fn label(&self) -> String {
        self.name.to_string()
    }
}

#[test]
fn a_guard_enters_at_once_and_leaves_when_closed() {
    let mut diary = Diary { lines: vec![] };
    let one = ContextGuard::new(&mut diary, Chapter { name: "1", fails: false }).ok().unwrap();
    one.guard.lines.push("text".to_string());
    let two = ContextGuard::new(&mut *one.guard, Chapter { name: "2", fails: false })
        .ok()
        .unwrap();
    assert_eq!(two.context.label(), "2");
    two.close().unwrap();
    one.close().unwrap();
    assert_eq!(diary.lines, vec!["open 1", "text", "open 2", "close 2", "close 1"]);
    let failed = ContextGuard::new(&mut diary, Chapter { name: "3", fails: true });
    assert_eq!(failed.err(), Some("cannot open 3".to_string()));
    assert_eq!(diary.lines.len(), 5);
}

#[test]
fn any_context_can_be_stacked() {
    let mut machine = ContextMachine::new(Diary { lines: vec![] });
    machine.enter(Chapter { name: "a", fails: false }).unwrap();
    assert_eq!(machine.enter(Chapter { name: "x", fails: true }), Err("cannot open x".to_string()));
    machine.enter(Chapter { name: "b", fails: false }).unwrap();
    assert_eq!(machine.depth(), 2);
    machine.exit().ok().unwrap();
    machine.exit().ok().unwrap();
    assert!(matches!(machine.exit(), Err(ContextStackError::NoContextToExit)));
    assert_eq!(machine.machine.lines, vec!["open a", "open b", "close b", "close a"]);
}
