use inovo_rs::geometry::{JointCoord, Transform};
use inovo_rs::iva::{
    comes_before, join_object, quote, render_fields, CustomCommand, Field, GetTarget,
    GripperCommand, IOTarget, Instruction, MotionMode, MotionTarget, RobotCommand, Value,
};
use inovo_rs::logger::Logger;
use inovo_rs::robot::MotionParam;

fn centi(x: f64) -> i64 {
    (x * 100.0).round() as i64
}

fn milli(x: f64) -> i64 {
    (x * 1000.0).round() as i64
}

fn json(inst: Instruction) -> String {
    inst.to_json().unwrap()
}

#[test]
pub fn iva_test() {
    let mut logger = Logger::default_target("IVA test");

    let cmds = vec![
        RobotCommand::Synchronize,
        RobotCommand::Sleep { second: milli(1.0) },
        RobotCommand::SetParameter(MotionParam::new().set_speed(centi(50.0))),
        RobotCommand::Motion {
            motion_mode: MotionMode::Linear,
            target: MotionTarget::Transform(Transform::identity()),
        },
        RobotCommand::Motion {
            motion_mode: MotionMode::JointRelative,
            target: MotionTarget::JointCoord(JointCoord::from_j1(centi(180.0))),
        },
    ];

    let mut insts = vec![];

    for robot_command in cmds.clone().into_iter() {
        let res = Instruction::exec(robot_command);
        insts.push(res);
    }
    for robot_command in cmds.clone().into_iter() {
        let res = Instruction::enqueue(robot_command);
        insts.push(res);
    }

    insts.push(Instruction::dequeue());
    insts.push(Instruction::dequeue_push());
    insts.push(Instruction::pop());

    insts.push(Instruction::gripper(GripperCommand::Activate));
    insts.push(Instruction::gripper(GripperCommand::Get));
    insts.push(Instruction::gripper(GripperCommand::SetTo {
        label: "open".to_string(),
    }));

    insts.push(Instruction::io_get(IOTarget::Beckhoff, 0));
    insts.push(Instruction::io_get(IOTarget::Wrist, 1));
    insts.push(Instruction::io_set(IOTarget::Beckhoff, 0, true));
    insts.push(Instruction::io_set(IOTarget::Wrist, 2, false));

    insts.push(Instruction::get(GetTarget::Transform));
    insts.push(Instruction::get(GetTarget::JointCoord));
    insts.push(Instruction::get(GetTarget::data("some key")));

    let custom_command = CustomCommand::new()
        .add_float("value", centi(12.0))
        .add_string("action", "add_limit");

    insts.push(Instruction::custom(custom_command));

    for inst in insts {
        match inst.to_json() {
            Ok(json) => logger.info(&format!(
                "{}",
                json.split("\n")
                    .map(|s| format!("{}{}", " ".repeat(0), s))
                    .collect::<Vec<_>>()
                    .join("\n")
            )),
            Err(e) => logger.error(&e.to_string()),
        };
    }
}

#[test]
fn commands_are_written_as_flat_objects() {
    assert_eq!(
        &json(Instruction::exec(RobotCommand::Synchronize)),
        r#"{"op_code":"execute","action":"synchronize","enter_context":0.0}"#
    );
    assert_eq!(
        &json(Instruction::exec_push(RobotCommand::sleep(milli(1.0)))),
        r#"{"op_code":"execute","action":"sleep","second":1.000,"enter_context":1.0}"#
    );
    assert_eq!(
        &json(Instruction::enqueue(RobotCommand::sleep(-1500))),
        r#"{"op_code":"enqueue","action":"sleep","second":-1.500}"#
    );
    assert_eq!(
        &json(Instruction::exec(RobotCommand::set_parameter(
            MotionParam::new().set_speed(centi(50.0))
        ))),
r#"{"op_code":"execute","action":"set_parameter","speed":0.50000,"enter_context":0.0}"#
    );
}

#[test]
fn motions_are_written_with_two_places() {
    assert_eq!(
        &json(Instruction::exec(RobotCommand::linear(Transform::new(
            centi(100.0),
            centi(-0.5),
            0,
            centi(90.0),
            1,
            -1
        )))),
        &[
            r#"{"op_code":"execute","action":"motion","motion_mode":"linear","#,
            r#""target":"transform","x":100.00,"y":-0.50,"z":0.00,"rx":90.00,"ry":0.01,"#,
            r#""rz":-0.01,"enter_context":0.0}"#,
        ]
        .concat()
    );
    assert_eq!(
        &json(Instruction::enqueue(RobotCommand::Motion {
            motion_mode: MotionMode::JointRelative,
            target: MotionTarget::JointCoord(JointCoord::from_j1(centi(180.0))),
        })),
        &[
            r#"{"op_code":"enqueue","action":"motion","motion_mode":"joint_relative","#,
            r#""target":"joint_coord","j1":180.00,"j2":0.00,"j3":0.00,"j4":0.00,"j5":0.00,"#,
            r#""j6":0.00}"#,
        ]
        .concat()
    );
    assert_eq!(
        &json(Instruction::enqueue(RobotCommand::linear_relative(Transform::from_z(-1000)))),
        &[
            r#"{"op_code":"enqueue","action":"motion","motion_mode":"linear_relative","#,
            r#""target":"transform","x":0.00,"y":0.00,"z":-10.00,"rx":0.00,"ry":0.00,"rz":0.00}"#,
        ]
        .concat()
    );
    assert_eq!(
        &json(Instruction::enqueue(RobotCommand::joint(MotionTarget::Transform(
            Transform::identity()
        )))),
        &[
            r#"{"op_code":"enqueue","action":"motion","motion_mode":"joint","#,
            r#""target":"transform","x":0.00,"y":0.00,"z":0.00,"rx":0.00,"ry":0.00,"rz":0.00}"#,
        ]
        .concat()
    );
    assert_eq!(
        &json(Instruction::enqueue(RobotCommand::joint_relative(Transform::from_rx(1)))),
        &[
            r#"{"op_code":"enqueue","action":"motion","motion_mode":"joint_relative","#,
            r#""target":"transform","x":0.00,"y":0.00,"z":0.00,"rx":0.01,"ry":0.00,"rz":0.00}"#,
        ]
        .concat()
    );
}

#[test]
fn the_other_instructions_are_written() {
    assert_eq!(json(Instruction::dequeue()), r#"{"op_code":"dequeue","enter_context":0.0}"#);
    assert_eq!(
        &json(Instruction::dequeue_push()),
        r#"{"op_code":"dequeue","enter_context":1.0}"#
    );
    assert_eq!(json(Instruction::pop()), r#"{"op_code":"pop"}"#);
    assert_eq!(
        &json(Instruction::gripper(GripperCommand::Activate)),
        r#"{"op_code":"gripper","action":"activate"}"#
    );
    assert_eq!(
        &json(Instruction::gripper(GripperCommand::Get)),
        r#"{"op_code":"gripper","action":"get"}"#
    );
    assert_eq!(
        &json(Instruction::gripper(GripperCommand::SetTo { label: "open".to_string() })),
        r#"{"op_code":"gripper","action":"set","label":"open"}"#
    );
    assert_eq!(
        &json(Instruction::io_get(IOTarget::Beckhoff, 0)),
        r#"{"op_code":"io","target":"beckhoff","port":0,"action":"get"}"#
    );
    assert_eq!(
        &json(Instruction::io_set(IOTarget::Wrist, 2, false)),
        r#"{"op_code":"io","target":"wrist","port":2,"action":"set","state":0.0}"#
    );
    assert_eq!(
        &json(Instruction::io_set(IOTarget::Beckhoff, 65535, true)),
        r#"{"op_code":"io","target":"beckhoff","port":65535,"action":"set","state":1.0}"#
    );
    assert_eq!(
        &json(Instruction::get(GetTarget::Transform)),
        r#"{"op_code":"get","target":"transform"}"#
    );
    assert_eq!(
        &json(Instruction::get(GetTarget::JointCoord)),
        r#"{"op_code":"get","target":"joint_coord"}"#
    );
    assert_eq!(
        &json(Instruction::get(GetTarget::data("some key"))),
        r#"{"op_code":"get","target":"data","key":"some key"}"#
    );
}

#[test]
fn texts_are_quoted_as_json() {
    assert_eq!(
        &json(Instruction::get(GetTarget::data("say \"hi\"\n"))),
        r#"{"op_code":"get","target":"data","key":"say \"hi\"\n"}"#
    );
    assert_eq!(
        &json(Instruction::gripper(GripperCommand::SetTo { label: "a\\b".to_string() })),
        r#"{"op_code":"gripper","action":"set","label":"a\\b"}"#
    );
}

#[test]
fn a_custom_command_keeps_one_value_under_a_key() {
    let command = CustomCommand::new()
        .add_float("value", centi(12.0))
        .add_string("action", "add_limit");
    assert_eq!(
        &json(Instruction::custom(command.clone())),
        r#"{"op_code":"custom","action":"add_limit","value":12.00}"#
    );
    let again = command.add_string("value", "none").add_float("more", -5);
    assert_eq!(
        &json(Instruction::custom(again)),
        r#"{"op_code":"custom","action":"add_limit","more":-0.05,"value":"none"}"#
    );
    assert_eq!(json(Instruction::custom(CustomCommand::new())), r#"{"op_code":"custom"}"#);
}

#[test]
fn the_keys_of_a_custom_command_stand_in_order() {
    let command = CustomCommand::new()
        .add_float("b", 1)
        .add_float("a", 2)
        .add_float("ab", 3)
        .add_float("", 4)
        .add_float("B", 5)
        .add_float("\u{e9}", 6)
        .add_float("z", 7)
        .add_float("a", 8);
    assert_eq!(
        &json(Instruction::custom(command)),
        "{\"op_code\":\"custom\",\"\":0.04,\"B\":0.05,\"a\":0.08,\"ab\":0.03,\"b\":0.01,\
         \"z\":0.07,\"\u{e9}\":0.06}"
    );
}

#[test]
fn texts_are_ordered_as_strings_are() {
    let texts = ["", "a", "B", "ab", "b", "abc", "z", "\u{e9}", "\u{10348}", "\u{ffff}", "a b"];
    for a in texts {
        for b in texts {
            assert_eq!(comes_before(a, b), a < b, "{:?} before {:?}", a, b);
        }
    }
}

#[test]
fn every_message_is_json() {
    let value: serde_json::Value = serde_json::from_str(&json(Instruction::exec(
        RobotCommand::linear(Transform::new(1, 2, 3, 4, 5, 6)),
    )))
    .unwrap();
    assert_eq!(value["op_code"], "execute");
    assert_eq!(value["motion_mode"], "linear");
    assert_eq!(value["rz"].as_f64(), Some(0.06));
    assert_eq!(value["enter_context"].as_f64(), Some(0.0));
}

#[test]
fn an_object_is_its_members_between_braces() {
    assert_eq!(join_object(&vec![]), "{}");
    assert_eq!(join_object(&vec!["a".to_string()]), "{a}");
    assert_eq!(join_object(&vec!["a".to_string(), "b".to_string(), "c".to_string()]), "{a,b,c}");
}

#[test]
fn modes_know_whether_they_are_relative() {
    assert!(!MotionMode::Linear.is_relative());
    assert!(MotionMode::LinearRelative.is_relative());
    assert!(!MotionMode::Joint.is_relative());
    assert!(MotionMode::JointRelative.is_relative());
    assert_eq!(MotionMode::Joint.name(), "joint");
    assert_eq!(IOTarget::Wrist.name(), "wrist");
    assert_eq!(RobotCommand::synchorize().fields().len(), 1);
}

#[test]
fn quoting_is_that_of_json() {
    for code in 0u32..=0x7f {
        let text = char::from_u32(code).unwrap().to_string();
        assert_eq!(quote(&text), serde_json::to_string(&text).unwrap());
    }
    let samples = [
        "",
        "plain",
        "say \"hi\"",
        "back\\slash",
        "line\nfeed\r\n\ttab",
        "\u{0}\u{1}\u{1f}\u{7f}",
        "gr\u{fc}\u{df}e \u{4e16}\u{754c} \u{1f916}",
        "{\"key\": [1, 2]}",
    ];
    for text in samples {
        assert_eq!(quote(text), serde_json::to_string(text).unwrap());
    }
    assert_eq!(quote("a\u{8}b\u{c}c"), "\"a\\bb\\fc\"");
    assert_eq!(quote("\u{1b}"), "\"\\u001b\"");
}

#[test]
fn a_member_is_a_key_and_a_value() {
    let text = Field { key: "k\"".to_string(), value: Value::Text("v\n".to_string()) };
    assert_eq!(text.render(), "\"k\\\"\":\"v\\n\"");
    let number = Field { key: "n".to_string(), value: Value::Number { value: -150, decimals: 2 } };
    assert_eq!(number.render(), "\"n\":-1.50");
    assert_eq!(render_fields(&vec![text, number]), "{\"k\\\"\":\"v\\n\",\"n\":-1.50}");
    assert_eq!(render_fields(&vec![]), "{}");
}

#[test]
fn parameters_not_set_are_not_written() {
    assert_eq!(
        json(Instruction::enqueue(RobotCommand::set_parameter(MotionParam::new()))),
        r#"{"op_code":"enqueue","action":"set_parameter"}"#
    );
    let all = MotionParam::new()
        .set_speed(10000)
        .set_accel(100)
        .set_blend_linear(100)
        .set_blend_angular(18000)
        .set_tcp_speed_linear(100000)
        .set_tcp_speed_angular(72000);
    assert_eq!(
        json(Instruction::enqueue(RobotCommand::set_parameter(all))),
        [
            r#"{"op_code":"enqueue","action":"set_parameter","speed":1.00000,"accel":0.01000,"#,
            r#""blend_linear":0.00100,"blend_angular":3.14159,"tcp_speed_linear":1.00000,"#,
            r#""tcp_speed_angular":12.56637}"#,
        ]
        .concat()
    );
}
