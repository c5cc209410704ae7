use inovo_rs::geometry::{JointCoord, Transform};
use inovo_rs::iva::MotionTarget;
use inovo_rs::robot::{
    decode_pose, decode_scalar, decode_slots, Centi, FromRobot, PoseKind, Scalar,
};

#[test]
fn booleans_are_two_tokens() {
    assert_eq!(bool::from_robot("True".to_string()), Ok(true));
    assert_eq!(bool::from_robot("False".to_string()), Ok(false));
    assert_eq!(bool::from_robot("true".to_string()), Err("true".to_string()));
    assert_eq!(bool::from_robot("1".to_string()), Err("1".to_string()));
    assert_eq!(bool::from_robot("".to_string()), Err("".to_string()));
    assert_eq!(bool::from_robot("True ".to_string()), Err("True ".to_string()));
}

#[test]
fn numbers_are_decimals() {
    assert_eq!(Centi::from_robot("3.5".to_string()), Ok(Centi(350)));
    assert_eq!(Centi::from_robot("-85".to_string()), Ok(Centi(-8500)));
    assert_eq!(Centi::from_robot("three".to_string()), Err("three".to_string()));
    assert_eq!(i64::from_robot("42".to_string()), Ok(42));
    assert_eq!(i64::from_robot("-7".to_string()), Ok(-7));
    assert_eq!(i64::from_robot("3.5".to_string()), Err("3.5".to_string()));
    assert_eq!(i64::from_robot("OK".to_string()), Err("OK".to_string()));
}

#[test]
fn a_text_is_taken_as_it_is() {
    assert_eq!(String::from_robot("any thing".to_string()), Ok("any thing".to_string()));
    assert_eq!(String::from_robot("".to_string()), Ok("".to_string()));
}

#[test]
fn a_pose_is_read_in_metres_and_radians() {
    let raw = "{x: 0.1, y: 0.2, z: -0.3, rx: 3.14159, ry: 0, rz: 1.5708}";
    assert_eq!(
        Transform::from_robot(raw.to_string()),
        Ok(Transform::new(10000, 20000, -30000, 18000, 0, 9000))
    );
    assert_eq!(
        decode_slots(PoseKind::Cartesian, raw),
        Some(vec![10000, 20000, -30000, 18000, 0, 9000])
    );
}

#[test]
fn joints_are_read_in_radians() {
    let raw = "{j1: 3.14159, j2: -1.5708, j3: 0.0, j4: 0.01745, j5: 0, j6: 6.28319}";
    assert_eq!(
        JointCoord::from_robot(raw.to_string()),
        Ok(JointCoord::new(18000, -9000, 0, 100, 0, 36000))
    );
    assert_eq!(
        decode_pose(PoseKind::Joint, raw.to_string()),
        Ok(MotionTarget::JointCoord(JointCoord::new(18000, -9000, 0, 100, 0, 36000)))
    );
}

#[test]
fn a_pose_may_come_with_exponents() {
    assert_eq!(
        Transform::from_robot("{x: 1e-05, y: -2.5E-3, rz: 3.14159e0}".to_string()),
        Ok(Transform::new(1, -250, 0, 0, 0, 18000))
    );
}

#[test]
fn members_missing_stand_for_zero() {
    assert_eq!(Transform::from_robot("{}".to_string()), Ok(Transform::identity()));
    assert_eq!(
        Transform::from_robot("{z:1}".to_string()),
        Ok(Transform::new(0, 0, 100000, 0, 0, 0))
    );
    assert_eq!(JointCoord::from_robot("{ }".to_string()), Ok(JointCoord::identity()));
}

#[test]
fn members_unknown_are_passed_over() {
    assert_eq!(
        Transform::from_robot("{frame: world, x: 0.5, speed: fast}".to_string()),
        Ok(Transform::new(50000, 0, 0, 0, 0, 0))
    );
    assert_eq!(
        JointCoord::from_robot("{x: 1, j2: 1}".to_string()),
        Ok(JointCoord::new(0, 5730, 0, 0, 0, 0))
    );
}

#[test]
fn what_stands_around_the_braces_does_not_count() {
    assert_eq!(
        Transform::from_robot("transform = { x : 0.001 , } done".to_string()),
        Ok(Transform::new(100, 0, 0, 0, 0, 0))
    );
}

#[test]
fn an_empty_member_is_passed_over() {
    assert_eq!(
        Transform::from_robot("{x: 1,, y: 2,}".to_string()),
        Ok(Transform::new(100000, 200000, 0, 0, 0, 0))
    );
}

#[test]
fn a_member_given_twice_counts_last() {
    assert_eq!(
        Transform::from_robot("{x: 1, x: 2}".to_string()),
        Ok(Transform::new(200000, 0, 0, 0, 0, 0))
    );
}

#[test]
fn a_malformed_pose_is_an_error() {
    for raw in ["", "x: 1", "{x: 1", "x: 1}", "{x}", "{x: one}", "{x: }", "{rx: 1e}"] {
        assert_eq!(Transform::from_robot(raw.to_string()), Err(raw.to_string()));
        assert_eq!(decode_slots(PoseKind::Cartesian, raw), None);
    }
    assert_eq!(JointCoord::from_robot("{j1: up}".to_string()), Err("{j1: up}".to_string()));
    assert_eq!(
        decode_pose(PoseKind::Joint, "[0, 0, 0, 0, 0, 0]".to_string()),
        Err("[0, 0, 0, 0, 0, 0]".to_string())
    );
}

#[test]
fn a_scalar_is_a_truth_value_or_a_number() {
    assert_eq!(decode_scalar("True".to_string()), Ok(Scalar::Bool(true)));
    assert_eq!(decode_scalar("False".to_string()), Ok(Scalar::Bool(false)));
    assert_eq!(decode_scalar("3.5".to_string()), Ok(Scalar::Number(Centi(350))));
    assert_eq!(decode_scalar("-0.017".to_string()), Ok(Scalar::Number(Centi(-1))));
    assert_eq!(decode_scalar("3".to_string()), Ok(Scalar::Int(3)));
    assert_eq!(decode_scalar("-12".to_string()), Ok(Scalar::Int(-12)));
    assert_eq!(decode_scalar("3.".to_string()), Ok(Scalar::Number(Centi(300))));
    assert_eq!(decode_scalar("1e3".to_string()), Ok(Scalar::Number(Centi(100000))));
    assert_eq!(decode_scalar("2.5e-1".to_string()), Ok(Scalar::Number(Centi(25))));
}

#[test]
fn anything_else_is_no_scalar() {
    for raw in ["", "OK", "true", "TRUE", "0x10", "1e", "three", "3.5 ", "--1", "True\n", "1,5"] {
        assert_eq!(decode_scalar(raw.to_string()), Err(raw.to_string()));
    }
}
