use inovo_rs::ros_bridge::{
    call_outcome, state_outcome, Incoming, RosBridge, RosBridgeError, RosLink, RuntimeState,
    ScriptedLink,
};

/// A bridge that answers from a list and keeps what was asked.
struct Canned {
    answers: Vec<Result<String, RosBridgeError>>,
    asked: Vec<(String, String)>,
}

impl Canned {
    fn new(answers: &[&str]) -> Canned {
        Canned { answers: answers.iter().rev().map(|a| Ok(a.to_string())).collect(), asked: vec![] }
    }
}

impl RosLink for Canned {
    fn request(&mut self, url: &str, json: &str) -> Result<String, RosBridgeError> {
        self.asked.push((url.to_string(), json.to_string()));
        match self.answers.pop() {
            Some(a) => a,
            None => Err(RosBridgeError::UnexpectedValue),
        }
    }
}

const OK: &str = r#"{"op":"service_response","values":{"success":true,"message":""}}"#;
const NO: &str = r#"{"op":"service_response","values":{"success":false,"message":"busy"}}"#;

#[test]
fn requests_are_json() {
    let stop = RosBridge::stop_json();
    let value: serde_json::Value = serde_json::from_str(&stop).unwrap();
    assert_eq!(value["op"], "call_service");
    assert_eq!(value["service"], "/sequence/stop");
    assert_eq!(value["id"], "call_service:/sequence/stop");
    assert_eq!(value["type"], "std_srvs/Trigger");
    assert!(value["args"].as_object().unwrap().is_empty());

    let start = RosBridge::start_json("iva");
    assert_eq!(
        start,
        [
            r#"{"args":{"procedure_name":"iva"},"id":"call_service:/sequence/start","#,
            r#""op":"call_service","service":"/sequence/start","type":"sequencer/RunSequence"}"#,
        ]
        .concat()
    );

    let runtime: serde_json::Value = serde_json::from_str(&RosBridge::runtime_json()).unwrap();
    assert_eq!(runtime["op"], "subscribe");
    assert_eq!(runtime["topic"], "/sequence/runtime_state");
    assert_eq!(runtime["type"], "commander_msgs/RuntimeState");
}

#[test]
fn the_name_of_a_procedure_is_quoted() {
    let start = RosBridge::start_json("say \"go\"");
    let value: serde_json::Value = serde_json::from_str(&start).unwrap();
    assert_eq!(value["args"]["procedure_name"], "say \"go\"");
    assert!(start.contains(r#""procedure_name":"say \"go\"""#));
}

#[test]
fn the_bridge_listens_on_its_port() {
    let bridge = RosBridge::new("psu002", 500);
    assert_eq!(bridge.url(), "ws://psu002:9090/");
    assert_eq!(bridge.host, "psu002");
    assert_eq!(bridge.interval_ms, 500);
    assert_eq!(bridge.logger.targets.len(), 2);
}

#[test]
fn a_call_succeeds_only_on_true() {
    assert!(RosBridge::call_result(Ok(OK.to_string())).is_ok());
    for answer in [NO, "{}", "not json", r#"{"values":{"success":1}}"#, r#"{"values":true}"#,
        r#"{"success":true}"#, r#"[{"values":{"success":true}}]"#]
    {
        assert!(matches!(
            RosBridge::call_result(Ok(answer.to_string())),
            Err(RosBridgeError::UnexpectedValue)
        ));
    }
    assert!(matches!(
        RosBridge::call_result(Err(RosBridgeError::UnexpectedValue)),
        Err(RosBridgeError::UnexpectedValue)
    ));
    assert!(call_outcome(Some(true)).is_ok());
    assert!(call_outcome(Some(false)).is_err());
    assert!(call_outcome(None).is_err());
}

#[test]
fn states_have_numbers() {
    let state = |n: &str| format!(r#"{{"op":"publish","msg":{{"state":{}}}}}"#, n);
    assert_eq!(RosBridge::state_result(Ok(state("0"))).ok(), Some(RuntimeState::Stop));
    assert_eq!(RosBridge::state_result(Ok(state("1"))).ok(), Some(RuntimeState::Running));
    assert_eq!(RosBridge::state_result(Ok(state("2"))).ok(), Some(RuntimeState::Pause));
    assert_eq!(RosBridge::state_result(Ok(state("3"))).ok(), Some(RuntimeState::Disabled));
    for n in ["4", "-1", "1.5", "\"1\"", "null", "true"] {
        assert!(matches!(
            RosBridge::state_result(Ok(state(n))),
            Err(RosBridgeError::UnexpectedValue)
        ));
    }
    assert!(RosBridge::state_result(Ok("{}".to_string())).is_err());
    assert_eq!(state_outcome(Some(0)).ok(), Some(RuntimeState::Stop));
    assert!(state_outcome(Some(7)).is_err());
    assert!(state_outcome(None).is_err());
    assert!(!RosBridge::waits_on(RuntimeState::Stop));
    assert!(RosBridge::waits_on(RuntimeState::Running));
    assert!(RosBridge::waits_on(RuntimeState::Pause));
    assert!(RosBridge::waits_on(RuntimeState::Disabled));
}

#[test]
fn a_sequence_is_started_once_if_that_works() {
    let mut bridge = RosBridge::new("arm", 1000);
    let mut link = Canned::new(&[OK]);
    assert!(bridge.run_sequence(&mut link, "iva").is_ok());
    assert_eq!(
        link.asked,
        vec![("ws://arm:9090/".to_string(), RosBridge::start_json("iva"))]
    );
}

#[test]
fn a_sequence_is_stopped_and_started_again_if_it_does_not_start() {
    let mut bridge = RosBridge::new("arm", 1000);
    let mut link = Canned::new(&[NO, OK, OK]);
    assert!(bridge.run_sequence(&mut link, "iva").is_ok());
    let start = RosBridge::start_json("iva");
    let asked: Vec<String> = link.asked.iter().map(|a| a.1.clone()).collect();
    assert_eq!(asked, vec![start.clone(), RosBridge::stop_json(), start.clone()]);

    let mut link = Canned::new(&[NO, NO, OK]);
    assert!(bridge.run_sequence(&mut link, "iva").is_err());
    assert_eq!(link.asked.len(), 2);

    let mut link = Canned::new(&[NO, OK, NO]);
    assert!(bridge.run_sequence(&mut link, "iva").is_err());
    assert_eq!(link.asked.len(), 3);
}

#[test]
fn the_bridge_calls_and_asks() {
    let mut bridge = RosBridge::new("arm", 1000);
    let mut link = Canned::new(&[OK, NO, r#"{"msg":{"state":1}}"#, OK]);
    assert!(bridge.start_sequence(&mut link, "p").is_ok());
    assert!(bridge.stop_sequence(&mut link).is_err());
    assert_eq!(bridge.get_runtime_state(&mut link).ok(), Some(RuntimeState::Running));
    assert!(bridge.call_service(&mut link, "{}").is_ok());
    assert!(bridge.call_service(&mut link, "{}").is_err());
    assert_eq!(link.asked[2].1, RosBridge::runtime_json());
    assert_eq!(link.asked[3].1, "{}");
}

#[test]
fn the_answer_is_the_first_text_that_is_json() {
    for text in [OK, NO, "{}", "[]", "1", "null", "\"a\"", " {\"a\": [1, 2.5e3, true]} "] {
        assert_eq!(
            RosBridge::answer_in(Incoming::Text(text.to_string())),
            Some(text.to_string()),
            "{:?}",
            text
        );
    }
    for text in ["", "not json", "{", "{\"a\":}", "{} {}", "[1,]", "'a'", "tru"] {
        assert_eq!(RosBridge::answer_in(Incoming::Text(text.to_string())), None, "{:?}", text);
    }
    assert_eq!(RosBridge::answer_in(Incoming::Other), None);
}

#[test]
fn the_link_in_memory_answers_from_its_list() {
    let mut link = ScriptedLink::new(vec![NO.to_string(), OK.to_string(), OK.to_string()]);
    let mut bridge = RosBridge::new("robot", 100);
    assert!(bridge.run_sequence(&mut link, "iva").is_ok());
    assert_eq!(link.next, 3);
    let url = "ws://robot:9090/".to_string();
    assert_eq!(
        link.asked,
        vec![
            (url.clone(), RosBridge::start_json("iva")),
            (url.clone(), RosBridge::stop_json()),
            (url.clone(), RosBridge::start_json("iva")),
        ]
    );
    assert!(matches!(bridge.get_runtime_state(&mut link), Err(RosBridgeError::UnexpectedValue)));
    assert_eq!(link.asked.len(), 4);
    assert_eq!(link.asked[3], (url, RosBridge::runtime_json()));
    assert_eq!(link.next, 3);
}
