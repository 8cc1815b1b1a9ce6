use r433rrd_rs::frame::payload;
use r433rrd_rs::rrdtool::{Command, Completion, GatewayError, Output, RRDTool};
use r433rrd_rs::sample::{parse, Channel, ParseError, ParsedSample, RawSample};
use r433rrd_rs::server::{ConfigFile, Intake, Pending, Server, Stage, Step};

const SECOND: u128 = 1_000_000_000;

fn config(schedule: &[&str], interval: u64) -> ConfigFile {
    ConfigFile {
        listen_addr: "127.0.0.1:5514".to_string(),
        rrd_path: "/var/rrd/".to_string(),
        graph_path: "/var/www/".to_string(),
        graph_interval: interval,
        graph_schedule: schedule.iter().map(|s| s.to_string()).collect(),
    }
}

fn sample(label: &str) -> ParsedSample {
    ParsedSample {
        label: label.to_string(),
        store_path: format!("/var/rrd/{}", label),
        temperature: "21.5".to_string(),
        humidity: "0.0".to_string(),
    }
}

fn ok() -> Completion {
    Completion::Exited(Output { success: true, stdout: b"ok".to_vec(), stderr: Vec::new() })
}

fn failed(stderr: &str) -> Completion {
    Completion::Exited(Output { success: false, stdout: Vec::new(), stderr: stderr.as_bytes().to_vec() })
}

fn called(step: Step) -> (Pending, Command) {
    match step {
        Step::Call(p, c) => (p, c),
        Step::Done(_) => panic!("a command was expected"),
    }
}

fn done(step: Step) -> Result<(), GatewayError> {
    match step {
        Step::Done(r) => r,
        Step::Call(_, c) => panic!("the ingestion should be over, not run {:?}", c.args),
    }
}

fn graph_arguments(image: &str, window: &str, label: &str, file: &str) -> Vec<String> {
    vec![
        "graph".to_string(),
        image.to_string(),
        "--start".to_string(),
        window.to_string(),
        "--title".to_string(),
        label.to_string(),
        "--vertical-label=C".to_string(),
        "--right-axis-label=%".to_string(),
        "-w 800".to_string(),
        "-h 200".to_string(),
        format!("DEF:t={}:temperature:AVERAGE", file),
        format!("DEF:h={}:humidity:AVERAGE", file),
        r#"LINE1:t#00FF00:Temperature\t\t"#.to_string(),
        r#"LINE2:h#0000FF:Humidity\n"#.to_string(),
        r#"GPRINT:t:AVERAGE:T avg %5.1lf C\t\t"#.to_string(),
        r#"GPRINT:h:AVERAGE:H avg %5.0lf\n"#.to_string(),
        r#"GPRINT:t:MAX:T max %5.1lf C\t\t"#.to_string(),
        r#"GPRINT:h:MAX:H max %5.0lf\n"#.to_string(),
    ]
}

/// Stores one sample of `label` at `now` in a store that exists, and
/// returns what follows the update.
fn store(server: &mut Server, label: &str, now: u128) -> Step {
    let (pending, _) = server.begin(sample(label));
    let (pending, command) = called(server.advance(pending, ok(), now));
    assert_eq!(command.args[0], "update");
    server.advance(pending, ok(), now)
}

#[test]
fn datagram_that_is_no_syslog_line_is_tossed() {
    match Server::run(b"hello world") {
        Intake::Toss(text) => assert_eq!(text, "hello world"),
        _ => panic!("the datagram does not start with <"),
    }
    match Server::run(b"") {
        Intake::Toss(text) => assert_eq!(text, ""),
        _ => panic!("the datagram is empty"),
    }
}

#[test]
fn datagram_that_is_not_text_is_tossed_with_a_complaint() {
    match Server::run(b"<134>1 \xff") {
        Intake::Toss(text) => assert_eq!(text, "Error reading string from socket!"),
        _ => panic!("the datagram is not UTF-8"),
    }
}

#[test]
fn datagram_with_a_short_header_is_refused() {
    assert!(matches!(Server::run(b"<134>1 a b c"), Intake::Reject(ParseError::MalformedFrame)));
}

#[test]
fn datagram_with_a_payload_is_decoded() {
    match Server::run(b"<134>1 2024-05-01T10:00:00Z host rtl_433 - - - {\"model\" : \"X\"}") {
        Intake::Decode(p) => assert_eq!(p, "{\"model\" : \"X\"}"),
        _ => panic!("the line has a payload"),
    }
}

#[test]
fn schedule_entries_must_name_a_unit() {
    assert!(config(&["d", "w", "m"], 60).is_valid());
    assert!(config(&[], 60).is_valid());
    assert!(config(&["day"], 60).is_valid());
    assert!(!config(&["d", "", "m"], 60).is_valid());
    assert!(!config(&[""], 60).is_valid());
}

#[test]
fn ingestion_starts_with_info() {
    let server = Server::new(config(&["d"], 60));
    let (pending, command) = server.begin(sample("a.rrd"));
    assert!(pending.stage == Stage::Probing);
    assert_eq!(pending.sample.label, "a.rrd");
    assert_eq!(command.program, "rrdtool");
    assert_eq!(command.args, vec!["info".to_string(), "/var/rrd/a.rrd".to_string()]);
}

#[test]
fn missing_store_is_created_once_before_the_update() {
    let mut server = Server::new(config(&["d"], 60));
    let (pending, _) = server.begin(sample("a.rrd"));
    let (pending, create) = called(server.advance(pending, failed("No such file"), 0));
    assert!(pending.stage == Stage::Creating);
    let mut expected = vec!["create".to_string(), "/var/rrd/a.rrd".to_string()];
    expected.extend(RRDTool::schema());
    assert_eq!(create.args, expected);
    let (pending, update) = called(server.advance(pending, ok(), 0));
    assert!(pending.stage == Stage::Updating);
    assert_eq!(
        update.args,
        vec!["update".to_string(), "/var/rrd/a.rrd".to_string(), "N:21.5:0.0".to_string()]
    );
    assert!(done(server.advance(pending, ok(), 0)).is_ok());
}

#[test]
fn store_is_created_whatever_made_info_fail() {
    for probe in [
        failed("corrupt"),
        Completion::NotStarted("not found".to_string()),
        Completion::Exited(Output { success: true, stdout: b"\xff".to_vec(), stderr: Vec::new() }),
        Completion::Exited(Output { success: false, stdout: b"\xff".to_vec(), stderr: Vec::new() }),
    ] {
        let mut server = Server::new(config(&["d"], 60));
        let (pending, _) = server.begin(sample("a.rrd"));
        let (pending, command) = called(server.advance(pending, probe, 0));
        assert!(pending.stage == Stage::Creating);
        assert_eq!(command.args[0], "create");
    }
}

#[test]
fn present_store_is_not_created() {
    let mut server = Server::new(config(&["d"], 60));
    let (pending, _) = server.begin(sample("a.rrd"));
    let (pending, update) = called(server.advance(pending, ok(), 0));
    assert!(pending.stage == Stage::Updating);
    assert_eq!(
        update.args,
        vec!["update".to_string(), "/var/rrd/a.rrd".to_string(), "N:21.5:0.0".to_string()]
    );
    assert!(done(server.advance(pending, ok(), 0)).is_ok());
}

#[test]
fn failed_create_ends_the_ingestion() {
    let mut server = Server::new(config(&["d"], 60));
    let (pending, _) = server.begin(sample("a.rrd"));
    let (pending, _) = called(server.advance(pending, failed("absent"), 0));
    match done(server.advance(pending, failed("read-only file system"), 0)) {
        Err(GatewayError::CreateFailed(why)) => assert_eq!(why, "stdout: \nstderr: read-only file system"),
        _ => panic!("create failed"),
    }
    assert_eq!(server.graphs.deadline("a.rrd"), None);
}

#[test]
fn failed_update_ends_the_ingestion() {
    let mut server = Server::new(config(&["d"], 60));
    let (pending, _) = server.begin(sample("a.rrd"));
    let (pending, _) = called(server.advance(pending, ok(), 0));
    match done(server.advance(pending, failed("illegal attempt"), 0)) {
        Err(GatewayError::UpdateFailed(why)) => assert_eq!(why, "stdout: \nstderr: illegal attempt"),
        _ => panic!("update failed"),
    }
    assert_eq!(server.graphs.deadline("a.rrd"), None);
}

#[test]
fn first_sample_of_a_sensor_is_not_drawn() {
    let mut server = Server::new(config(&["d", "w"], 60));
    assert!(done(store(&mut server, "a.rrd", 5 * SECOND)).is_ok());
    assert_eq!(server.graphs.deadline("a.rrd"), Some(65 * SECOND));
}

#[test]
fn graphs_wait_one_interval_after_first_sight() {
    let mut server = Server::new(config(&["d"], 60));
    assert!(done(store(&mut server, "a.rrd", 5 * SECOND)).is_ok());
    assert!(done(store(&mut server, "a.rrd", 6 * SECOND)).is_ok());
    assert!(done(store(&mut server, "a.rrd", 65 * SECOND - 1)).is_ok());
    assert_eq!(server.graphs.deadline("a.rrd"), Some(65 * SECOND));
    let (pending, command) = called(store(&mut server, "a.rrd", 65 * SECOND));
    assert!(pending.stage == Stage::Rendering { next: 0, since: 65 * SECOND });
    assert_eq!(command.args[0], "graph");
}

#[test]
fn every_window_of_the_schedule_is_drawn() {
    let mut server = Server::new(config(&["d", "week", "m"], 60));
    assert!(done(store(&mut server, "a.rrd", 0)).is_ok());
    let (pending, first) = called(store(&mut server, "a.rrd", 100 * SECOND));
    assert_eq!(first.program, "rrdtool");
    assert_eq!(
        first.args,
        graph_arguments("/var/www/metrics-d.a.rrd.png", "-1d", "a.rrd", "/var/rrd/a.rrd")
    );
    let (pending, second) = called(server.advance(pending, ok(), 101 * SECOND));
    assert!(pending.stage == Stage::Rendering { next: 1, since: 100 * SECOND });
    assert_eq!(
        second.args,
        graph_arguments("/var/www/metrics-week.a.rrd.png", "-1w", "a.rrd", "/var/rrd/a.rrd")
    );
    let (pending, third) = called(server.advance(pending, ok(), 102 * SECOND));
    assert_eq!(
        third.args,
        graph_arguments("/var/www/metrics-m.a.rrd.png", "-1m", "a.rrd", "/var/rrd/a.rrd")
    );
    assert_eq!(server.graphs.deadline("a.rrd"), Some(60 * SECOND));
    assert!(done(server.advance(pending, ok(), 103 * SECOND)).is_ok());
    assert_eq!(server.graphs.deadline("a.rrd"), Some(160 * SECOND));
}

#[test]
fn next_graphs_are_due_one_interval_after_the_pass_was_found_due() {
    let mut server = Server::new(config(&["d"], 60));
    assert!(done(store(&mut server, "a.rrd", 0)).is_ok());
    let (pending, _) = called(store(&mut server, "a.rrd", 70 * SECOND));
    assert!(done(server.advance(pending, ok(), 75 * SECOND)).is_ok());
    assert_eq!(server.graphs.deadline("a.rrd"), Some(130 * SECOND));
    assert!(done(store(&mut server, "a.rrd", 130 * SECOND - 1)).is_ok());
    let (pending, _) = called(store(&mut server, "a.rrd", 130 * SECOND));
    assert!(pending.stage == Stage::Rendering { next: 0, since: 130 * SECOND });
}

#[test]
fn failed_window_ends_the_pass_and_keeps_the_deadline() {
    let mut server = Server::new(config(&["d", "w"], 60));
    assert!(done(store(&mut server, "a.rrd", 0)).is_ok());
    let (pending, _) = called(store(&mut server, "a.rrd", 60 * SECOND));
    match done(server.advance(pending, failed("no font"), 61 * SECOND)) {
        Err(GatewayError::RenderFailed(why)) => assert_eq!(why, "stdout: \nstderr: no font"),
        _ => panic!("graph failed"),
    }
    assert_eq!(server.graphs.deadline("a.rrd"), Some(60 * SECOND));
    let (pending, command) = called(store(&mut server, "a.rrd", 62 * SECOND));
    assert!(pending.stage == Stage::Rendering { next: 0, since: 62 * SECOND });
    assert_eq!(command.args[1], "/var/www/metrics-d.a.rrd.png");
}

#[test]
fn failure_in_the_second_window_keeps_the_deadline() {
    let mut server = Server::new(config(&["d", "w"], 60));
    assert!(done(store(&mut server, "a.rrd", 0)).is_ok());
    let (pending, _) = called(store(&mut server, "a.rrd", 60 * SECOND));
    let (pending, _) = called(server.advance(pending, ok(), 61 * SECOND));
    assert!(done(server.advance(pending, Completion::NotStarted("gone".to_string()), 62 * SECOND)).is_err());
    assert_eq!(server.graphs.deadline("a.rrd"), Some(60 * SECOND));
}

#[test]
fn empty_schedule_draws_nothing_and_moves_the_deadline() {
    let mut server = Server::new(config(&[], 60));
    assert!(done(store(&mut server, "a.rrd", 0)).is_ok());
    assert!(done(store(&mut server, "a.rrd", 60 * SECOND)).is_ok());
    assert_eq!(server.graphs.deadline("a.rrd"), Some(120 * SECOND));
}

#[test]
fn sensors_are_scheduled_apart() {
    let mut server = Server::new(config(&["d"], 60));
    assert!(done(store(&mut server, "a.rrd", 0)).is_ok());
    assert!(done(store(&mut server, "b.rrd", 30 * SECOND)).is_ok());
    assert_eq!(server.graphs.deadline("a.rrd"), Some(60 * SECOND));
    assert_eq!(server.graphs.deadline("b.rrd"), Some(90 * SECOND));
    let (pending, _) = called(store(&mut server, "a.rrd", 60 * SECOND));
    assert!(done(server.advance(pending, ok(), 60 * SECOND)).is_ok());
    assert!(done(store(&mut server, "b.rrd", 60 * SECOND)).is_ok());
    assert_eq!(server.graphs.deadline("a.rrd"), Some(120 * SECOND));
    assert_eq!(server.graphs.deadline("b.rrd"), Some(90 * SECOND));
}

/// Reads a payload as the listener does: numbers that stand for readings
/// are rendered as single-precision decimals.
fn decode(payload: &str) -> Result<RawSample, String> {
    let value: serde_json::Value = serde_json::from_str(payload).map_err(|e| format!("{:?}", e))?;
    let reading = |key: &str| value.get(key).and_then(|v| v.as_f64()).map(|x| (x as f32).to_string());
    Ok(RawSample {
        model: value.get("model").and_then(|v| v.as_str()).ok_or("missing field `model`")?.to_string(),
        id: value.get("id").and_then(|v| v.as_i64()).map(|x| x as i32),
        channel: value.get("channel").filter(|v| !v.is_null()).map(Channel::from_json),
        temperature_c: reading("temperature_C"),
        humidity: reading("humidity"),
        ttype: value.get("type").and_then(|v| v.as_str()).map(|s| s.to_string()),
    })
}

#[test]
fn line_with_six_header_fields_is_malformed() {
    let line = "<134>1 - host app - - {\"model\":\"Acurite-5n1\",\"id\":12,\"temperature_C\":21.5}";
    assert!(matches!(payload(line), Err(ParseError::MalformedFrame)));
    assert!(matches!(Server::run(line.as_bytes()), Intake::Reject(ParseError::MalformedFrame)));
}

#[test]
fn from_line_to_create_and_update() {
    let line = "<134>1 - host app - - - {\"model\":\"Acurite-5n1\",\"id\":12,\"temperature_C\":21.5}";
    let payload = match Server::run(line.as_bytes()) {
        Intake::Decode(p) => p,
        _ => panic!("the line has a payload"),
    };
    let settings = config(&["d"], 300);
    let sample = parse(decode(&payload), settings.rrd_path.as_str()).ok().unwrap();
    assert_eq!(sample.label, "Acurite-5n1.ID12.rrd");
    assert_eq!(sample.store_path, "/var/rrd/Acurite-5n1.ID12.rrd");
    assert_eq!((sample.temperature.as_str(), sample.humidity.as_str()), ("21.5", "0.0"));
    let mut server = Server::new(settings);
    let (pending, info) = server.begin(sample);
    assert_eq!(info.args, vec!["info".to_string(), "/var/rrd/Acurite-5n1.ID12.rrd".to_string()]);
    let (pending, create) = called(server.advance(pending, failed("No such file or directory"), 0));
    assert_eq!(create.args[0], "create");
    assert_eq!(create.args[1], "/var/rrd/Acurite-5n1.ID12.rrd");
    assert_eq!(create.args[2..].to_vec(), RRDTool::schema());
    let (pending, update) = called(server.advance(pending, ok(), 0));
    assert_eq!(
        update.args,
        vec![
            "update".to_string(),
            "/var/rrd/Acurite-5n1.ID12.rrd".to_string(),
            "N:21.5:0.0".to_string()
        ]
    );
    assert!(done(server.advance(pending, ok(), 0)).is_ok());
}

#[test]
fn payload_with_channels_of_both_kinds() {
    let numeric = decode("{\"model\":\"Acurite 5n1\",\"channel\":3,\"id\":9,\"temperature_C\":1}").unwrap();
    assert_eq!(parse(Ok(numeric), "").ok().unwrap().label, "Acurite_5n1.CH3.rrd");
    let textual = decode("{\"model\":\"LaCrosse/TX\",\"channel\":\"A\",\"temperature_C\":1,\"humidity\":40}").unwrap();
    let p = parse(Ok(textual), "").ok().unwrap();
    assert_eq!(p.label, "LaCrosse_TX.CHA.rrd");
    assert_eq!(p.humidity, "40");
    let bare = decode("{\"model\":\"A&B.2\",\"temperature_C\":-3.25}").unwrap();
    let p = parse(Ok(bare), "").ok().unwrap();
    assert_eq!(p.label, "AB_2.rrd");
    assert_eq!(p.temperature, "-3.25");
}

#[test]
fn payload_that_is_no_json_is_invalid() {
    assert!(matches!(parse(decode("{\"model\""), ""), Err(ParseError::InvalidPayload(_))));
    assert!(matches!(parse(decode("{\"id\":1}"), ""), Err(ParseError::InvalidPayload(_))));
}

#[test]
fn parse_errors_in_words() {
    assert_eq!(ParseError::MalformedFrame.message(), "Error splitting input string");
    assert_eq!(
        ParseError::InvalidPayload("EOF".to_string()).message(),
        "Error parsing JSON Payload: EOF"
    );
    assert_eq!(ParseError::UnsupportedSensorType.message(), "Skipping entry: TPMS sensor");
    assert_eq!(ParseError::MissingTemperature.message(), "No temperature_c found in syslog data");
}
