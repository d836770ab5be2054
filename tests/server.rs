use userdata_server::config::{ServerConfig, DEFAULT_DB_PATH, DEFAULT_PORT};
use userdata_server::form::{parse_form_data, plan_lookup, Field};
use userdata_server::lifecycle::{
    after_receipt, before_receipt, start_keeps_waiting, stop_keeps_waiting, Lifecycle, LoopStep, Receipt, RunState, StartDecision,
    StopDecision, READY_POLL_LIMIT, STOP_POLL_LIMIT,
};
use userdata_server::records::{users_json, UserRecord};
use userdata_server::router::{decoded_rows, query_lookup, route, ContentType, HttpMethod, Reply, Route};
use userdata_server::stats::{probe_report, stats_page, StoreCounts, StoreProbe};
use userdata_server::text::{decimal, same_text, unsigned_decimal};

fn record(email: Option<&str>, phone: Option<&str>, qq: Option<&str>) -> UserRecord {
    UserRecord {
        email: email.map(|s| s.to_string()),
        phone: phone.map(|s| s.to_string()),
        qq: qq.map(|s| s.to_string()),
    }
}

#[test]
fn decimal_renders_integers() {
    assert_eq!(unsigned_decimal(0), "0");
    assert_eq!(unsigned_decimal(8099), "8099");
    assert_eq!(unsigned_decimal(u64::MAX), "18446744073709551615");
    assert_eq!(decimal(-42), "-42");
    assert_eq!(decimal(i64::MIN), "-9223372036854775808");
    assert_eq!(decimal(i64::MAX), "9223372036854775807");
}

#[test]
fn same_text_compares_characters() {
    assert!(same_text("/query", "/query"));
    assert!(!same_text("/query", "/quer"));
    assert!(!same_text("/a", "/b"));
    assert!(same_text("", ""));
}

#[test]
fn form_decoding_splits_pairs() {
    let f = parse_form_data("phone=5551234&email=a@x.com");
    assert_eq!(f.get("phone"), Some("5551234".to_string()));
    assert_eq!(f.get("email"), Some("a@x.com".to_string()));
    assert_eq!(f.get("qq"), None);
}

#[test]
fn form_decoding_keeps_later_key_and_first_equals() {
    let f = parse_form_data("qq=1&junk&qq=2=3&=empty&tail=");
    assert_eq!(f.get("qq"), Some("2=3".to_string()));
    assert_eq!(f.get("junk"), None);
    assert_eq!(f.get(""), Some("empty".to_string()));
    assert_eq!(f.get("tail"), Some("".to_string()));
}

#[test]
fn form_values_are_not_percent_decoded() {
    let f = parse_form_data("email=a%40x.com");
    assert_eq!(f.get("email"), Some("a%40x.com".to_string()));
}

#[test]
fn lookup_precedence_phone_then_qq_then_email() {
    let l = plan_lookup(&parse_form_data("email=e&qq=q&phone=p")).unwrap();
    assert_eq!(l.field, Field::Phone);
    assert_eq!(l.value, "p");
    let l = plan_lookup(&parse_form_data("email=e&qq=q")).unwrap();
    assert_eq!(l.field, Field::Qq);
    assert_eq!(l.value, "q");
    let l = plan_lookup(&parse_form_data("email=e")).unwrap();
    assert_eq!(l.field, Field::Email);
    assert_eq!(Field::Email.lookup_sql(), "SELECT email, phone, qq FROM users WHERE email = ?1");
    assert_eq!(Field::Phone.lookup_sql(), "SELECT email, phone, qq FROM users WHERE phone = ?1");
    assert_eq!(Field::Qq.lookup_sql(), "SELECT email, phone, qq FROM users WHERE qq = ?1");
}

#[test]
fn body_without_known_fields_asks_no_lookup() {
    assert!(query_lookup("name=bob&age=3").is_none());
    assert!(query_lookup("").is_none());
    assert!(query_lookup("phone").is_none());
    let reply = Reply::query(&Vec::new());
    assert_eq!(reply.body, "[]");
}

#[test]
fn route_table() {
    assert_eq!(route(&HttpMethod::Get, "/"), Route::Home);
    assert_eq!(route(&HttpMethod::Get, "/config"), Route::Config);
    assert_eq!(route(&HttpMethod::Get, "/query"), Route::NotFound);
    assert_eq!(route(&HttpMethod::Post, "/query"), Route::Query);
    assert_eq!(route(&HttpMethod::Post, "/stats"), Route::Stats);
    assert_eq!(route(&HttpMethod::Post, "/"), Route::NotFound);
    assert_eq!(route(&HttpMethod::Other, "/"), Route::MethodNotAllowed);
}

#[test]
fn fixed_replies() {
    let r = Reply::home();
    assert_eq!(r.status, 200);
    assert_eq!(r.body, "User Data Server Running");
    let r = Reply::not_found();
    assert_eq!(r.status, 404);
    assert_eq!(r.body, "Not Found");
    let r = Reply::method_not_allowed();
    assert_eq!(r.status, 405);
    assert_eq!(r.body, "Method Not Allowed");
    assert_eq!(ContentType::Plain.header_line(), None);
    assert_eq!(ContentType::Json.header_line(), Some("Content-Type: application/json"));
    assert_eq!(ContentType::Html.header_line(), Some("Content-Type: text/html"));
}

#[test]
fn query_answer_for_one_matching_row() {
    let f = parse_form_data("phone=5551234");
    let l = plan_lookup(&f).unwrap();
    assert_eq!(l.field, Field::Phone);
    assert_eq!(l.value, "5551234");
    let rows = vec![record(Some("a@x.com"), Some("5551234"), None)];
    let reply = Reply::query(&rows);
    assert_eq!(reply.status, 200);
    assert_eq!(reply.content_type, ContentType::Json);
    assert_eq!(reply.body, r#"[{"email":"a@x.com","phone":"5551234","qq":null}]"#);
}

#[test]
fn query_answer_escapes_and_joins() {
    let rows = vec![record(None, None, Some("1\"2")), record(Some("b"), Some("p\\q"), Some("9"))];
    assert_eq!(
        users_json(&rows),
        r#"[{"email":null,"phone":null,"qq":"1\"2"},{"email":"b","phone":"p\\q","qq":"9"}]"#
    );
}

#[test]
fn string_escapes_follow_json() {
    let rows = vec![record(Some("a\u{1}b\tc\u{1f}"), Some("\u{8}\u{c}\n\r/"), Some("é€"))];
    assert_eq!(
        users_json(&rows),
        "[{\"email\":\"a\\u0001b\\tc\\u001f\",\"phone\":\"\\b\\f\\n\\r/\",\"qq\":\"é€\"}]"
    );
    let c = ServerConfig::new("C:\\db \"x\"", 1);
    assert_eq!(c.to_json(), "{\"db_path\":\"C:\\\\db \\\"x\\\"\",\"port\":1}");
}

#[test]
fn undecodable_rows_are_dropped() {
    let fetched = vec![Some(record(Some("a"), None, None)), None, Some(record(Some("c"), None, None))];
    let rows = decoded_rows(fetched);
    assert_eq!(rows.len(), 2);
    assert_eq!(rows[0].email, Some("a".to_string()));
    assert_eq!(rows[1].email, Some("c".to_string()));
}

#[test]
fn stats_fragment() {
    let counts = StoreCounts { total: Some(3), phones: Some(2), qqs: None, emails: Some(1) };
    let page = stats_page(&Some(counts));
    assert!(page.contains("Total Records: 3"));
    assert!(page.contains("Unique Phones: 2"));
    assert!(page.contains("Unique QQs: 0"));
    assert!(page.contains("Unique Emails: 1"));
    assert_eq!(
        page,
        "\n        <h2>Database Statistics</h2>\n        <ul>\n            <li>Total Records: 3</li>\n            <li>Unique Phones: 2</li>\n            <li>Unique QQs: 0</li>\n            <li>Unique Emails: 1</li>\n        </ul>\n        "
    );
    assert_eq!(stats_page(&None), "Database Error: Could not connect");
    let reply = Reply::stats(&None);
    assert_eq!(reply.content_type, ContentType::Html);
}

#[test]
fn probe_reports() {
    assert_eq!(probe_report(&StoreProbe::Counted(12)), "Database OK. Records: 12");
    assert_eq!(probe_report(&StoreProbe::QueryFailed("no table".to_string())), "Database query failed: no table");
    assert_eq!(probe_report(&StoreProbe::OpenFailed("denied".to_string())), "Cannot open database: denied");
}

#[test]
fn config_defaults_and_json() {
    let d = ServerConfig::default();
    assert_eq!(d.db_path, DEFAULT_DB_PATH);
    assert_eq!(d.port, 8080);
    assert_eq!(DEFAULT_PORT, 8080);
    let c = ServerConfig::new("/tmp/u.db", 8099);
    assert_eq!(c.to_json(), r#"{"db_path":"/tmp/u.db","port":8099}"#);
    assert_eq!(c.listen_address(), "127.0.0.1:8099");
    let r = Reply::config(&c);
    assert_eq!(r.body, r#"{"db_path":"/tmp/u.db","port":8099}"#);
}

#[test]
fn stop_when_stopped_is_refused() {
    let mut l = Lifecycle::new();
    let d = l.stop();
    assert!(matches!(d, StopDecision::NotRunning));
    assert_eq!(d.message(), "Server is not running");
    assert_eq!(l.state(), RunState::Stopped);
    assert_eq!(l.status(), "stopped");
}

#[test]
fn start_twice_is_refused() {
    let mut l = Lifecycle::new();
    let first = l.start(Some(ServerConfig::new("/tmp/a.db", 8099)));
    assert_eq!(first.message(), "Server started successfully");
    assert_eq!(l.state(), RunState::Starting);
    let second = l.start(Some(ServerConfig::new("/tmp/b.db", 9000)));
    assert!(matches!(second, StartDecision::AlreadyRunning));
    assert_eq!(second.message(), "Server is already running");
    l.loop_began();
    assert_eq!(l.status(), "running");
    let third = l.start(None);
    assert!(matches!(third, StartDecision::AlreadyRunning));
    assert_eq!(l.config().db_path, "/tmp/a.db");
    assert_eq!(l.config().port, 8099);
}

#[test]
fn config_is_last_started() {
    let mut l = Lifecycle::new();
    assert_eq!(l.config().port, 8080);
    match l.start(Some(ServerConfig::new("/tmp/a.db", 8099))) {
        StartDecision::Launch { config, .. } => assert_eq!(config.port, 8099),
        StartDecision::AlreadyRunning => panic!("start refused"),
    }
    l.loop_began();
    l.stop();
    l.loop_ended();
    match l.start(None) {
        StartDecision::Launch { config, .. } => {
            assert_eq!(config.db_path, DEFAULT_DB_PATH);
            assert_eq!(config.port, 8080);
        }
        StartDecision::AlreadyRunning => panic!("start refused"),
    }
    assert_eq!(l.config().port, 8080);
}

#[test]
fn stop_signals_the_loop_once() {
    let mut l = Lifecycle::new();
    let rx = match l.start(Some(ServerConfig::new("/tmp/a.db", 8099))) {
        StartDecision::Launch { shutdown, .. } => shutdown,
        StartDecision::AlreadyRunning => panic!("start refused"),
    };
    l.loop_began();
    assert_eq!(before_receipt(&rx), LoopStep::Poll);
    let d = l.stop();
    match &d {
        StopDecision::Signalled(sent) => assert!(sent.queued()),
        _ => panic!("no signal sent"),
    }
    assert_eq!(d.message(), "Server stopped");
    assert_eq!(l.status(), "running");
    let again = l.stop();
    assert!(matches!(again, StopDecision::NotSignalled));
    assert_eq!(again.message(), "Server stopped");
    assert_eq!(before_receipt(&rx), LoopStep::Finish);
    assert_eq!(before_receipt(&rx), LoopStep::Poll);
    l.loop_ended();
    assert_eq!(l.status(), "stopped");
    assert!(matches!(l.stop(), StopDecision::NotRunning));
}

#[test]
fn status_over_every_state() {
    let mut l = Lifecycle::new();
    assert_eq!(l.status(), "stopped");
    l.start(None);
    assert_eq!(l.status(), "stopped");
    l.loop_began();
    assert_eq!(l.status(), "running");
    l.loop_ended();
    assert_eq!(l.status(), "stopped");
}

#[test]
fn loop_and_wait_decisions() {
    assert_eq!(after_receipt(&Receipt::Request), LoopStep::Serve);
    assert_eq!(after_receipt(&Receipt::Idle), LoopStep::Poll);
    assert_eq!(after_receipt(&Receipt::Failed), LoopStep::Poll);
    assert!(stop_keeps_waiting(0, &RunState::Running));
    assert!(!stop_keeps_waiting(STOP_POLL_LIMIT, &RunState::Running));
    assert!(!stop_keeps_waiting(3, &RunState::Stopped));
    assert_eq!(STOP_POLL_LIMIT, 20);
    assert!(start_keeps_waiting(0, &RunState::Starting));
    assert!(!start_keeps_waiting(0, &RunState::Running));
    assert!(!start_keeps_waiting(0, &RunState::Stopped));
    assert!(!start_keeps_waiting(READY_POLL_LIMIT, &RunState::Starting));
}
