use lino_core::cache::FileCache;
use lino_core::events::ChangeEvent;
use lino_core::protocol::DispatchAction;
use lino_core::protocol::ParamsValue;
use lino_core::protocol::Request;
use lino_core::protocol::Response;
use lino_core::protocol::ResponseBody;
use lino_core::protocol::ServerState;
use lino_core::protocol::apply_event;
use lino_core::protocol::dispatch;
use lino_core::protocol::file_updated_notification;
use lino_core::protocol::scan_response;
use lino_core::protocol::watch_response;
use lino_core::registry::RuleKind;
use lino_core::scanner::Scanner;
use lino_core::tree::FunctionNode;
use lino_core::tree::ParamKind;
use lino_core::tree::ParamNode;
use lino_core::tree::SyntaxTree;
use lino_core::types::Issue;
use lino_core::types::ScanReport;
use lino_core::types::Severity;

fn response_to_json(resp: &Response) -> serde_json::Value {
    let mut m = serde_json::Map::new();
    m.insert("id".to_string(), serde_json::Value::from(resp.id));
    let result = match &resp.result {
        None => serde_json::Value::Null,
        Some(ResponseBody::WatchStarted) => {
            let mut w = serde_json::Map::new();
            w.insert(
                "status".to_string(),
                serde_json::Value::String("watching".to_string()),
            );
            serde_json::Value::Object(w)
        }
        Some(ResponseBody::Report(report)) => {
            let mut files = Vec::new();
            for fr in &report.files {
                let mut f = serde_json::Map::new();
                f.insert(
                    "path".to_string(),
                    serde_json::Value::String(fr.path.clone()),
                );
                let issues: Vec<serde_json::Value> = fr
                    .issues
                    .iter()
                    .map(|i| {
                        let mut o = serde_json::Map::new();
                        o.insert(
                            "rule".to_string(),
                            serde_json::Value::String(i.rule.clone()),
                        );
                        o.insert(
                            "message".to_string(),
                            serde_json::Value::String(i.message.clone()),
                        );
                        o.insert("line".to_string(), serde_json::Value::from(i.line as u64));
                        o.insert(
                            "column".to_string(),
                            serde_json::Value::from(i.column as u64),
                        );
                        serde_json::Value::Object(o)
                    })
                    .collect();
                f.insert("issues".to_string(), serde_json::Value::Array(issues));
                files.push(serde_json::Value::Object(f));
            }
            serde_json::Value::Array(files)
        }
    };
    m.insert("result".to_string(), result);
    let error = match &resp.error {
        None => serde_json::Value::Null,
        Some(e) => serde_json::Value::String(e.clone()),
    };
    m.insert("error".to_string(), error);
    serde_json::Value::Object(m)
}

fn parse_request(line: &str) -> Request {
    let v: serde_json::Value = serde_json::from_str(line).expect("valid request line");
    let id = v["id"].as_u64().expect("id");
    let method = v["method"].as_str().expect("method").to_string();
    let params = match v["params"]["root"].as_str() {
        Some(root) => ParamsValue::Root(root.to_string()),
        None => ParamsValue::Malformed("missing field `root`".to_string()),
    };
    Request { id, method, params }
}

#[test]
fn scan_request_round_trip() {
    // One directory with one file containing a flagged pattern.
    let req = parse_request("{\"id\":1,\"method\":\"scan\",\"params\":{\"root\":\"proj\"}}");
    let action = dispatch(req);
    let (id, root) = match action {
        DispatchAction::RunScan(id, root) => (id, root),
        _ => panic!("a well-formed scan request must run a scan"),
    };
    assert_eq!(id, 1);
    assert_eq!(root, "proj");

    let scanner = Scanner::new(vec![RuleKind::NoImplicitAny]);
    let mut cache = FileCache::new();
    let tree = SyntaxTree {
        functions: vec![FunctionNode {
            params: vec![ParamNode {
                kind: ParamKind::Simple,
                name: "a".to_string(),
                has_annotation: false,
                offset: 11,
            }],
        }],
    };
    let fr = scanner.scan_parsed(
        &mut cache,
        &"proj/f.ts".to_string(),
        Some(100),
        "function f(a) {}",
        Some(&tree),
    );
    let mut report = ScanReport::new();
    report.push(fr);
    let resp = scan_response(id, report);

    let json = response_to_json(&resp);
    assert_eq!(json["id"], 1);
    assert!(json["error"].is_null());
    let files = json["result"].as_array().expect("result is a report");
    assert_eq!(files.len(), 1);
    assert_eq!(files[0]["path"], "proj/f.ts");
    assert!(files[0]["issues"].as_array().unwrap().len() >= 1);
}

#[test]
fn unknown_method_is_answered_with_an_error() {
    let req = parse_request("{\"id\":2,\"method\":\"bogus\",\"params\":{}}");
    let action = dispatch(req);
    let resp = match action {
        DispatchAction::Reply(r) => r,
        _ => panic!("an unknown method must be answered at once"),
    };
    let json = response_to_json(&resp);
    assert_eq!(json["id"], 2);
    assert!(json["result"].is_null());
    assert_eq!(json["error"], "Unknown method: bogus");
}

#[test]
fn malformed_params_are_answered_with_an_error() {
    let req = Request {
        id: 3,
        method: "scan".to_string(),
        params: ParamsValue::Malformed("missing field `root`".to_string()),
    };
    match dispatch(req) {
        DispatchAction::Reply(r) => {
            assert_eq!(r.id, 3);
            assert!(r.result.is_none());
            assert_eq!(r.error.as_deref(), Some("Invalid params: missing field `root`"));
        }
        _ => panic!("malformed params must be answered at once"),
    }
}

#[test]
fn watch_request_dispatches_and_succeeds() {
    let req = parse_request("{\"id\":4,\"method\":\"watch\",\"params\":{\"root\":\"proj\"}}");
    let (id, root) = match dispatch(req) {
        DispatchAction::RunWatch(id, root) => (id, root),
        _ => panic!("a well-formed watch request must start a watcher"),
    };
    assert_eq!(id, 4);
    assert_eq!(root, "proj");
    let resp = watch_response(id, Ok(()));
    let json = response_to_json(&resp);
    assert_eq!(json["id"], 4);
    assert!(json["error"].is_null());
    assert_eq!(json["result"]["status"], "watching");
}

#[test]
fn failed_watch_start_reports_the_failure() {
    let resp = watch_response(5, Err("root does not exist".to_string()));
    assert_eq!(resp.id, 5);
    assert!(resp.result.is_none());
    assert_eq!(
        resp.error.as_deref(),
        Some("Failed to start watcher: root does not exist")
    );
}

#[test]
fn removed_file_clears_cache_entry_without_notification() {
    let mut cache = FileCache::new();
    cache.insert(
        "a.ts".to_string(),
        Some(1),
        vec![Issue {
            rule: "no-implicit-any".to_string(),
            file: "a.ts".to_string(),
            line: 1,
            column: 1,
            message: "m".to_string(),
            severity: Severity::Error,
        }],
    );
    let rescan = apply_event(&mut cache, true, ChangeEvent::Removed("a.ts".to_string()));
    assert!(rescan.is_none());
    assert!(cache.get(&"a.ts".to_string(), Some(1)).is_none());
    assert_eq!(cache.len(), 0);
}

#[test]
fn modified_file_is_rescanned_only_with_a_scanner() {
    let mut cache = FileCache::new();
    let p = apply_event(&mut cache, true, ChangeEvent::Modified("a.ts".to_string()));
    assert_eq!(p.as_deref(), Some("a.ts"));
    let q = apply_event(&mut cache, false, ChangeEvent::Modified("a.ts".to_string()));
    assert!(q.is_none());
    let r = apply_event(&mut cache, true, ChangeEvent::Created("b.ts".to_string()));
    assert_eq!(r.as_deref(), Some("b.ts"));
}

#[test]
fn notification_carries_the_single_file_result() {
    let scanner = Scanner::new(vec![RuleKind::NoImplicitAny]);
    let mut cache = FileCache::new();
    let tree = SyntaxTree {
        functions: vec![FunctionNode {
            params: vec![ParamNode {
                kind: ParamKind::Simple,
                name: "a".to_string(),
                has_annotation: false,
                offset: 11,
            }],
        }],
    };
    let fr = scanner.scan_parsed(
        &mut cache,
        &"a.ts".to_string(),
        Some(7),
        "function f(a) {}",
        Some(&tree),
    );
    let expected_len = fr.issues.len();
    let n = file_updated_notification(fr);
    assert_eq!(n.method, "file_updated");
    assert_eq!(n.params.path, "a.ts");
    assert_eq!(n.params.issues.len(), expected_len);
}

#[test]
fn fresh_server_state_is_idle() {
    let s = ServerState::new();
    assert!(s.scanner.is_none());
    assert!(!s.watching);
    assert_eq!(s.cache.len(), 0);
}
