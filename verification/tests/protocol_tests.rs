use super_daemon::json::JsonValue;
use super_daemon::protocol::{
    dispatch, make_request, respond, route, DispatchStep, Method, Request, Response,
    APP_ERROR_CODE, METHOD_NOT_FOUND_CODE,
};

fn request_with(method: &str, id: &str) -> Request {
    Request {
        method: method.to_string(),
        params: JsonValue::Obj(vec![]),
        id: JsonValue::Str(id.to_string()),
    }
}

#[test]
fn ping_replies_pong_and_echoes_id() {
    let req = request_with("ping", "id-1");
    match dispatch(req) {
        DispatchStep::Reply(Response::Success { result, id }) => {
            match result {
                JsonValue::Str(s) => assert_eq!(s, "pong"),
                _ => panic!("ping result is not a string"),
            }
            match id {
                JsonValue::Str(s) => assert_eq!(s, "id-1"),
                _ => panic!("id was not echoed"),
            }
        },
        _ => panic!("ping did not reply directly"),
    }
}

#[test]
fn unknown_method_fails_with_reserved_code() {
    let req = request_with("no_such_method", "id-2");
    match dispatch(req) {
        DispatchStep::Reply(Response::Failure { code, message, id }) => {
            assert_eq!(code, -32601);
            assert_eq!(code, METHOD_NOT_FOUND_CODE);
            assert_eq!(message, "Method not found");
            match id {
                JsonValue::Str(s) => assert_eq!(s, "id-2"),
                _ => panic!("id was not echoed"),
            }
        },
        _ => panic!("unknown method was not refused"),
    }
}

#[test]
fn known_method_is_routed_to_its_handler() {
    assert!(matches!(route("create_vhost"), Some(Method::CreateVhost)));
    assert!(matches!(route("get_firewall_status"), Some(Method::GetFirewallStatus)));
    assert!(matches!(route("list_files"), Some(Method::ListFiles)));
    assert!(matches!(route("toggle_firewall"), Some(Method::ToggleFirewall)));
    assert!(matches!(route("pingg"), None));
    assert!(matches!(route(""), None));
}

#[test]
fn dispatch_hands_over_the_request_unchanged() {
    let req = request_with("delete_vhost", "id-3");
    match dispatch(req) {
        DispatchStep::Run(m, r) => {
            assert!(matches!(m, Method::DeleteVhost));
            assert_eq!(r.method, "delete_vhost");
            match r.id {
                JsonValue::Str(s) => assert_eq!(s, "id-3"),
                _ => panic!("id changed in dispatch"),
            }
        },
        _ => panic!("known handler method was answered directly"),
    }
}

#[test]
fn success_outcome_echoes_id() {
    let req = request_with("get_status", "abc-123");
    let resp = respond(req, Ok(JsonValue::Str("done".to_string())));
    match resp {
        Response::Success { result, id } => {
            assert!(matches!(result, JsonValue::Str(s) if s == "done"));
            assert!(matches!(id, JsonValue::Str(s) if s == "abc-123"));
        },
        _ => panic!("Ok outcome became a failure"),
    }
}

#[test]
fn failure_outcome_uses_the_shared_application_code() {
    let req = request_with("get_status", "abc-124");
    let resp = respond(req, Err("boom".to_string()));
    match resp {
        Response::Failure { code, message, id } => {
            assert_eq!(code, -32000);
            assert_eq!(code, APP_ERROR_CODE);
            assert_eq!(message, "boom");
            assert!(matches!(id, JsonValue::Str(s) if s == "abc-124"));
        },
        _ => panic!("Err outcome became a success"),
    }
}

#[test]
fn null_id_is_echoed_as_null() {
    let req = Request {
        method: "get_status".to_string(),
        params: JsonValue::Obj(vec![]),
        id: JsonValue::Null,
    };
    let resp = respond(req, Err("oops".to_string()));
    match resp {
        Response::Failure { id, .. } => assert!(matches!(id, JsonValue::Null)),
        _ => panic!("Err outcome became a success"),
    }
}

#[test]
fn client_request_envelope_has_wire_order() {
    let params = JsonValue::Obj(vec![(
        "domain".to_string(),
        JsonValue::Str("example.com".to_string()),
    )]);
    let req = make_request("create_vhost", params, "uuid-1");
    match req {
        JsonValue::Obj(fs) => {
            assert_eq!(fs.len(), 4);
            assert_eq!(fs[0].0, "jsonrpc");
            assert!(matches!(&fs[0].1, JsonValue::Str(s) if s == "2.0"));
            assert_eq!(fs[1].0, "method");
            assert!(matches!(&fs[1].1, JsonValue::Str(s) if s == "create_vhost"));
            assert_eq!(fs[2].0, "params");
            assert_eq!(fs[3].0, "id");
            assert!(matches!(&fs[3].1, JsonValue::Str(s) if s == "uuid-1"));
        },
        _ => panic!("request envelope is not an object"),
    }
}
