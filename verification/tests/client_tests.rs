use nap::api::{
    ApiCall, ApiEndpoint, ErrorCode, IntoParameters, QueryParam, Server, ServerOption, Session,
    SynError, SynResponse, SynResult, User,
};
use nap::login::{new_credentials, LoginCredentials};
use nap::text::{trim_blanks, u32_to_string, u64_to_string};
use nap::values::{card_as_value, opt_as_value, CardView, DataValue, IntoValue, NoteView, RecordField};

fn param(key: &str, value: &str) -> QueryParam {
    QueryParam { key: key.to_string(), value: value.to_string() }
}

fn pairs(ps: &[QueryParam]) -> Vec<(String, String)> {
    ps.iter().map(|p| (p.key.clone(), p.value.clone())).collect()
}

fn endpoint(name: &str, min_version: u32, max_version: u32, path: &str) -> ApiEndpoint {
    ApiEndpoint {
        name: name.to_string(),
        min_version,
        max_version,
        path: path.to_string(),
        request_format: None,
    }
}

#[test]
fn decimal_rendering_is_exact() {
    assert_eq!(u64_to_string(0), "0");
    assert_eq!(u64_to_string(7), "7");
    assert_eq!(u64_to_string(10), "10");
    assert_eq!(u64_to_string(12345), "12345");
    assert_eq!(u64_to_string(u64::MAX), "18446744073709551615");
    assert_eq!(u32_to_string(302), "302");
}

#[test]
fn trimming_strips_surrounding_blanks() {
    assert_eq!(trim_blanks(" \t123456 \n"), "123456");
    assert_eq!(trim_blanks("123456"), "123456");
    assert_eq!(trim_blanks("  "), "");
    assert_eq!(trim_blanks(""), "");
    assert_eq!(trim_blanks(" a b "), "a b");
}

#[test]
fn query_call_is_the_discovery_call() {
    let c = ApiCall::query();
    assert_eq!(c.endpoint, "SYNO.API.Info");
    assert_eq!(c.path, "entry.cgi");
    assert_eq!(c.version, "1");
    assert_eq!(pairs(&c.parameters), vec![("method".to_string(), "query".to_string())]);
}

#[test]
fn uri_is_built_exactly() {
    let server = Server::new("nas.example.com".to_string());
    let c = ApiCall::query();
    assert_eq!(
        c.uri(&server),
        "https://nas.example.com/webapi/entry.cgi?api=SYNO.API.Info&version=1&method=query"
    );
}

#[test]
fn uri_without_parameters_has_no_tail() {
    let server = Server::new("nas".to_string());
    let c = ApiCall {
        endpoint: "SYNO.X".to_string(),
        path: "entry.cgi".to_string(),
        version: "2".to_string(),
        parameters: vec![],
    };
    assert_eq!(c.uri(&server), "https://nas/webapi/entry.cgi?api=SYNO.X&version=2");
}

#[test]
fn uri_joins_parameters_in_order() {
    let server = Server::new("nas".to_string());
    let c = ApiCall {
        endpoint: "SYNO.X".to_string(),
        path: "entry.cgi".to_string(),
        version: "2".to_string(),
        parameters: vec![param("method", "list"), param("offset", "0")],
    };
    assert_eq!(
        c.uri(&server),
        "https://nas/webapi/entry.cgi?api=SYNO.X&version=2&method=list&offset=0"
    );
}

#[test]
fn prepare_call_resolves_endpoint_and_version() {
    let mut server = Server::new("nas".to_string());
    server.endpoints = vec![endpoint("SYNO.NoteStation.Note", 1, 3, "entry.cgi")];
    let c = server
        .prepare_call(&"SYNO.NoteStation.Note".to_string(), vec![param("method", "list")], Some(2))
        .unwrap();
    assert_eq!(c.endpoint, "SYNO.NoteStation.Note");
    assert_eq!(c.path, "entry.cgi");
    assert_eq!(c.version, "2");
    assert_eq!(pairs(&c.parameters), vec![("method".to_string(), "list".to_string())]);
}

#[test]
fn prepare_call_defaults_to_minimum_version() {
    let mut server = Server::new("nas".to_string());
    server.endpoints = vec![endpoint("SYNO.API.Auth", 3, 7, "auth.cgi")];
    let c = server.prepare_call(&"SYNO.API.Auth".to_string(), vec![], None).unwrap();
    assert_eq!(c.version, "3");
}

#[test]
fn prepare_call_appends_session_identifier() {
    let mut server = Server::with_session("nas".to_string(), "sid-42".to_string());
    server.endpoints = vec![endpoint("SYNO.NoteStation.Note", 1, 3, "entry.cgi")];
    let c = server
        .prepare_call(&"SYNO.NoteStation.Note".to_string(), vec![param("method", "list")], None)
        .unwrap();
    assert_eq!(
        pairs(&c.parameters),
        vec![
            ("method".to_string(), "list".to_string()),
            ("_sid".to_string(), "sid-42".to_string()),
        ]
    );
}

#[test]
fn prepare_call_rejects_unknown_endpoint() {
    let server = Server::new("nas".to_string());
    let r = server.prepare_call(&"SYNO.Missing".to_string(), vec![], None);
    assert_eq!(r.unwrap_err(), SynError::UnknownEndpoint);
}

#[test]
fn prepare_call_rejects_version_out_of_range() {
    let mut server = Server::new("nas".to_string());
    server.endpoints = vec![endpoint("SYNO.API.Auth", 2, 5, "auth.cgi")];
    assert_eq!(
        server.prepare_call(&"SYNO.API.Auth".to_string(), vec![], Some(1)).unwrap_err(),
        SynError::VersionOutOfRange
    );
    assert_eq!(
        server.prepare_call(&"SYNO.API.Auth".to_string(), vec![], Some(6)).unwrap_err(),
        SynError::VersionOutOfRange
    );
    assert!(server.prepare_call(&"SYNO.API.Auth".to_string(), vec![], Some(5)).is_ok());
}

#[test]
fn api_error_codes_map_to_errors() {
    assert_eq!(SynError::from_api_error_code(100), SynError::Unknown);
    assert_eq!(SynError::from_api_error_code(407), SynError::MiscApiError { code: 407 });
}

#[test]
fn response_envelope_resolves_to_data_or_error() {
    let ok: SynResponse<Session> = SynResponse {
        data: SynResult::Success { data: Session { sid: "s1".to_string() } },
        success: true,
    };
    assert_eq!(ok.into_result().unwrap().sid, "s1");

    let err: SynResponse<Session> = SynResponse {
        data: SynResult::Error { error: ErrorCode { code: 119 } },
        success: false,
    };
    assert_eq!(err.into_result().unwrap_err(), SynError::MiscApiError { code: 119 });

    let unknown: SynResponse<User> = SynResponse {
        data: SynResult::Error { error: ErrorCode { code: 100 } },
        success: false,
    };
    assert_eq!(unknown.into_result().unwrap_err(), SynError::Unknown);
}

#[test]
fn missing_server_requires_login_first() {
    let none: Option<Server> = None;
    let e = none.require().unwrap_err();
    assert_eq!(e.label, "Not logged in");
    assert_eq!(e.msg, "Please run `dsn login <server-name>` first.");

    let some = Some(Server::new("nas".to_string()));
    assert_eq!(some.require().unwrap().name, "nas");
}

#[test]
fn parameters_pass_through_into_parameters() {
    let ps = vec![param("method", "get")];
    let out = ps.into_parameters();
    assert_eq!(pairs(&out), vec![("method".to_string(), "get".to_string())]);
}

#[test]
fn credentials_normalize_the_one_time_code() {
    let c = new_credentials("ada".to_string(), "pw".to_string(), " 123456 ".to_string());
    assert_eq!(c.username, "ada");
    assert_eq!(c.password, "pw");
    assert_eq!(c.otp, Some("123456".to_string()));

    let c = new_credentials("ada".to_string(), "pw".to_string(), "   ".to_string());
    assert_eq!(c.otp, None);
}

#[test]
fn login_parameters_are_exact() {
    let c = LoginCredentials {
        username: "ada".to_string(),
        password: "pw".to_string(),
        otp: None,
    };
    assert_eq!(
        pairs(&c.login_parameters()),
        vec![
            ("method".to_string(), "login".to_string()),
            ("format".to_string(), "sid".to_string()),
            ("account".to_string(), "ada".to_string()),
            ("passwd".to_string(), "pw".to_string()),
        ]
    );
    let c = LoginCredentials {
        username: "ada".to_string(),
        password: "pw".to_string(),
        otp: Some("123456".to_string()),
    };
    assert_eq!(
        pairs(&c.login_parameters()),
        vec![
            ("method".to_string(), "login".to_string()),
            ("format".to_string(), "sid".to_string()),
            ("account".to_string(), "ada".to_string()),
            ("passwd".to_string(), "pw".to_string()),
            ("otp_code".to_string(), "123456".to_string()),
        ]
    );
}

fn record_fields(v: &DataValue) -> &Vec<RecordField> {
    match v {
        DataValue::Record(fs) => fs,
        _ => panic!("expected a record"),
    }
}

fn str_of(v: &DataValue) -> &str {
    match v {
        DataValue::Str(s) => s,
        _ => panic!("expected a string value"),
    }
}

#[test]
fn card_record_shows_the_card_fields() {
    let card = CardView {
        arena_id: Some(1234),
        id: "a-b-c".to_string(),
        lang: "en".to_string(),
        name: "Black Lotus".to_string(),
        mtgo_id: None,
        color_identity: vec!["W".to_string(), "U".to_string()],
    };
    let v = card_as_value(&card);
    let fs = record_fields(&v);
    let names: Vec<&str> = fs.iter().map(|f| f.name.as_str()).collect();
    assert_eq!(names, vec!["arena_id", "uuid", "lang", "mtgo_id", "name", "color_identity"]);
    assert_eq!(str_of(&fs[0].value), "1234");
    assert_eq!(str_of(&fs[1].value), "a-b-c");
    assert_eq!(str_of(&fs[2].value), "en");
    assert!(matches!(fs[3].value, DataValue::Nothing));
    assert_eq!(str_of(&fs[4].value), "Black Lotus");
    match &fs[5].value {
        DataValue::List(colors) => {
            assert_eq!(colors.len(), 2);
            assert_eq!(str_of(&colors[0]), "W");
            assert_eq!(str_of(&colors[1]), "U");
        }
        _ => panic!("expected a list of colors"),
    }
}

#[test]
fn note_record_includes_content_only_when_present() {
    let note = NoteView {
        title: "Groceries".to_string(),
        content: Some("milk".to_string()),
        brief: "milk…".to_string(),
        object_id: "n-1".to_string(),
    };
    let fs_owned = note.into_value();
    let fs = record_fields(&fs_owned);
    let names: Vec<&str> = fs.iter().map(|f| f.name.as_str()).collect();
    assert_eq!(names, vec!["title", "content", "brief", "id"]);
    assert_eq!(str_of(&fs[1].value), "milk");

    let bare = NoteView {
        title: "Groceries".to_string(),
        content: None,
        brief: "milk…".to_string(),
        object_id: "n-1".to_string(),
    };
    let fs_owned = bare.into_value();
    let fs = record_fields(&fs_owned);
    let names: Vec<&str> = fs.iter().map(|f| f.name.as_str()).collect();
    assert_eq!(names, vec!["title", "brief", "id"]);
}

#[test]
fn value_lists_render_each_element() {
    let notes = vec![
        NoteView {
            title: "a".to_string(),
            content: None,
            brief: "b".to_string(),
            object_id: "1".to_string(),
        },
        NoteView {
            title: "c".to_string(),
            content: None,
            brief: "d".to_string(),
            object_id: "2".to_string(),
        },
    ];
    match notes.into_value() {
        DataValue::List(vs) => assert_eq!(vs.len(), 2),
        _ => panic!("expected a list"),
    }
}

#[test]
fn absent_values_render_as_nothing() {
    assert!(matches!(opt_as_value(None), DataValue::Nothing));
    match opt_as_value(Some(DataValue::Bool(true))) {
        DataValue::Bool(b) => assert!(b),
        _ => panic!("expected the value back"),
    }
}
