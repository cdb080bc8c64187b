use opa::int_str;
use opa::json::json_string;
use opa::report::Data;
use opa::types::opa::{OpaInput, Response};
use opa::types::opadata::{Name, Opadata, PrivateProject, Roles, Traits};

#[test]
fn int_str_renders_decimal() {
    assert_eq!(int_str(0), "0");
    assert_eq!(int_str(7), "7");
    assert_eq!(int_str(222), "222");
    assert_eq!(int_str(-42), "-42");
    assert_eq!(int_str(i64::MAX), "9223372036854775807");
    assert_eq!(int_str(i64::MIN), "-9223372036854775808");
}

#[test]
fn json_string_escapes() {
    assert_eq!(json_string("plain"), "\"plain\"");
    assert_eq!(json_string(""), "\"\"");
    assert_eq!(json_string("a\"b"), "\"a\\\"b\"");
    assert_eq!(json_string("a\\b"), "\"a\\\\b\"");
    assert_eq!(json_string("line\nbreak"), "\"line\\nbreak\"");
    assert_eq!(json_string("tab\there"), "\"tab\\there\"");
    assert_eq!(json_string("cr\rhere"), "\"cr\\rhere\"");
    assert_eq!(json_string("\u{1}"), "\"\\u0001\"");
    assert_eq!(json_string("\u{1f}"), "\"\\u001f\"");
    assert_eq!(json_string("héllo"), "\"héllo\"");
}

#[test]
fn opa_input_document() {
    let i = OpaInput {
        resource: "222".to_owned(),
        method: "get".to_owned(),
        uri: "api/projects".to_owned(),
        role: "admin".to_owned(),
    };
    assert_eq!(
        i.to_json(),
        r#"{"resource":"222","method":"get","uri":"api/projects","role":"admin"}"#
    );
}

#[test]
fn response_documents() {
    let yes = Response { validate: true };
    let no = Response { validate: false };
    assert_eq!(yes.to_json(), r#"{"validate":true}"#);
    assert_eq!(no.to_json(), r#"{"validate":false}"#);
    assert_eq!(yes.to_bare_json(), "true");
    assert_eq!(no.to_bare_json(), "false");
}

#[test]
fn error_record_document() {
    let d = Data {
        code: "opa_error".to_owned(),
        message: "should never be empty.".to_owned(),
    };
    assert_eq!(
        d.to_json(),
        r#"{"code":"opa_error","message":"should never be empty."}"#
    );
}

#[test]
fn opadata_document() {
    let d = Opadata {
        id: "12a9733f".to_owned(),
        traits: Traits {
            email: "test2@wildcard.io".to_owned(),
            name: Name {
                first: "testy".to_owned(),
                last: "testo".to_owned(),
            },
            roles: Roles {
                organizations: vec![],
                private_projects: vec![PrivateProject {
                    key: 222,
                    value: "admin".to_owned(),
                }],
                scopes: vec!["read".to_owned(), "write".to_owned()],
                affiliate_projects: vec![],
            },
        },
        created_at: "2021-12-02".to_owned(),
        updated_at: "2021-12-03".to_owned(),
    };
    let mut expected = String::new();
    expected.push_str(r#"{"id":"12a9733f","traits":{"email":"test2@wildcard.io","#);
    expected.push_str(r#""name":{"first":"testy","last":"testo"},"#);
    expected.push_str(r#""roles":{"organizations":[],"#);
    expected.push_str(r#""private_projects":[{"key":222,"value":"admin"}],"#);
    expected.push_str(r#""scopes":["read","write"],"affiliate_projects":[]}},"#);
    expected.push_str(r#""created_at":"2021-12-02","updated_at":"2021-12-03"}"#);
    assert_eq!(d.to_json(), expected);
}

#[test]
fn opadata_document_parses_back() {
    let d = Opadata {
        id: "x\"y".to_owned(),
        traits: Traits {
            email: "a\\b".to_owned(),
            name: Name {
                first: "new\nline".to_owned(),
                last: "".to_owned(),
            },
            roles: Roles {
                organizations: vec!["o1".to_owned()],
                private_projects: vec![],
                scopes: vec![],
                affiliate_projects: vec![],
            },
        },
        created_at: "".to_owned(),
        updated_at: "".to_owned(),
    };
    let parsed: serde_json::Value = serde_json::from_str(&d.to_json()).unwrap();
    assert_eq!(parsed["id"], "x\"y");
    assert_eq!(parsed["traits"]["email"], "a\\b");
    assert_eq!(parsed["traits"]["name"]["first"], "new\nline");
    assert_eq!(parsed["traits"]["roles"]["organizations"][0], "o1");
}
