use rs_tcp::auth::{generate_auth, Auth};

#[test]
fn auth_json_layout() {
    let a = Auth { pw: "1234".to_string(), rand: "abcXYZ09".to_string() };
    assert_eq!(a.to_json(), "{\"pw\":\"1234\",\"rand\":\"abcXYZ09\"}");
}

#[test]
fn auth_json_escapes_secret() {
    let a = Auth { pw: "a\"b\\c\n".to_string(), rand: "r".to_string() };
    assert_eq!(a.to_json(), "{\"pw\":\"a\\\"b\\\\c\\n\",\"rand\":\"r\"}");
}

#[test]
fn generated_auth_carries_secret_and_token() {
    for _ in 0..20 {
        let msg = generate_auth("test".to_string());
        let v: serde_json::Value = serde_json::from_str(&msg).unwrap();
        assert_eq!(v["pw"], "test");
        let token = v["rand"].as_str().unwrap();
        assert!(!token.is_empty() && token.len() < 255);
        assert!(token.chars().all(|c| c.is_ascii_alphanumeric()));
        assert_eq!(msg, format!("{{\"pw\":\"test\",\"rand\":\"{}\"}}", token));
    }
}
