use aws_push_code::effect::secret::deploy_key_text;

#[test]
fn deploy_key_from_a_json_string() {
    assert_eq!(deploy_key_text("\"-----BEGIN KEY-----\\nabc\\n-----END KEY-----\""), "-----BEGIN KEY-----\nabc\n-----END KEY-----");
}

#[test]
fn deploy_key_from_plain_text() {
    assert_eq!(deploy_key_text("-----BEGIN KEY-----\nabc"), "-----BEGIN KEY-----\nabc");
    assert_eq!(deploy_key_text("{\"key\":\"abc\"}"), "{\"key\":\"abc\"}");
    assert_eq!(deploy_key_text(""), "");
}
