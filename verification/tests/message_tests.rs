use deepseek_api::errors::ApiError;
use deepseek_api::schema::message::{Message, MessageBuilder, Role};

#[test]
fn role_accepts_every_casing_and_stores_the_canonical_name() {
    for text in ["user", "USER", "User", "uSeR"] {
        let message = Message::builder().role(text).unwrap().content("hi").build().unwrap();
        assert_eq!(message.role, "user");
    }
    for (text, name) in [("ASSISTANT", "assistant"), ("System", "system"), ("tOOl", "tool")] {
        let message = MessageBuilder::new().content("x").role(text).unwrap().build().unwrap();
        assert_eq!(message.role, name);
    }
}

#[test]
fn role_rejects_what_is_no_role() {
    for text in ["", "users", "use", "developer", " user", "user ", "us\\u0065r", "\"user\"", "ｕｓｅｒ"] {
        let refused = Message::builder().role(text);
        assert!(matches!(refused, Err(ApiError::BuildFailed(_))), "{}", text);
    }
}

#[test]
fn role_parse_and_name_round_trip() {
    for role in [Role::Assistant, Role::System, Role::User, Role::Tool] {
        assert_eq!(Role::parse(role.as_str()), Some(role));
        assert_eq!(Role::parse(&role.to_string().to_uppercase()), Some(role));
        assert_eq!(role.to_string(), role.as_str());
    }
    assert_eq!(Role::Assistant.as_str(), "assistant");
    assert_eq!(Role::System.as_str(), "system");
    assert_eq!(Role::User.as_str(), "user");
    assert_eq!(Role::Tool.as_str(), "tool");
    assert_eq!(Role::parse("robot"), None);
}

#[test]
fn message_build_needs_content_and_role() {
    assert!(matches!(Message::builder().build(), Err(ApiError::BuildFailed(_))));
    assert!(matches!(Message::builder().content("x").build(), Err(ApiError::BuildFailed(_))));
    assert!(matches!(
        Message::builder().role("user").unwrap().build(),
        Err(ApiError::BuildFailed(_))
    ));
    assert!(matches!(
        Message::builder().name("n").tool_call_id("id").build(),
        Err(ApiError::BuildFailed(_))
    ));
    let error = Message::builder().build().unwrap_err();
    assert_eq!(
        error.to_string(),
        "Building failed: Building message failed because there is 1 or missing paramters"
    );
}

#[test]
fn message_build_keeps_what_was_set() {
    let message = Message::builder()
        .content("first")
        .role("tool")
        .unwrap()
        .name("probe")
        .tool_call_id("call_1")
        .content("JSON is valid against schema")
        .build()
        .unwrap();
    assert_eq!(message.content, "JSON is valid against schema");
    assert_eq!(message.role, "tool");
    assert_eq!(message.name.as_deref(), Some("probe"));
    assert_eq!(message.tool_call_id.as_deref(), Some("call_1"));
    assert!(message.tool_calls.is_none());

    let plain = Message::builder().role("system").unwrap().content("c").build().unwrap();
    assert!(plain.name.is_none());
    assert!(plain.tool_call_id.is_none());
    assert!(plain.tool_calls.is_none());
}

#[test]
fn default_builder_is_empty() {
    assert!(MessageBuilder::default().build().is_err());
}
