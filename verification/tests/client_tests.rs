use deepseek_api::client::{authorization, chat_endpoint, outcome};
use deepseek_api::errors::ApiError;
use deepseek_api::prelude::{ChatCompletionsRequest, ChatCompletionsResponse, Message};
use deepseek_api::schema::response::{ChatCompletion, Usage};
use deepseek_api::schema::tool::{FunctionCall, Tool, ToolCall, ToolFunction};

fn said(role: &str, content: &str) -> Message {
    Message::builder().role(role).unwrap().content(content).build().unwrap()
}

fn reply_with(message: Message, finish_reason: &str) -> ChatCompletionsResponse {
    ChatCompletionsResponse {
        choices: vec![ChatCompletion {
            finish_reason: finish_reason.to_string(),
            index: 0,
            logprobs: None,
            message,
        }],
        created: 1_700_000_000,
        id: "reply-1".to_string(),
        model: "deepseek-chat".to_string(),
        object: "chat.completion".to_string(),
        system_fingerprint: "fp".to_string(),
        usage: Usage {
            completion_tokens: 1,
            prompt_cache_hit_tokens: 0,
            prompt_cache_miss_tokens: 7,
            prompt_tokens: 7,
            total_tokens: 8,
        },
    }
}

fn transport_failure() -> reqwest::Error {
    match reqwest::Client::builder().build() {
        Ok(client) => client.get("http://[").build().unwrap_err(),
        Err(error) => error,
    }
}

fn codec_failure() -> serde_json::Error {
    serde_json::from_str::<serde_json::Value>("{\"choices\": ").unwrap_err()
}

#[test]
fn endpoint_is_the_chat_completions_path_of_the_service() {
    assert_eq!(chat_endpoint(), "https://api.deepseek.com/chat/completions");
}

#[test]
fn authorization_carries_the_key_as_bearer() {
    let header = authorization("sk-0123456789abcdef").unwrap();
    assert_eq!(header.as_bytes(), b"Bearer sk-0123456789abcdef");
    assert_eq!(authorization("").unwrap().as_bytes(), b"Bearer ");
    assert_eq!(authorization("a b\tc~!").unwrap().as_bytes(), b"Bearer a b\tc~!");
}

#[test]
fn authorization_refuses_what_a_header_cannot_hold() {
    assert!(authorization("key\n").is_none());
    assert!(authorization("ke\ry").is_none());
    assert!(authorization("\u{0}").is_none());
    assert!(authorization("key\u{7f}").is_none());
    assert!(authorization("clé").is_none());
    assert!(authorization("ключ").is_none());
}

#[test]
fn outcome_hands_on_the_reply() {
    let request = ChatCompletionsRequest::builder()
        .messages(vec![said("user", "2+2?")])
        .model("x")
        .build()
        .unwrap();
    let transport = |request: &ChatCompletionsRequest| {
        assert_eq!(request.messages.len(), 1);
        assert_eq!(request.messages[0].role, "user");
        assert_eq!(request.messages[0].content, "2+2?");
        assert_eq!(request.model, "x");
        Ok(Ok(reply_with(said("assistant", "4"), "stop")))
    };
    let response = outcome(transport(&request)).unwrap();
    assert_eq!(response.choices[0].message.content, "4");
    assert_eq!(response.choices[0].finish_reason, "stop");
    assert_eq!(response.usage.total_tokens, 8);
    assert_eq!(response.id, "reply-1");
}

#[test]
fn outcome_reports_a_transport_failure() {
    let failure = transport_failure();
    let text = failure.to_string();
    match outcome(Err(failure)) {
        Err(ApiError::RequestError(cause)) => {
            assert_eq!(cause.to_string(), text);
            assert_eq!(
                ApiError::RequestError(cause).to_string(),
                format!("Request failed: {}", text)
            );
        },
        other => panic!("unexpected outcome: {:?}", other),
    }
}

#[test]
fn outcome_reports_a_malformed_body() {
    let failure = codec_failure();
    let text = failure.to_string();
    match outcome(Ok(Err(failure))) {
        Err(ApiError::SerdeJsonError(cause)) => {
            assert_eq!(cause.to_string(), text);
            assert_eq!(
                ApiError::SerdeJsonError(cause).to_string(),
                format!("Serde failed: {}", text)
            );
        },
        other => panic!("unexpected outcome: {:?}", other),
    }
}

#[test]
fn errors_convert_from_their_causes() {
    assert!(matches!(ApiError::from(codec_failure()), ApiError::SerdeJsonError(_)));
    assert!(matches!(ApiError::from(transport_failure()), ApiError::RequestError(_)));
    assert_eq!(ApiError::BuildFailed("why").to_string(), "Building failed: why");
}

#[test]
fn a_tool_call_is_answered_in_a_follow_up_request() {
    let messages = vec![said("system", "Use the tools."), said("user", "Check this.")];
    let prior = messages.len();

    let mut asking = said("assistant", "");
    asking.tool_calls = Some(vec![ToolCall {
        id: "call_7".to_string(),
        tool_type: "function".to_string(),
        function: FunctionCall { name: "probe".to_string(), arguments: "{\"a\":1}".to_string() },
    }]);
    let response = outcome(Ok(Ok(reply_with(asking, "tool_calls")))).unwrap();

    let call = &response.choices[0].message.tool_calls.as_ref().unwrap()[0];
    let arguments: serde_json::Value = serde_json::from_str(&call.function.arguments).unwrap();
    let expected: serde_json::Value = serde_json::from_str("{\"a\": 1}").unwrap();
    assert_eq!(arguments, expected);
    assert_eq!(arguments["a"], 1);

    let mut messages = messages;
    messages.push(response.choices[0].message.clone());
    messages.push(
        Message::builder()
            .role("tool")
            .unwrap()
            .content("done")
            .tool_call_id(&call.id)
            .build()
            .unwrap(),
    );
    let follow_up =
        ChatCompletionsRequest::builder().model("x").messages(messages).build().unwrap();
    assert_eq!(follow_up.messages.len(), prior + 2);
    assert_eq!(follow_up.messages[prior].role, "assistant");
    assert_eq!(follow_up.messages[prior].tool_calls.as_ref().unwrap()[0].id, "call_7");
    assert_eq!(follow_up.messages[prior + 1].role, "tool");
    assert_eq!(follow_up.messages[prior + 1].tool_call_id.as_deref(), Some("call_7"));
    assert!(follow_up.messages[prior + 1].tool_calls.is_none());
}

#[test]
fn request_works() {
    let mut messages: Vec<Message> = vec![
        said("system", "You are a helpful counting assistant. Be brief. Reply only with numbers."),
        said("user", "Your objective is to count by 1. Start at 0"),
        said("assistant", "0"),
        said("user", "Count by 1!"),
        said("assistant", "1"),
        said("user", "Count by 1!"),
        said("assistant", "2"),
    ];
    let transport = |request: &ChatCompletionsRequest| {
        let counted = request.messages.iter().filter(|message| message.role == "assistant").count();
        Ok(Ok(reply_with(said("assistant", &counted.to_string()), "stop")))
    };
    let mut rounds = 0;
    loop {
        messages.push(said("user", "Count by 1!"));

        let request = ChatCompletionsRequest::builder()
            .model("deepseek-chat")
            .messages(messages.clone())
            .build()
            .unwrap();
        let resp = outcome(transport(&request)).unwrap();
        let content = &resp.choices[0].message.content;
        println!("Assistant: {}", content);
        rounds += 1;

        if content.contains('5') {
            break;
        }
        messages.push(said("assistant", content));
    }
    assert_eq!(rounds, 3);
    assert_eq!(messages.len(), 12);
}

#[test]
fn json_response_format_works() {
    let mut messages: Vec<Message> = vec![said(
        "system",
        r#"
    The user will provide some exam text. Please parse the "question" and "answer" and output them in JSON format.

    EXAMPLE INPUT:
    Which is the highest mountain in the world? Mount Everest.

    EXAMPLE JSON OUTPUT:
    {
        "question": "Which is the highest mountain in the world?",
        "answer": "Mount Everest"
    }
                    "#,
    )];
    let prompt = "What is the longest river in the world? The Nile River";
    messages.push(said("user", prompt));

    let request = ChatCompletionsRequest::builder()
        .model("deepseek-chat")
        .messages(messages)
        .json()
        .build()
        .unwrap();
    let directive: serde_json::Value = serde_json::from_str("{\"type\":\"json_object\"}").unwrap();
    assert_eq!(request.response_format, Some(directive));

    let body = "{\"question\": \"What is the longest river in the world?\", \"answer\": \"The Nile River\"}";
    let resp = outcome(Ok(Ok(reply_with(said("assistant", body), "stop")))).unwrap();
    let content = &resp.choices[0].message.content;
    println!("Assistant: {}", content);

    let json: serde_json::Value = serde_json::from_str(content).unwrap();
    assert_eq!(json["question"], "What is the longest river in the world?");
    assert_eq!(json["answer"], "The Nile River");
}

#[test]
fn tool_calling_works() {
    let parameters: serde_json::Value = serde_json::from_str(
        r#"{
            "type": "object",
            "properties": {
                "json_string": {
                    "type": "string",
                    "description": "The JSON string to validate"
                },
                "schema": {
                    "type": "string",
                    "description": "The JSON schema to validate against"
                }
            },
            "required": ["json_string", "schema"],
            "additionalProperties": false
        }"#,
    )
    .unwrap();
    let validate_json_function = Tool {
        tool_type: "function".into(),
        function: ToolFunction {
            name: "validate_json".into(),
            description: Some("Validate JSON string against a JSON schema.".into()),
            parameters: Some(parameters),
        },
    };

    let messages = vec![
        said(
            "system",
            "You are a helpful JSON validation assistant. Use the validate_json function to validate JSON when requested.",
        ),
        said(
            "user",
            r#"Can you validate this JSON against a schema that expects a name and age?

                    {
                        "name": "John",
                        "age": 30
                    }"#,
        ),
    ];

    let request = ChatCompletionsRequest::builder()
        .model("deepseek-chat")
        .messages(messages.clone())
        .tools(vec![validate_json_function])
        .build()
        .unwrap();
    assert_eq!(request.tools.as_ref().unwrap()[0].function.name, "validate_json");

    let schema = "{\"type\":\"object\",\"properties\":{\"name\":{\"type\":\"string\"},\"age\":{\"type\":\"integer\"}}}";
    let mut arguments = serde_json::Map::new();
    arguments.insert(
        "json_string".to_string(),
        serde_json::Value::String("{\"name\":\"John\",\"age\":30}".to_string()),
    );
    arguments.insert("schema".to_string(), serde_json::Value::String(schema.to_string()));
    let mut asking = said("assistant", "");
    asking.tool_calls = Some(vec![ToolCall {
        id: "call_0".to_string(),
        tool_type: "function".to_string(),
        function: FunctionCall {
            name: "validate_json".to_string(),
            arguments: serde_json::Value::Object(arguments).to_string(),
        },
    }]);
    let resp = outcome(Ok(Ok(reply_with(asking, "tool_calls")))).unwrap();

    let tool_call = &resp.choices[0].message.tool_calls.as_ref().expect("Expected tool call")[0];
    assert_eq!(tool_call.function.name, "validate_json");

    let args: serde_json::Value = serde_json::from_str(&tool_call.function.arguments).unwrap();
    let schema_value =
        serde_json::from_str::<serde_json::Value>(args["schema"].as_str().unwrap()).unwrap();
    assert_eq!(schema_value["type"], "object");
    assert!(schema_value["properties"]["name"]["type"] == "string");
    assert!(schema_value["properties"]["age"]["type"] == "integer");

    let mut messages = messages;
    messages.push(resp.choices[0].message.clone());
    messages.push(
        Message::builder()
            .role("tool")
            .unwrap()
            .content("JSON is valid against schema")
            .tool_call_id(&tool_call.id)
            .build()
            .unwrap(),
    );

    let request = ChatCompletionsRequest::builder()
        .model("deepseek-chat")
        .messages(messages)
        .build()
        .unwrap();
    assert_eq!(request.messages.len(), 4);

    let resp = outcome(Ok(Ok(reply_with(said("assistant", "The JSON is valid."), "stop")))).unwrap();
    let content = &resp.choices[0].message.content;
    println!("Assistant: {}", content);
    assert!(content.contains("valid"), "Expected response to mention JSON validity");
}
