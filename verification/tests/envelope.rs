use openai::anthrophic_chat::{AnthropicChatCompletion, AnthropicChatCompletionContent};
use openai::chat::{ChatCompletion, ChatCompletionMessageRole};
use openai::envelope::{decode_document, decode_response, mismatch_error, ApiResponse, FromJson};
use openai::error::OpenAiError;
use openai::json::{parse_decimal, same_text, Json};
use openai::usage::{AnthropicUsage, Usage};

fn completion_body(extra: &str) -> String {
    format!(
        "{{{}\"id\":\"msg_01\",\"type\":\"message\",\"role\":\"assistant\",\
         \"model\":\"chat-large-20241022\",\
         \"content\":[{{\"type\":\"text\",\"text\":\"Hi there! How can I help you today?\"}}],\
         \"stop_reason\":\"end_turn\",\"stop_sequence\":null,\
         \"usage\":{{\"input_tokens\":9,\"cache_creation_input_tokens\":0,\
         \"cache_read_input_tokens\":0,\"output_tokens\":12}}}}",
        extra
    )
}

const MISMATCH: &str = "data matches neither the payload nor the error shape";

#[test]
fn error_envelope_keeps_its_fields() {
    let body = "{\"error\":{\"message\":\"invalid_api_key\",\"type\":\"authentication_error\"}}";
    let error = decode_response::<AnthropicChatCompletion>(body).unwrap_err();
    assert_eq!(error.message, "invalid_api_key");
    assert_eq!(error.error_type, "authentication_error");
    assert_eq!(error.param, None);
    assert_eq!(error.code, None);
}

#[test]
fn error_envelope_with_param_and_code() {
    let body = "{\"error\":{\"message\":\"m\",\"type\":\"t\",\"param\":\"model\",\"code\":\"404\"}}";
    let error = decode_response::<ChatCompletion>(body).unwrap_err();
    assert_eq!(
        error,
        OpenAiError {
            message: "m".to_string(),
            error_type: "t".to_string(),
            param: Some("model".to_string()),
            code: Some("404".to_string()),
        }
    );
    let body = "{\"error\":{\"message\":\"m\",\"type\":\"t\",\"param\":null,\"code\":null}}";
    let error = decode_response::<ChatCompletion>(body).unwrap_err();
    assert_eq!(error, OpenAiError::new("m".to_string(), "t".to_string()));
}

#[test]
fn completion_with_one_text_block() {
    let completion = decode_response::<AnthropicChatCompletion>(&completion_body("")).unwrap();
    assert_eq!(completion.id, "msg_01");
    assert_eq!(completion.typ, "message");
    assert_eq!(completion.role, "assistant");
    assert_eq!(completion.model, "chat-large-20241022");
    assert_eq!(completion.content.len(), 1);
    assert_eq!(completion.content[0].typ, "text");
    assert!(!completion.content[0].text.is_empty());
    assert_eq!(completion.content[0].text.trim(), "Hi there! How can I help you today?");
    assert_eq!(completion.stop_reason, "end_turn");
    assert_eq!(completion.stop_sequence, None);
    assert_eq!(
        completion.usage,
        Some(AnthropicUsage {
            input_tokens: 9,
            cache_creation_input_tokens: 0,
            cache_read_input_tokens: 0,
            output_tokens: 12,
        })
    );
}

#[test]
fn first_provider_completion_with_consistent_usage() {
    let body = "{\"id\":\"chatcmpl-1\",\"object\":\"chat.completion\",\"created\":1700000000,\
        \"model\":\"gpt-4o-mini\",\"choices\":[{\"index\":0,\"finish_reason\":\"stop\",\
        \"message\":{\"role\":\"assistant\",\"content\":\"Hello! How can I help?\"}}],\
        \"usage\":{\"prompt_tokens\":9,\"completion_tokens\":7,\"total_tokens\":16}}";
    let completion = decode_response::<ChatCompletion>(body).unwrap();
    assert_eq!(completion.choices.len(), 1);
    assert_eq!(completion.choices[0].message.role, ChatCompletionMessageRole::Assistant);
    assert_eq!(completion.content().unwrap(), "Hello! How can I help?");
    assert!(completion.choices[0].message.is_well_formed());
    let usage = completion.usage.unwrap();
    assert_eq!(usage, Usage { prompt_tokens: 9, completion_tokens: 7, total_tokens: 16 });
    assert!(usage.is_consistent());
    assert!(!Usage { prompt_tokens: 9, completion_tokens: 7, total_tokens: 17 }.is_consistent());
    assert!(!Usage { prompt_tokens: u32::MAX, completion_tokens: 1, total_tokens: 0 }.is_consistent());
}

#[test]
fn members_beyond_the_shape_are_ignored() {
    let completion =
        decode_response::<AnthropicChatCompletion>(&completion_body("\"extra\":[1,{\"a\":true}],"))
            .unwrap();
    assert_eq!(completion.id, "msg_01");
}

#[test]
fn body_with_error_member_is_never_a_payload() {
    let body = completion_body("\"error\":5,");
    let error = decode_response::<AnthropicChatCompletion>(&body).unwrap_err();
    assert_eq!(error.message, MISMATCH);
    assert_eq!(error.error_type, "json_parse_error");
    let body = completion_body("\"error\":{\"message\":\"m\"},");
    assert_eq!(decode_response::<AnthropicChatCompletion>(&body).unwrap_err(), mismatch_error());
    let body = completion_body("\"error\":{\"message\":\"m\",\"type\":\"t\"},");
    let error = decode_response::<AnthropicChatCompletion>(&body).unwrap_err();
    assert_eq!(error, OpenAiError::new("m".to_string(), "t".to_string()));
}

#[test]
fn body_of_neither_shape_is_a_decode_failure() {
    for body in ["{}", "[]", "null", "3", "\"text\"", "{\"id\":\"x\"}"] {
        let error = decode_response::<AnthropicChatCompletion>(body).unwrap_err();
        assert_eq!(error.message, MISMATCH);
        assert_eq!(error.error_type, "json_parse_error");
        assert_eq!(error.param, None);
        assert_eq!(error.code, None);
    }
}

#[test]
fn missing_or_misplaced_member_is_a_decode_failure() {
    let good = completion_body("");
    assert!(decode_response::<AnthropicChatCompletion>(&good).is_ok());
    let no_reason = good.replace("\"stop_reason\":\"end_turn\",", "");
    assert_eq!(decode_response::<AnthropicChatCompletion>(&no_reason).unwrap_err().message, MISMATCH);
    let null_reason = good.replace("\"stop_reason\":\"end_turn\"", "\"stop_reason\":null");
    assert!(decode_response::<AnthropicChatCompletion>(&null_reason).is_err());
    let no_block_type = good.replace("\"type\":\"text\",", "");
    assert!(decode_response::<AnthropicChatCompletion>(&no_block_type).is_err());
    let short_usage = good.replace("\"cache_read_input_tokens\":0,", "");
    assert!(decode_response::<AnthropicChatCompletion>(&short_usage).is_err());
    let fraction = good.replace("\"output_tokens\":12", "\"output_tokens\":12.5");
    assert!(decode_response::<AnthropicChatCompletion>(&fraction).is_err());
    let negative = good.replace("\"output_tokens\":12", "\"output_tokens\":-1");
    assert!(decode_response::<AnthropicChatCompletion>(&negative).is_err());
    let number_sequence = good.replace("\"stop_sequence\":null", "\"stop_sequence\":7");
    assert!(decode_response::<AnthropicChatCompletion>(&number_sequence).is_err());
}

#[test]
fn optional_members_may_be_missing() {
    let body = "{\"id\":\"a\",\"type\":\"message\",\"role\":\"assistant\",\"model\":\"m\",\
        \"content\":[],\"stop_reason\":\"max_tokens\"}";
    let completion = decode_response::<AnthropicChatCompletion>(body).unwrap();
    assert_eq!(completion.content, Vec::<AnthropicChatCompletionContent>::new());
    assert_eq!(completion.stop_sequence, None);
    assert_eq!(completion.usage, None);
    let body = "{\"id\":\"a\",\"type\":\"message\",\"role\":\"assistant\",\"model\":\"m\",\
        \"content\":[],\"stop_reason\":\"stop_sequence\",\"stop_sequence\":\"END\",\"usage\":null}";
    let completion = decode_response::<AnthropicChatCompletion>(body).unwrap();
    assert_eq!(completion.stop_sequence, Some("END".to_string()));
    assert_eq!(completion.usage, None);
}

#[test]
fn text_that_is_not_json_carries_the_parser_message() {
    let error = decode_response::<AnthropicChatCompletion>("oops").unwrap_err();
    assert_eq!(error.message, "expected value at line 1 column 1");
    assert_eq!(error.error_type, "json_parse_error");
    assert_eq!(error.param, None);
    assert_eq!(error.code, None);
    let error = decode_response::<AnthropicChatCompletion>("{\"id\":").unwrap_err();
    assert_eq!(error.message, "EOF while parsing a value at line 1 column 6");
    let error = decode_response::<ChatCompletion>("").unwrap_err();
    assert_eq!(error.message, "EOF while parsing a value at line 1 column 0");
}

#[test]
fn parser_error_becomes_an_error_of_the_library() {
    let outside = serde_json::from_str::<serde_json::Value>("[1,").unwrap_err();
    let text = outside.to_string();
    let error = OpenAiError::from(outside);
    assert_eq!(error.message, text);
    assert_eq!(error.error_type, "json_parse_error");
    assert_eq!(error.param, None);
    assert_eq!(error.code, None);
}

#[test]
fn io_error_becomes_an_error_of_the_library() {
    let error = OpenAiError::from(std::io::Error::new(std::io::ErrorKind::Other, "disk is gone"));
    assert_eq!(error.message, "disk is gone");
    assert_eq!(error.error_type, "io");
    assert_eq!(error.param, None);
    assert_eq!(error.code, None);
}

#[test]
fn transport_error_becomes_an_error_of_the_library() {
    let outside = reqwest::Client::new().get("no address").build().unwrap_err();
    let text = outside.to_string();
    let error = OpenAiError::from(outside);
    assert_eq!(error.message, text);
    assert!(!error.message.is_empty());
    assert_eq!(error.error_type, "reqwest");
    assert_eq!(error.param, None);
    assert_eq!(error.code, None);
}

#[test]
fn error_shows_its_message() {
    let error = OpenAiError::new("rate limited".to_string(), "rate_limit".to_string());
    assert_eq!(error.to_string(), "rate limited");
    assert_eq!(error.error_type, "rate_limit");
    assert_eq!(error.param, None);
    assert_eq!(error.code, None);
}

#[test]
fn counts_are_read_up_to_their_width() {
    let body = "{\"input_tokens\":18446744073709551615,\"cache_creation_input_tokens\":1,\
        \"cache_read_input_tokens\":2,\"output_tokens\":3}";
    let usage = decode_response::<AnthropicUsage>(body).unwrap();
    assert_eq!(usage.input_tokens, u64::MAX);
    assert_eq!(usage.output_tokens, 3);
    let body = "{\"input_tokens\":18446744073709551616,\"cache_creation_input_tokens\":1,\
        \"cache_read_input_tokens\":2,\"output_tokens\":3}";
    assert!(decode_response::<AnthropicUsage>(body).is_err());
    let body = "{\"prompt_tokens\":4294967295,\"completion_tokens\":0,\"total_tokens\":4294967295}";
    let usage = decode_response::<Usage>(body).unwrap();
    assert_eq!(usage.prompt_tokens, u32::MAX);
    assert!(usage.is_consistent());
    let body = "{\"prompt_tokens\":4294967296,\"completion_tokens\":0,\"total_tokens\":0}";
    assert!(decode_response::<Usage>(body).is_err());
}

#[test]
fn decimal_digits_are_read_exactly() {
    assert_eq!(parse_decimal("0", u64::MAX), Some(0));
    assert_eq!(parse_decimal("007", u64::MAX), Some(7));
    assert_eq!(parse_decimal("18446744073709551615", u64::MAX), Some(u64::MAX));
    assert_eq!(parse_decimal("18446744073709551616", u64::MAX), None);
    assert_eq!(parse_decimal("99999999999999999999999", u64::MAX), None);
    assert_eq!(parse_decimal("255", 255), Some(255));
    assert_eq!(parse_decimal("256", 255), None);
    assert_eq!(parse_decimal("", u64::MAX), None);
    assert_eq!(parse_decimal("-1", u64::MAX), None);
    assert_eq!(parse_decimal("1.0", u64::MAX), None);
    assert_eq!(parse_decimal("12a", u64::MAX), None);
    assert_eq!(parse_decimal("١٢", u64::MAX), None);
}

#[test]
fn members_are_found_by_name() {
    let doc = Json::Object(vec![
        ("a".to_string(), Json::Number("1".to_string())),
        ("b".to_string(), Json::Text("x".to_string())),
        ("a".to_string(), Json::Null),
    ]);
    assert_eq!(doc.get("a"), Some(&Json::Number("1".to_string())));
    assert_eq!(doc.get("b").unwrap().as_text(), Some(&"x".to_string()));
    assert_eq!(doc.get("c"), None);
    assert_eq!(doc.get("a").unwrap().as_unsigned(10), Some(1));
    assert_eq!(doc.get("a").unwrap().as_unsigned(0), None);
    assert_eq!(doc.get("b").unwrap().as_unsigned(10), None);
    assert_eq!(Json::Null.get("a"), None);
    assert!(Json::Null.is_null());
    assert!(!doc.is_null());
    assert_eq!(Json::Array(vec![Json::Bool(true)]).as_items(), Some(&vec![Json::Bool(true)]));
    assert_eq!(doc.as_items(), None);
    assert_eq!(Json::Bool(false).as_text(), None);
    assert!(same_text("ab", "ab"));
    assert!(!same_text("ab", "abc"));
}

#[test]
fn document_built_by_hand_decodes_like_a_parsed_one() {
    let doc = Json::Object(vec![(
        "error".to_string(),
        Json::Object(vec![
            ("type".to_string(), Json::Text("overloaded_error".to_string())),
            ("message".to_string(), Json::Text("Overloaded".to_string())),
        ]),
    )]);
    let error = decode_document::<AnthropicChatCompletion>(&doc).unwrap_err();
    assert_eq!(error, OpenAiError::new("Overloaded".to_string(), "overloaded_error".to_string()));
    match ApiResponse::<AnthropicChatCompletion>::from_json(&doc) {
        Some(ApiResponse::Failure { error }) => assert_eq!(error.message, "Overloaded"),
        _ => panic!("the provider's error was expected"),
    }
    let block = Json::Object(vec![
        ("type".to_string(), Json::Text("text".to_string())),
        ("text".to_string(), Json::Text("hello".to_string())),
    ]);
    match ApiResponse::<AnthropicChatCompletionContent>::from_json(&block) {
        Some(ApiResponse::Success(b)) => assert_eq!(b.text, "hello"),
        _ => panic!("the payload was expected"),
    }
    let response = ApiResponse::<AnthropicChatCompletionContent>::from_json(&block).unwrap();
    assert_eq!(response.into_result().unwrap().typ, "text");
    assert!(ApiResponse::<AnthropicChatCompletionContent>::from_json(&Json::Null).is_none());
    assert_eq!(AnthropicChatCompletionContent::from_json(&Json::Array(vec![])), None);
}

#[test]
fn parsed_numbers_keep_their_text() {
    let body = "{\"id\":\"c\",\"object\":\"o\",\"created\":0,\"model\":\"m\",\"choices\":[]}";
    let completion = decode_response::<ChatCompletion>(body).unwrap();
    assert_eq!(completion.created, 0);
    assert_eq!(completion.content(), None);
    let body = "{\"id\":\"c\",\"object\":\"o\",\"created\":1e3,\"model\":\"m\",\"choices\":[]}";
    assert!(decode_response::<ChatCompletion>(body).is_err());
}

#[test]
fn text_is_parsed_into_a_document() {
    let doc = openai::json::parse_value(" {\"b\":[1,-2,2.5,true,null],\"a\":\"x\"} ").unwrap();
    assert_eq!(doc.get("a"), Some(&Json::Text("x".to_string())));
    assert_eq!(
        doc.get("b"),
        Some(&Json::Array(vec![
            Json::Number("1".to_string()),
            Json::Number("-2".to_string()),
            Json::Number("2.5".to_string()),
            Json::Bool(true),
            Json::Null,
        ]))
    );
    assert_eq!(openai::json::parse_value("7").unwrap(), Json::Number("7".to_string()));
    assert_eq!(
        openai::json::parse_value("{\"k\":1,\"k\":2}").unwrap(),
        Json::Object(vec![("k".to_string(), Json::Number("2".to_string()))])
    );
    let error = openai::json::parse_value("{} x").unwrap_err();
    assert_eq!(error.to_string(), "trailing characters at line 1 column 4");
}
