use flowmode::telegram::{
    chat_id_of_latest, discover_chat_id, file_download_url, file_path_of_response, get_file_url,
    get_updates_url, interpret_send_response, parse_updates_response, poll_updates_url,
    send_document_url, send_message_url, test_connection_text, voice_file_name,
    voice_relative_path, TelegramChat, TelegramMessageData, TelegramUpdate,
};

#[test]
fn send_ack_true_is_success() {
    assert_eq!(interpret_send_response(r#"{"ok":true}"#), Ok(true));
}

#[test]
fn send_ack_true_with_description_is_success() {
    assert_eq!(
        interpret_send_response(r#"{"ok":true,"description":"fine"}"#),
        Ok(true)
    );
}

#[test]
fn send_ack_false_surfaces_description() {
    assert_eq!(
        interpret_send_response(r#"{"ok":false,"description":"bad token"}"#),
        Err("bad token".to_string())
    );
}

#[test]
fn send_ack_false_without_description_uses_fallback() {
    assert_eq!(
        interpret_send_response(r#"{"ok":false}"#),
        Err("Неизвестная ошибка".to_string())
    );
}

#[test]
fn send_ack_rejects_non_json() {
    assert!(interpret_send_response("definitely not json").is_err());
}

#[test]
fn send_ack_rejects_non_boolean_ok() {
    assert!(interpret_send_response(r#"{"ok":"yes"}"#).is_err());
}

#[test]
fn send_ack_rejects_numeric_description() {
    assert!(interpret_send_response(r#"{"ok":true,"description":5}"#).is_err());
}

#[test]
fn discover_chat_id_errors_on_empty_updates() {
    let r = discover_chat_id(r#"{"ok":true,"result":[]}"#);
    assert_eq!(
        r,
        Err("Не найдено сообщений от бота. Напишите боту любое сообщение.".to_string())
    );
}

#[test]
fn discover_chat_id_errors_on_absent_updates() {
    let r = discover_chat_id(r#"{"ok":true}"#);
    assert!(r.is_err());
}

#[test]
fn discover_chat_id_returns_latest_chat() {
    let body = r#"{"ok":true,"result":[
        {"update_id":1,"message":{"chat":{"id":10},"text":"a"}},
        {"update_id":2,"message":{"chat":{"id":-77},"text":"b"}}
    ]}"#;
    assert_eq!(discover_chat_id(body), Ok("-77".to_string()));
}

#[test]
fn discover_chat_id_errors_when_latest_has_no_message() {
    let body = r#"{"ok":true,"result":[
        {"update_id":1,"message":{"chat":{"id":10}}},
        {"update_id":2}
    ]}"#;
    assert!(discover_chat_id(body).is_err());
}

#[test]
fn discover_chat_id_surfaces_remote_error() {
    assert_eq!(
        discover_chat_id(r#"{"ok":false,"description":"boom"}"#),
        Err("boom".to_string())
    );
}

#[test]
fn chat_id_of_latest_formats_the_id() {
    let updates = vec![TelegramUpdate {
        update_id: 7,
        message: Some(TelegramMessageData {
            chat: TelegramChat {
                id: 424242,
                first_name: Some("A".to_string()),
                last_name: None,
                username: None,
            },
            text: Some("hello".to_string()),
            date: Some(1700000000),
            voice: None,
        }),
    }];
    assert_eq!(chat_id_of_latest(&updates), Ok("424242".to_string()));
}

#[test]
fn chat_id_of_latest_errors_on_empty() {
    let updates: Vec<TelegramUpdate> = Vec::new();
    assert!(chat_id_of_latest(&updates).is_err());
}

#[test]
fn poll_parses_full_update() {
    let body = r#"{"ok":true,"result":[{"update_id":5,"message":{
        "chat":{"id":9,"first_name":"Ann","username":"ann"},
        "text":"note","date":123,
        "voice":{"file_id":"F1","duration":7}
    }}]}"#;
    let ups = parse_updates_response(body).unwrap();
    assert_eq!(ups.len(), 1);
    assert_eq!(ups[0].update_id, 5);
    let msg = ups[0].message.as_ref().unwrap();
    assert_eq!(msg.chat.id, 9);
    assert_eq!(msg.chat.first_name.as_deref(), Some("Ann"));
    assert_eq!(msg.chat.last_name, None);
    assert_eq!(msg.chat.username.as_deref(), Some("ann"));
    assert_eq!(msg.text.as_deref(), Some("note"));
    assert_eq!(msg.date, Some(123));
    let voice = msg.voice.as_ref().unwrap();
    assert_eq!(voice.file_id, "F1");
    assert_eq!(voice.duration, Some(7));
}

#[test]
fn poll_treats_null_result_as_empty() {
    let ups = parse_updates_response(r#"{"ok":true,"result":null}"#).unwrap();
    assert!(ups.is_empty());
}

#[test]
fn poll_rejects_update_without_id() {
    assert!(parse_updates_response(r#"{"ok":true,"result":[{"message":null}]}"#).is_err());
}

#[test]
fn poll_rejects_fractional_update_id() {
    assert!(parse_updates_response(r#"{"ok":true,"result":[{"update_id":1.5}]}"#).is_err());
}

#[test]
fn urls_are_exact() {
    assert_eq!(
        send_message_url("TOK"),
        "https://api.telegram.org/botTOK/sendMessage"
    );
    assert_eq!(
        get_updates_url("TOK"),
        "https://api.telegram.org/botTOK/getUpdates"
    );
    assert_eq!(
        poll_updates_url("TOK", -3),
        "https://api.telegram.org/botTOK/getUpdates?offset=-3&timeout=1"
    );
    assert_eq!(
        poll_updates_url("TOK", 1234567890123),
        "https://api.telegram.org/botTOK/getUpdates?offset=1234567890123&timeout=1"
    );
    assert_eq!(
        get_file_url("TOK", "FID"),
        "https://api.telegram.org/botTOK/getFile?file_id=FID"
    );
    assert_eq!(
        file_download_url("TOK", "voice/file_1.oga"),
        "https://api.telegram.org/file/botTOK/voice/file_1.oga"
    );
    assert_eq!(
        send_document_url("TOK"),
        "https://api.telegram.org/botTOK/sendDocument"
    );
}

#[test]
fn file_path_is_extracted_when_ok() {
    let body = r#"{"ok":true,"result":{"file_path":"voice/file_9.oga"}}"#;
    assert_eq!(file_path_of_response(body), Ok("voice/file_9.oga".to_string()));
}

#[test]
fn file_path_missing_is_not_found() {
    assert_eq!(
        file_path_of_response(r#"{"ok":true}"#),
        Err("Файл не найден".to_string())
    );
    assert_eq!(
        file_path_of_response(r#"{"ok":true,"result":{}}"#),
        Err("Файл не найден".to_string())
    );
}

#[test]
fn file_path_failure_surfaces_description() {
    assert_eq!(
        file_path_of_response(r#"{"ok":false,"description":"nope"}"#),
        Err("nope".to_string())
    );
    assert_eq!(
        file_path_of_response(r#"{"ok":false}"#),
        Err("Неизвестная ошибка".to_string())
    );
    assert_eq!(
        file_path_of_response(r#"{"ok":"maybe"}"#),
        Err("Неизвестная ошибка".to_string())
    );
}

#[test]
fn voice_names_follow_the_entry_id() {
    assert_eq!(voice_file_name("entry-123"), "entry-123.ogg");
    assert_eq!(voice_relative_path("entry-123"), "voices/entry-123.ogg");
}

#[test]
fn repeated_voice_names_are_identical() {
    assert_eq!(voice_file_name("e7"), voice_file_name("e7"));
}

#[test]
fn connection_test_text_is_fixed() {
    let t = test_connection_text();
    assert!(t.starts_with("✅ <b>Ежедневник</b>"));
    assert_eq!(t, test_connection_text());
}
