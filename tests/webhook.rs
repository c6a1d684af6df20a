use base64::engine::general_purpose;
use base64::Engine;
use hmac::{Hmac, Mac};
use line_bot::event::{classify_event, InboundEvent, RawEvent, RawMessage, RawPostback};
use line_bot::paths::{pending_object_path, public_url};
use line_bot::postback::{callback_data, parse_postback, postback_fields};
use line_bot::registry::{find_pair, load_presets};
use line_bot::settings::{listen_port, parse_admin_ids, DEFAULT_PORT};
use line_bot::signature::{signature_for, verify_header, verify_signature};
use line_bot::workflow::{
    handle_event, is_admin, plan_delivery, plan_event, plan_image, plan_postback, plan_promotion, plan_text,
    prompt_actions, BotConfig, Operation,
};
use sha2::Sha256;

const ADMIN_ONLY: &str = "この操作は管理者のみ可能です。";
const NOT_FOUND: &str = "指定されたメッセージが見つかりません。";

fn config() -> BotConfig {
    BotConfig {
        gcs_bucket: "bucket-a".to_string(),
        admin_user_ids: vec!["Uadmin".to_string()],
        presets: load_presets(),
    }
}

fn reference_signature(secret: &str, body: &[u8]) -> String {
    let mut mac = <Hmac<Sha256> as Mac>::new_from_slice(secret.as_bytes()).unwrap();
    mac.update(body);
    general_purpose::STANDARD.encode(mac.finalize().into_bytes())
}

fn text_event(token: &str, text: &str) -> RawEvent {
    RawEvent {
        event_type: "message".to_string(),
        reply_token: Some(token.to_string()),
        user_id: Some("Uuser".to_string()),
        message: Some(RawMessage { id: "m1".to_string(), message_type: "text".to_string(), text: Some(text.to_string()) }),
        postback: None,
    }
}

fn image_event(token: &str, user: Option<&str>) -> RawEvent {
    RawEvent {
        event_type: "message".to_string(),
        reply_token: Some(token.to_string()),
        user_id: user.map(|u| u.to_string()),
        message: Some(RawMessage { id: "msg-7".to_string(), message_type: "image".to_string(), text: None }),
        postback: None,
    }
}

fn postback_event(token: &str, data: Option<&str>) -> RawEvent {
    RawEvent {
        event_type: "postback".to_string(),
        reply_token: Some(token.to_string()),
        user_id: Some("Uadmin".to_string()),
        message: None,
        postback: Some(RawPostback { data: data.map(|d| d.to_string()) }),
    }
}

fn count_copies(ops: &[Operation]) -> usize {
    ops.iter().filter(|o| matches!(o, Operation::CopyObject { .. })).count()
}

fn count_uploads(ops: &[Operation]) -> usize {
    ops.iter().filter(|o| matches!(o, Operation::UploadContent { .. } | Operation::FetchContent { .. })).count()
}

#[test]
fn signed_body_verifies() {
    let body = br#"{"events":[]}"#;
    let sig = reference_signature("s3cret", body);
    assert!(verify_signature("s3cret", body, &sig));
    assert_eq!(signature_for("s3cret", body), sig);
    assert!(verify_signature("s3cret", body, &signature_for("s3cret", body)));
}

#[test]
fn signature_of_empty_body_and_empty_secret() {
    let sig = signature_for("", b"");
    assert_eq!(sig, reference_signature("", b""));
    assert_eq!(sig.len(), 44);
    assert!(verify_signature("", b"", &sig));
}

#[test]
fn single_bit_mutation_fails() {
    let body = b"hello world".to_vec();
    let sig = signature_for("key", &body);
    for i in 0..body.len() {
        for bit in 0..8 {
            let mut mutated = body.clone();
            mutated[i] ^= 1 << bit;
            assert!(!verify_signature("key", &mutated, &sig));
        }
    }
}

#[test]
fn wrong_secret_fails() {
    let sig = signature_for("key", b"payload");
    assert!(!verify_signature("other", b"payload", &sig));
}

#[test]
fn header_not_base64_fails() {
    assert!(!verify_signature("key", b"payload", "***not base64***"));
    assert!(!verify_signature("key", b"payload", ""));
}

#[test]
fn missing_header_fails() {
    let sig = signature_for("key", b"payload");
    assert!(!verify_header("key", b"payload", None));
    assert!(verify_header("key", b"payload", Some(&sig)));
    assert!(!verify_header("key", b"payload", Some("AAAA")));
}

#[test]
fn presets_are_the_four_menus() {
    let presets = load_presets();
    assert_eq!(presets.len(), 4);
    assert_eq!(presets.keys(), vec!["menu1", "menu2", "menu3", "menu4"]);
    assert_eq!(presets.get("menu3"), Some("images/menu3.jpg".to_string()));
    assert_eq!(presets.get("menu5"), None);
    assert_eq!(presets.get(""), None);
}

#[test]
fn find_pair_takes_last() {
    let pairs = vec![
        ("a".to_string(), "1".to_string()),
        ("b".to_string(), "2".to_string()),
        ("a".to_string(), "3".to_string()),
    ];
    assert_eq!(find_pair(&pairs, "a"), Some("3".to_string()));
    assert_eq!(find_pair(&pairs, "b"), Some("2".to_string()));
    assert_eq!(find_pair(&pairs, "c"), None);
}

#[test]
fn public_url_format() {
    assert_eq!(public_url("bkt", "images/menu1.jpg"), "https://storage.googleapis.com/bkt/images/menu1.jpg");
    assert_eq!(pending_object_path("abc"), "uploads/abc.jpg");
}

#[test]
fn admin_check_is_exact() {
    let admins = vec!["U1".to_string(), "U2".to_string()];
    assert!(is_admin(Some("U2"), &admins));
    assert!(!is_admin(Some("U3"), &admins));
    assert!(!is_admin(Some("u1"), &admins));
    assert!(!is_admin(Some(" U1"), &admins));
    assert!(!is_admin(None, &admins));
    assert!(!is_admin(Some("U1"), &[]));
}

#[test]
fn admin_list_parsing() {
    assert_eq!(parse_admin_ids(" U1 , ,U2,"), vec!["U1", "U2"]);
    assert!(parse_admin_ids("").is_empty());
    assert!(parse_admin_ids(" , ").is_empty());
    assert_eq!(parse_admin_ids("U1"), vec!["U1"]);
}

#[test]
fn port_setting() {
    assert_eq!(listen_port(None), DEFAULT_PORT);
    assert_eq!(DEFAULT_PORT, 8080);
    assert_eq!(listen_port(Some("3000")), 3000);
    assert_eq!(listen_port(Some("+65535")), 65535);
    assert_eq!(listen_port(Some("65536")), 8080);
    assert_eq!(listen_port(Some("abc")), 8080);
    assert_eq!(listen_port(Some("")), 8080);
}

#[test]
fn registry_key_gets_image_reply() {
    let ops = plan_text(&config(), "r1", "  menu1\n");
    assert_eq!(ops.len(), 1);
    match &ops[0] {
        Operation::ReplyImage { reply_token, url } => {
            assert_eq!(reply_token, "r1");
            assert_eq!(url, "https://storage.googleapis.com/bucket-a/images/menu1.jpg");
        }
        _ => panic!("expected an image reply"),
    }
}

#[test]
fn other_text_is_echoed_trimmed() {
    let ops = plan_text(&config(), "r1", "  hello  ");
    assert_eq!(ops.len(), 1);
    match &ops[0] {
        Operation::ReplyText { reply_token, text } => {
            assert_eq!(reply_token, "r1");
            assert_eq!(text, "hello");
        }
        _ => panic!("expected a text reply"),
    }
    let ops = plan_text(&config(), "r1", "\u{3000}menu2\u{3000}");
    assert!(matches!(&ops[0], Operation::ReplyImage { url, .. } if url.ends_with("/images/menu2.jpg")));
    let ops = plan_text(&config(), "r1", "menu1x");
    assert!(matches!(&ops[0], Operation::ReplyText { text, .. } if text == "menu1x"));
}

#[test]
fn non_admin_image_is_refused() {
    let ops = plan_image(&config(), "r3", Some("Ustranger"), "msg-7", "id-1");
    assert_eq!(ops.len(), 1);
    assert_eq!(count_uploads(&ops), 0);
    assert!(matches!(&ops[0], Operation::ReplyText { reply_token, text } if reply_token == "r3" && text == ADMIN_ONLY));
    let ops = plan_image(&config(), "r3", None, "msg-7", "id-1");
    assert_eq!(count_uploads(&ops), 0);
    assert!(matches!(&ops[0], Operation::ReplyText { text, .. } if text == ADMIN_ONLY));
}

#[test]
fn admin_image_is_staged_and_prompted() {
    let ops = plan_image(&config(), "r4", Some("Uadmin"), "msg-7", "abc-123");
    assert_eq!(ops.len(), 3);
    assert!(matches!(&ops[0], Operation::FetchContent { message_id } if message_id == "msg-7"));
    assert!(matches!(&ops[1], Operation::UploadContent { object } if object == "uploads/abc-123.jpg"));
    match &ops[2] {
        Operation::ReplyPrompt { reply_token, text, actions } => {
            assert_eq!(reply_token, "r4");
            assert_eq!(text, "どのメッセージに紐づけますか？");
            assert_eq!(actions.len(), 4);
            for (i, a) in actions.iter().enumerate() {
                let key = format!("menu{}", i + 1);
                assert_eq!(a.label, key);
                assert_eq!(a.data, format!("pending=abc-123&target={}", key));
            }
        }
        _ => panic!("expected a prompt"),
    }
}

#[test]
fn prompt_actions_encode_pending_id() {
    let actions = prompt_actions(&load_presets(), "xyz");
    assert_eq!(actions.len(), 4);
    assert_eq!(actions[1].label, "menu2");
    assert_eq!(actions[1].data, "pending=xyz&target=menu2");
    assert_eq!(callback_data("p", "k"), "pending=p&target=k");
}

#[test]
fn fresh_pending_id_is_a_uuid() {
    let event = classify_event(&image_event("r8", Some("Uadmin")));
    let ops = handle_event(&config(), &event);
    assert_eq!(ops.len(), 3);
    let object = match &ops[1] {
        Operation::UploadContent { object } => object.clone(),
        _ => panic!("expected an upload"),
    };
    assert!(object.starts_with("uploads/") && object.ends_with(".jpg"));
    let id = &object["uploads/".len()..object.len() - 4];
    assert_eq!(id.len(), 36);
    assert!(id.chars().all(|c| c.is_ascii_digit() || ('a'..='f').contains(&c) || c == '-'));
    match &ops[2] {
        Operation::ReplyPrompt { actions, .. } => {
            for a in actions {
                assert_eq!(a.data, format!("pending={}&target={}", id, a.label));
            }
        }
        _ => panic!("expected a prompt"),
    }
    let again = handle_event(&config(), &event);
    assert!(matches!(&again[1], Operation::UploadContent { object: o } if *o != object));
}

#[test]
fn postback_parsing() {
    assert_eq!(parse_postback("pending=abc&target=menu2"), Some(("abc".to_string(), "menu2".to_string())));
    assert_eq!(parse_postback("target=menu2&pending=a%20b"), Some(("a b".to_string(), "menu2".to_string())));
    assert_eq!(parse_postback("pending=a+b&target=x&target=y"), Some(("a b".to_string(), "y".to_string())));
    assert_eq!(parse_postback("pending=abc"), None);
    assert_eq!(parse_postback("target=menu1"), None);
    assert_eq!(parse_postback(""), None);
    assert_eq!(postback_fields(&vec![]), None);
}

#[test]
fn known_target_is_promoted() {
    let ops = plan_postback(&config(), "r5", "pending=abc&target=menu2");
    assert_eq!(ops.len(), 3);
    assert_eq!(count_copies(&ops), 1);
    assert!(matches!(&ops[0], Operation::CopyObject { source, dest }
        if source == "uploads/abc.jpg" && dest == "images/menu2.jpg"));
    assert!(matches!(&ops[1], Operation::ReplyText { reply_token, text }
        if reply_token == "r5" && text == "画像を更新しました: menu2"));
    assert!(matches!(&ops[2], Operation::ReplyImage { reply_token, url }
        if reply_token == "r5" && url == "https://storage.googleapis.com/bucket-a/images/menu2.jpg"));
}

#[test]
fn unknown_target_is_not_copied() {
    let ops = plan_promotion(&config(), "r6", "abc", "menu9");
    assert_eq!(count_copies(&ops), 0);
    assert_eq!(ops.len(), 1);
    assert!(matches!(&ops[0], Operation::ReplyText { text, .. } if text == NOT_FOUND));
    let ops = plan_postback(&config(), "r6", "pending=abc");
    assert!(ops.is_empty());
}

#[test]
fn promotion_can_repeat() {
    let first = plan_postback(&config(), "r1", "pending=abc&target=menu1");
    let second = plan_postback(&config(), "r2", "pending=abc&target=menu3");
    assert!(matches!(&first[0], Operation::CopyObject { dest, .. } if dest == "images/menu1.jpg"));
    assert!(matches!(&second[0], Operation::CopyObject { dest, .. } if dest == "images/menu3.jpg"));
}

#[test]
fn routing_table() {
    assert!(matches!(classify_event(&text_event("r", "hi")), InboundEvent::Text { text, .. } if text == "hi"));
    let mut no_token = text_event("r", "hi");
    no_token.reply_token = None;
    assert!(matches!(classify_event(&no_token), InboundEvent::Ignored));
    let mut no_body = text_event("r", "hi");
    no_body.message = None;
    assert!(matches!(classify_event(&no_body), InboundEvent::Ignored));
    let mut sticker = text_event("r", "hi");
    sticker.message.as_mut().unwrap().message_type = "sticker".to_string();
    assert!(matches!(classify_event(&sticker), InboundEvent::Ignored));
    let mut follow = text_event("r", "hi");
    follow.event_type = "follow".to_string();
    assert!(matches!(classify_event(&follow), InboundEvent::Ignored));
    assert!(matches!(classify_event(&image_event("r", None)), InboundEvent::Image { user_id: None, message_id, .. } if message_id == "msg-7"));
    assert!(matches!(classify_event(&postback_event("r", None)), InboundEvent::Postback { data: None, .. }));
    assert!(matches!(plan_event(&config(), &InboundEvent::Ignored, "id").len(), 0));
}

#[test]
fn delivery_text_preset_scenario() {
    let plans = plan_delivery(&config(), &vec![text_event("r1", "menu1")]);
    assert_eq!(plans.len(), 1);
    assert_eq!(plans[0].len(), 1);
    assert!(matches!(&plans[0][0], Operation::ReplyImage { reply_token, url }
        if reply_token == "r1" && url == "https://storage.googleapis.com/bucket-a/images/menu1.jpg"));
}

#[test]
fn delivery_text_echo_scenario() {
    let plans = plan_delivery(&config(), &vec![text_event("r1", "hello")]);
    assert_eq!(plans[0].len(), 1);
    assert!(matches!(&plans[0][0], Operation::ReplyText { text, .. } if text == "hello"));
}

#[test]
fn delivery_non_admin_image_scenario() {
    let plans = plan_delivery(&config(), &vec![image_event("r3", Some("Ustranger"))]);
    assert_eq!(plans[0].len(), 1);
    assert_eq!(count_uploads(&plans[0]), 0);
    assert_eq!(count_copies(&plans[0]), 0);
    assert!(matches!(&plans[0][0], Operation::ReplyText { text, .. } if text == ADMIN_ONLY));
}

#[test]
fn delivery_admin_image_scenario() {
    let plans = plan_delivery(&config(), &vec![image_event("r4", Some("Uadmin"))]);
    let ops = &plans[0];
    assert_eq!(ops.len(), 3);
    assert_eq!(ops.iter().filter(|o| matches!(o, Operation::FetchContent { .. })).count(), 1);
    assert_eq!(ops.iter().filter(|o| matches!(o, Operation::UploadContent { .. })).count(), 1);
    let id = match &ops[1] {
        Operation::UploadContent { object } => object["uploads/".len()..object.len() - 4].to_string(),
        _ => panic!("expected an upload"),
    };
    match &ops[2] {
        Operation::ReplyPrompt { actions, .. } => {
            assert!(!actions.is_empty());
            assert!(actions.iter().all(|a| a.data.contains(&format!("pending={}", id))));
        }
        _ => panic!("expected a prompt"),
    }
}

#[test]
fn delivery_postback_scenario() {
    let plans = plan_delivery(&config(), &vec![postback_event("r5", Some("pending=abc&target=menu2"))]);
    let ops = &plans[0];
    assert_eq!(ops.len(), 3);
    assert!(matches!(&ops[0], Operation::CopyObject { source, dest }
        if source == "uploads/abc.jpg" && dest == "images/menu2.jpg"));
    assert!(matches!(&ops[1], Operation::ReplyText { .. }));
    assert!(matches!(&ops[2], Operation::ReplyImage { .. }));
}

#[test]
fn delivery_keeps_event_order() {
    let plans = plan_delivery(
        &config(),
        &vec![text_event("a", "menu4"), postback_event("b", None), text_event("c", "x")],
    );
    assert_eq!(plans.len(), 3);
    assert!(matches!(&plans[0][0], Operation::ReplyImage { reply_token, .. } if reply_token == "a"));
    assert!(plans[1].is_empty());
    assert!(matches!(&plans[2][0], Operation::ReplyText { reply_token, .. } if reply_token == "c"));
}

#[test]
fn unsigned_delivery_is_rejected() {
    let body = br#"{"events":[{"type":"message"}]}"#;
    assert!(!verify_header("secret", body, None));
    assert!(!verify_header("secret", body, Some(&signature_for("secret", b"other body"))));
}
