use sticky_surgery::chat::{
    command_action, reusable_webhook, sticker_request, webhook_name, CommandAction,
    WebhookIdentityDefinition,
};

#[test]
fn message_requests_sticker() {
    assert_eq!(sticker_request(":bigbrain:"), Some("bigbrain".to_string()));
    assert_eq!(sticker_request(":big brain+-_9:"), Some("big brain+-_9".to_string()));
    assert_eq!(sticker_request("::"), Some(String::new()));
}

#[test]
fn message_not_requesting_sticker() {
    assert_eq!(sticker_request(""), None);
    assert_eq!(sticker_request(":"), None);
    assert_eq!(sticker_request("bigbrain"), None);
    assert_eq!(sticker_request(":bigbrain"), None);
    assert_eq!(sticker_request("x:bigbrain:"), None);
    assert_eq!(sticker_request(":a:b:"), None);
    assert_eq!(sticker_request(":bigbrain!:"), None);
    assert_eq!(sticker_request(":bigbrain:\n"), None);
    assert_eq!(sticker_request(":é:"), None);
}

#[test]
fn webhook_names_and_reuse() {
    assert_eq!(webhook_name(123), "stickysurgery-123");
    let names = vec![
        None,
        Some("other".to_string()),
        Some("stickysurgery-123".to_string()),
        Some("stickysurgery-123".to_string()),
    ];
    assert_eq!(reusable_webhook(&names, 123), Some(2));
    assert_eq!(reusable_webhook(&names, 12), None);
    assert_eq!(reusable_webhook(&vec![], 123), None);
}

#[test]
fn relay_identity() {
    let d = WebhookIdentityDefinition::default();
    assert_eq!(d.username, "Sticky Surgery");
    assert_eq!(d.avatar_url, "Sticky Surgery avatar url");
    let own = WebhookIdentityDefinition::from_profile("ann".to_string(), Some("a.png".to_string()), "d.png".to_string());
    assert_eq!(own.username, "ann");
    assert_eq!(own.avatar_url, "a.png");
    let dflt = WebhookIdentityDefinition::from_profile("bo".to_string(), None, "d.png".to_string());
    assert_eq!(dflt.avatar_url, "d.png");
    let n = WebhookIdentityDefinition::new("x".to_string(), "y".to_string());
    assert_eq!((n.username.as_str(), n.avatar_url.as_str()), ("x", "y"));
}

#[test]
fn slash_commands() {
    assert_eq!(command_action("st", Some("bigbrain".to_string())), CommandAction::Send("bigbrain".to_string()));
    assert_eq!(
        command_action("st", None),
        CommandAction::Reply("Please provide a valid sticker name".to_string())
    );
    assert_eq!(
        command_action("stx", Some("bigbrain".to_string())),
        CommandAction::Reply("not implemented :(".to_string())
    );
    assert_eq!(command_action("", None), CommandAction::Reply("not implemented :(".to_string()));
}
