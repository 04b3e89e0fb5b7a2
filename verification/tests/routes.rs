use zero2prod::domain::{NewSubscriber, Rule, SubscriberToken, ValueKind};
use zero2prod::routes::error_chain_fmt;
use zero2prod::routes::messages::{render_messages, FlashMessage, Level};
use zero2prod::routes::subscriptions::{confirmation_link, FormData};

#[test]
fn an_error_without_causes_is_its_message_and_an_empty_line() {
    assert_eq!(error_chain_fmt("boom", &vec![]), "boom\n\n");
}

#[test]
fn an_error_chain_lists_each_cause_in_order() {
    let causes = vec!["the pool timed out".to_string(), "connection refused".to_string()];
    assert_eq!(
        error_chain_fmt("Failed to claim a task", &causes),
        "Failed to claim a task\n\nCaused by:\n\tthe pool timed out\nCaused by:\n\tconnection refused\n"
    );
}

#[test]
fn an_error_chain_keeps_empty_messages() {
    let causes = vec![String::new()];
    assert_eq!(error_chain_fmt("", &causes), "\n\nCaused by:\n\t\n");
}

#[test]
fn all_flash_messages_are_rendered_as_paragraphs() {
    let messages = vec![
        FlashMessage { level: Level::Info, content: "Saved.".to_string() },
        FlashMessage { level: Level::Error, content: "Wrong password.".to_string() },
    ];
    assert_eq!(
        render_messages(&messages, false),
        "<p><i>Saved.</i></p>\n<p><i>Wrong password.</i></p>\n"
    );
}

#[test]
fn only_errors_are_rendered_where_asked() {
    let messages = vec![
        FlashMessage { level: Level::Info, content: "Saved.".to_string() },
        FlashMessage { level: Level::Error, content: "Wrong password.".to_string() },
        FlashMessage { level: Level::Warning, content: "Careful.".to_string() },
        FlashMessage { level: Level::Error, content: "Again.".to_string() },
        FlashMessage { level: Level::Debug, content: "d".to_string() },
        FlashMessage { level: Level::Success, content: "s".to_string() },
    ];
    assert_eq!(
        render_messages(&messages, true),
        "<p><i>Wrong password.</i></p>\n<p><i>Again.</i></p>\n"
    );
}

#[test]
fn no_flash_messages_render_as_nothing() {
    assert_eq!(render_messages(&vec![], false), "");
    assert_eq!(render_messages(&vec![], true), "");
}

#[test]
fn flash_messages_are_not_escaped() {
    let messages = vec![FlashMessage { level: Level::Error, content: "<b>".to_string() }];
    assert_eq!(render_messages(&messages, true), "<p><i><b></i></p>\n");
}

#[test]
fn the_confirmation_link_carries_the_token() {
    let token = SubscriberToken::parse("0123456789abcdefghijXYZAB".to_string()).unwrap();
    assert_eq!(
        confirmation_link("http://127.0.0.1", &token),
        "http://127.0.0.1/subscriptions/confirm?subscription_token=0123456789abcdefghijXYZAB"
    );
}

#[test]
fn a_valid_form_becomes_a_new_subscriber() {
    let form = FormData::new("ursula_le_guin@gmail.com".to_string(), "le guin".to_string());
    let subscriber = NewSubscriber::try_from(form).unwrap();
    assert_eq!(subscriber.email.as_ref(), "ursula_le_guin@gmail.com");
    assert_eq!(subscriber.name.as_ref(), "le guin");
}

#[test]
fn a_form_converts_through_try_into_as_well() {
    let form = FormData::new("ursula_le_guin@gmail.com".to_string(), "le guin".to_string());
    let subscriber: Result<NewSubscriber, _> = form.try_into();
    assert!(subscriber.is_ok());
}

#[test]
fn a_form_with_an_empty_name_is_rejected_for_the_name() {
    let form = FormData::new("ursual_le_guin@gmail.com".to_string(), "".to_string());
    let e = NewSubscriber::try_from(form).unwrap_err();
    assert_eq!(e.kind, ValueKind::Name);
    assert_eq!(e.rule, Rule::Blank);
}

#[test]
fn a_form_with_an_empty_or_invalid_email_is_rejected_for_the_email() {
    let form = FormData::new("".to_string(), "Ursula".to_string());
    let e = NewSubscriber::try_from(form).unwrap_err();
    assert_eq!(e.kind, ValueKind::Email);
    assert_eq!(e.rule, Rule::NotAnAddress);

    let form = FormData::new("definitely-not-an-email".to_string(), "Ursula".to_string());
    let e = NewSubscriber::try_from(form).unwrap_err();
    assert_eq!(e.kind, ValueKind::Email);
    assert_eq!(e.input, Some("definitely-not-an-email".to_string()));
}

#[test]
fn a_form_with_both_fields_invalid_is_rejected_for_the_name() {
    let form = FormData::new("nope".to_string(), "a/b".to_string());
    let e = NewSubscriber::try_from(form).unwrap_err();
    assert_eq!(e.kind, ValueKind::Name);
    assert_eq!(e.rule, Rule::ForbiddenCharacter);
}
