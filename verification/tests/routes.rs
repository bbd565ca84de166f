use zero2prod::routes::admin::flash_messages_html;
use zero2prod::routes::admin::logout::logout;
use zero2prod::routes::admin::newsletter::get::{
    publish_newsletter_form, NEWSLETTER_FORM_HEAD, NEWSLETTER_FORM_MIDDLE, NEWSLETTER_FORM_TAIL,
};
use zero2prod::idempotency::persistence::PublicationStore;
use zero2prod::routes::admin::newsletter::post::{
    begin_publish, newsletter_recipients, parse_confirmed_subscribers, pending_recipients,
    publish_newsletter, start_delivery, ConfirmedSubscriber, PublishAnswer, PublishStep,
};
use zero2prod::routes::admin::password::get::{change_password_form, CHANGE_PASSWORD_PAGE};
use zero2prod::routes::delivery::{DeliveryAction, DeliveryEvent, NewsletterDelivery};
use zero2prod::routes::flash::{FlashLevel, FlashMessage};
use zero2prod::routes::login::{login_form, LOGIN_PAGE_HEAD, LOGIN_PAGE_TAIL};
use zero2prod::routes::newsletters;
use zero2prod::routes::newsletters::{NewsletterStep, PublishError};
use zero2prod::routes::subscriptions::{subscribe, subscription_stored, FormData, SubscribeStep};
use zero2prod::utils::{e400, e500, see_other};

fn strings(items: &[&str]) -> Vec<String> {
    items.iter().map(|s| s.to_string()).collect()
}

#[test]
fn see_other_redirects() {
    let reply = see_other("/login");
    assert_eq!(reply.status, 303);
    assert_eq!(reply.location.as_deref(), Some("/login"));
    assert!(reply.body.is_empty());
    assert!(!reply.html);
}

#[test]
fn error_statuses() {
    let err = e500("db down".to_string());
    assert_eq!((err.status, err.message.as_str()), (500, "db down"));
    let err = e400("bad".to_string());
    assert_eq!((err.status, err.message.as_str()), (400, "bad"));
}

#[test]
fn flash_messages_render_as_paragraphs() {
    assert_eq!(flash_messages_html(&Vec::new()), "");
    assert_eq!(
        flash_messages_html(&strings(&["one", "two"])),
        "<p><i>one</i></p>\n<p><i>two</i></p>\n"
    );
}

#[test]
fn login_form_shows_only_error_messages() {
    let messages = vec![
        FlashMessage::info("welcome"),
        FlashMessage::error("Authentication failed"),
        FlashMessage { level: FlashLevel::Warning, content: "careful".to_string() },
    ];
    let reply = login_form(&messages);
    assert_eq!(reply.status, 200);
    assert!(reply.html);
    assert_eq!(
        reply.body,
        format!("{}<p><i>Authentication failed</i></p>\n{}", LOGIN_PAGE_HEAD, LOGIN_PAGE_TAIL)
    );
    assert!(reply.body.contains("<form action=\"/login\" method=\"post\">"));
}

#[test]
fn login_form_without_messages() {
    let reply = login_form(&Vec::new());
    assert_eq!(reply.body, format!("{}{}", LOGIN_PAGE_HEAD, LOGIN_PAGE_TAIL));
}

#[test]
fn you_must_be_logged_in_to_see_the_change_password_form() {
    let reply = change_password_form(Ok(None)).ok().unwrap();
    assert_eq!(reply.status, 303);
    assert_eq!(reply.location.as_deref(), Some("/login"));
}

#[test]
fn change_password_form_for_a_logged_in_user() {
    let reply = change_password_form(Ok(Some(7))).ok().unwrap();
    assert_eq!(reply.status, 200);
    assert_eq!(reply.body, CHANGE_PASSWORD_PAGE);
    assert!(reply.body.contains("name=\"new_password_check\""));
}

#[test]
fn session_errors_give_500() {
    let err = change_password_form(Err("corrupt session".to_string())).err().unwrap();
    assert_eq!((err.status, err.message.as_str()), (500, "corrupt session"));
    let err = publish_newsletter_form(Err("corrupt".to_string()), &Vec::new(), 7).err().unwrap();
    assert_eq!(err.status, 500);
}

#[test]
fn you_must_be_logged_in_to_see_the_newsletter_form() {
    let reply = publish_newsletter_form(Ok(None), &strings(&["hi"]), 7).ok().unwrap();
    assert_eq!(reply.status, 303);
    assert_eq!(reply.location.as_deref(), Some("/login"));
}

#[test]
fn newsletter_form_carries_messages_and_key() {
    let key = 0x67e5_5044_10b1_426f_9247_bb68_0e5f_e0c8u128;
    let reply = publish_newsletter_form(Ok(Some(1)), &strings(&["Published!"]), key).ok().unwrap();
    assert_eq!(reply.status, 200);
    assert_eq!(
        reply.body,
        format!(
            "{}<p><i>Published!</i></p>\n{}67e55044-10b1-426f-9247-bb680e5fe0c8{}",
            NEWSLETTER_FORM_HEAD, NEWSLETTER_FORM_MIDDLE, NEWSLETTER_FORM_TAIL
        )
    );
    assert!(reply
        .body
        .contains("name=\"idempotency_key\" value=\"67e55044-10b1-426f-9247-bb680e5fe0c8\">"));
}

#[test]
fn logout_redirects_to_login_with_a_message() {
    let (flash, reply) = logout();
    assert_eq!(flash.level, FlashLevel::Info);
    assert_eq!(flash.content, "You have successfully logged out.");
    assert_eq!(reply.status, 303);
    assert_eq!(reply.location.as_deref(), Some("/login"));
}

#[test]
fn delivery_sends_to_each_recipient_in_order() {
    let mut delivery = NewsletterDelivery::new(strings(&["a@x.com", "b@x.com"]));
    assert!(matches!(delivery.step(DeliveryEvent::Proceed), DeliveryAction::Send(e) if e == "a@x.com"));
    assert!(matches!(delivery.step(DeliveryEvent::Proceed), DeliveryAction::Send(e) if e == "b@x.com"));
    assert!(matches!(delivery.step(DeliveryEvent::Proceed), DeliveryAction::Complete));
    assert!(matches!(delivery.step(DeliveryEvent::Proceed), DeliveryAction::Complete));
}

#[test]
fn delivery_stops_on_failure() {
    let mut delivery = NewsletterDelivery::new(strings(&["a@x.com", "b@x.com"]));
    assert!(matches!(delivery.step(DeliveryEvent::Proceed), DeliveryAction::Send(_)));
    assert!(matches!(delivery.step(DeliveryEvent::Failed), DeliveryAction::Abort(e) if e == "a@x.com"));
    // An ended delivery keeps reporting its failure, never completion.
    assert!(matches!(delivery.step(DeliveryEvent::Proceed), DeliveryAction::Abort(e) if e == "a@x.com"));
}

#[test]
fn empty_delivery_completes_at_once() {
    let mut delivery = NewsletterDelivery::new(Vec::new());
    assert!(matches!(delivery.step(DeliveryEvent::Proceed), DeliveryAction::Complete));
}

#[test]
fn json_publication_answers_200() {
    let mut delivery = NewsletterDelivery::new(strings(&["a@x.com"]));
    assert!(matches!(
        newsletters::publish_newsletter(&mut delivery, DeliveryEvent::Proceed),
        NewsletterStep::Send(e) if e == "a@x.com"
    ));
    match newsletters::publish_newsletter(&mut delivery, DeliveryEvent::Proceed) {
        NewsletterStep::Done(reply) => assert_eq!(reply.status, 200),
        _ => panic!("expected completion"),
    }
}

#[test]
fn json_publication_failure_is_unexpected() {
    let mut delivery = NewsletterDelivery::new(strings(&["a@x.com"]));
    let _ = newsletters::publish_newsletter(&mut delivery, DeliveryEvent::Proceed);
    match newsletters::publish_newsletter(&mut delivery, DeliveryEvent::Failed) {
        NewsletterStep::Fail(err) => {
            assert_eq!(err.status_code(), 500);
            assert_eq!(err.message(), "Failed to send newsletter issue to a@x.com");
            assert!(matches!(err, PublishError::UnexpectedError(_)));
        }
        _ => panic!("expected a failure"),
    }
}

#[test]
fn subscribe_rejects_invalid_names_with_400() {
    let form = FormData { email: "ursula@domain.com".to_string(), name: "bad<name>".to_string() };
    match subscribe(&form) {
        SubscribeStep::Reply(reply) => assert_eq!(reply.status, 400),
        SubscribeStep::Insert => panic!("invalid name accepted"),
    }
    let form = FormData { email: "ursula@domain.com".to_string(), name: "  ".to_string() };
    assert!(matches!(subscribe(&form), SubscribeStep::Reply(_)));
}

#[test]
fn subscribe_stores_valid_requests() {
    let form = FormData { email: "ursula@domain.com".to_string(), name: "Ursula".to_string() };
    assert!(matches!(subscribe(&form), SubscribeStep::Insert));
    assert_eq!(subscription_stored(true).status, 200);
    assert_eq!(subscription_stored(false).status, 500);
}

#[test]
fn flash_rendering_of_two_lists_concatenates() {
    let a = strings(&["x", "y"]);
    let b = strings(&["z"]);
    let mut both = a.clone();
    both.extend(b.clone());
    assert_eq!(flash_messages_html(&both), flash_messages_html(&a) + &flash_messages_html(&b));
}

const PUBLISHED: &str = "The newsletter issue has been published!";

/// Runs one publication request; `fail_at` names the send (counted from 0)
/// that fails. Returns the addresses sent to and the status of the answer.
fn run_request(
    store: &mut PublicationStore,
    user_id: Result<Option<u128>, String>,
    key: &str,
    subscribers: &Vec<Result<ConfirmedSubscriber, String>>,
    fail_at: Option<usize>,
) -> (Vec<String>, u16, Option<String>) {
    let start = match begin_publish(store, user_id, key.to_string()) {
        Ok(start) => start,
        Err(PublishAnswer::Redirect(reply)) => return (Vec::new(), reply.status, reply.location),
        Err(PublishAnswer::Error(err)) => return (Vec::new(), err.status, None),
        Err(PublishAnswer::Published(flash, reply)) => {
            assert_eq!(flash.content, PUBLISHED);
            return (Vec::new(), reply.status, reply.location);
        }
    };
    let mut publication = start_delivery(store, start, subscribers);
    let mut sent = Vec::new();
    let mut event = DeliveryEvent::Proceed;
    loop {
        match publish_newsletter(store, &mut publication, event) {
            PublishStep::Send(email) => {
                if Some(sent.len()) == fail_at {
                    event = DeliveryEvent::Failed;
                } else {
                    event = DeliveryEvent::Proceed;
                }
                sent.push(email);
            }
            PublishStep::Fail(err) => return (sent, err.status, None),
            PublishStep::Done(flash, reply) => {
                assert_eq!(flash.content, PUBLISHED);
                return (sent, reply.status, reply.location);
            }
        }
    }
}

#[test]
fn invalid_stored_addresses_are_skipped() {
    let subscribers = parse_confirmed_subscribers(&strings(&["good@x.com", "broken", "fine@y.org"]));
    assert_eq!(subscribers.len(), 3);
    assert!(subscribers[0].is_ok());
    assert_eq!(subscribers[1].as_ref().err().unwrap(), "broken is not a valid subscriber email.");
    assert_eq!(newsletter_recipients(&subscribers), strings(&["good@x.com", "fine@y.org"]));
    let mut store = PublicationStore::new();
    let (sent, status, location) = run_request(&mut store, Ok(Some(1)), "key-1", &subscribers, None);
    assert_eq!(sent, strings(&["good@x.com", "fine@y.org"]));
    assert_eq!(status, 303);
    assert_eq!(location.as_deref(), Some("/admin/newsletters"));
}

#[test]
fn failed_send_gives_500_naming_the_address() {
    let subscribers = parse_confirmed_subscribers(&strings(&["good@x.com"]));
    let mut store = PublicationStore::new();
    let start = begin_publish(&store, Ok(Some(1)), "k".to_string()).ok().unwrap();
    let mut publication = start_delivery(&mut store, start, &subscribers);
    assert!(matches!(
        publish_newsletter(&mut store, &mut publication, DeliveryEvent::Proceed),
        PublishStep::Send(_)
    ));
    match publish_newsletter(&mut store, &mut publication, DeliveryEvent::Failed) {
        PublishStep::Fail(err) => {
            assert_eq!(err.status, 500);
            assert_eq!(err.message, "ニュースレターの発行をgood@x.comに送信できませんでした。");
        }
        _ => panic!("expected a failure"),
    }
}

#[test]
fn you_must_be_logged_in_to_publish_a_newsletter() {
    let subscribers = parse_confirmed_subscribers(&strings(&["a@x.com"]));
    let mut store = PublicationStore::new();
    let (sent, status, location) = run_request(&mut store, Ok(None), "k", &subscribers, None);
    assert!(sent.is_empty());
    assert_eq!(status, 303);
    assert_eq!(location.as_deref(), Some("/login"));
    let (sent, status, _) = run_request(&mut store, Err("bad session".into()), "k", &subscribers, None);
    assert!(sent.is_empty());
    assert_eq!(status, 500);
}

#[test]
fn invalid_idempotency_keys_are_rejected_with_400() {
    let subscribers = parse_confirmed_subscribers(&strings(&["a@x.com"]));
    let mut store = PublicationStore::new();
    let (sent, status, _) = run_request(&mut store, Ok(Some(1)), "", &subscribers, None);
    assert!(sent.is_empty());
    assert_eq!(status, 400);
    let long = "k".repeat(50);
    let (sent, status, _) = run_request(&mut store, Ok(Some(1)), &long, &subscribers, None);
    assert!(sent.is_empty());
    assert_eq!(status, 400);
}

#[test]
fn newsletter_creation_is_idempotent() {
    let subscribers = parse_confirmed_subscribers(&strings(&["a@x.com"]));
    let mut store = PublicationStore::new();
    let first = run_request(&mut store, Ok(Some(1)), "key", &subscribers, None);
    assert_eq!(first.0, strings(&["a@x.com"]));
    assert_eq!(first.1, 303);
    let second = run_request(&mut store, Ok(Some(1)), "key", &subscribers, None);
    assert!(second.0.is_empty());
    assert_eq!((second.1, second.2.clone()), (first.1, first.2.clone()));
    // Another key, or another user, publishes again.
    assert_eq!(run_request(&mut store, Ok(Some(1)), "other", &subscribers, None).0.len(), 1);
    assert_eq!(run_request(&mut store, Ok(Some(2)), "key", &subscribers, None).0.len(), 1);
}

#[test]
fn transient_errors_do_not_cause_duplicate_deliveries_on_retries() {
    let subscribers = parse_confirmed_subscribers(&strings(&["a@x.com", "b@x.com"]));
    let mut store = PublicationStore::new();
    let first = run_request(&mut store, Ok(Some(1)), "key", &subscribers, Some(1));
    assert_eq!(first.0, strings(&["a@x.com", "b@x.com"]));
    assert_eq!(first.1, 500);
    let retry = run_request(&mut store, Ok(Some(1)), "key", &subscribers, None);
    assert_eq!(retry.0, strings(&["b@x.com"]));
    assert_eq!(retry.1, 303);
    let again = run_request(&mut store, Ok(Some(1)), "key", &subscribers, None);
    assert!(again.0.is_empty());
    assert_eq!(again.1, 303);
}

#[test]
fn pending_recipients_skip_the_served_ones() {
    assert_eq!(
        pending_recipients(&strings(&["a", "b", "c", "b"]), &strings(&["b"])),
        strings(&["a", "c"])
    );
    assert_eq!(pending_recipients(&strings(&["a"]), &Vec::new()), strings(&["a"]));
}

#[test]
fn a_first_request_delivers_to_every_valid_address() {
    let subscribers =
        parse_confirmed_subscribers(&strings(&["a@x.com", "nope", "b@x.com", "c@x.com"]));
    let mut store = PublicationStore::new();
    let (sent, status, _) = run_request(&mut store, Ok(Some(3)), "fresh", &subscribers, None);
    assert_eq!(sent, strings(&["a@x.com", "b@x.com", "c@x.com"]));
    assert_eq!(status, 303);
}
