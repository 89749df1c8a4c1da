use rhi::address::{ListingAddress, ListingAddressError};
use nostr::ToBech32;
use rhi::identity::{resolve_tags, tags_from_cleartext, KeyProfile, KeyProfileError, NostrTagsResolveError};
use rhi::event::NostrEventAdapter;
use rhi::marker::{InvalidInputMarker, JobRequestInputMarker};
use rhi::message::{KindTable, MessageType};
use rhi::supervisor::{subscriber_outcome, SubscriberError, Supervisor, SupervisorAction, SupervisorEvent};
use rhi::tags::{tag_has_value, tag_value};

const SECRET_A: &str = "6b911fd37cdf5c81d4c0adb1ab7fa822ed253ab0ad9aa18d77257c88b29b718e";
const SECRET_B: &str = "7b911fd37cdf5c81d4c0adb1ab7fa822ed253ab0ad9aa18d77257c88b29b718e";

fn t(k: &str, v: &str) -> Vec<String> {
    vec![k.to_string(), v.to_string()]
}

#[test]
fn listing_address_round_trip() {
    let a = ListingAddress { kind: 30402, seller_pubkey: "abc".into(), listing_id: "id:with:colons".into() };
    let text = a.canonical();
    assert_eq!(text, "30402:abc:id:with:colons");
    assert_eq!(ListingAddress::parse(&text), Ok(a));
}

#[test]
fn listing_address_rejections() {
    assert_eq!(ListingAddress::parse("30402:abc"), Err(ListingAddressError::MissingSegment));
    assert_eq!(ListingAddress::parse("30402"), Err(ListingAddressError::MissingSegment));
    assert_eq!(ListingAddress::parse(""), Err(ListingAddressError::MissingSegment));
    assert_eq!(ListingAddress::parse("30403:abc:x"), Err(ListingAddressError::WrongKind));
    assert_eq!(ListingAddress::parse("1:abc:x"), Err(ListingAddressError::WrongKind));
    assert_eq!(ListingAddress::parse("x:abc:x"), Err(ListingAddressError::InvalidKind));
    assert_eq!(ListingAddress::parse(":abc:x"), Err(ListingAddressError::InvalidKind));
    assert_eq!(ListingAddress::parse("65536:abc:x"), Err(ListingAddressError::InvalidKind));
    assert_eq!(ListingAddress::parse("99999999999:abc:x"), Err(ListingAddressError::InvalidKind));
    let a = ListingAddress::parse("030402::").unwrap();
    assert_eq!(a.kind, 30402);
    assert_eq!(a.seller_pubkey, "");
    assert_eq!(a.listing_id, "");
}

#[test]
fn canonical_spells_other_kinds() {
    let a = ListingAddress { kind: 7, seller_pubkey: "s".into(), listing_id: "l".into() };
    assert_eq!(a.canonical(), "7:s:l");
    let b = ListingAddress { kind: 65535, seller_pubkey: "s".into(), listing_id: "".into() };
    assert_eq!(b.canonical(), "65535:s:");
    assert_eq!(ListingAddress::parse(&b.canonical()), Err(ListingAddressError::WrongKind));
}

#[test]
fn tag_lookup_takes_first_with_value() {
    let tags = vec![vec!["a".to_string()], t("a", "first"), t("a", "second"), t("p", "x")];
    assert_eq!(tag_value(&tags, "a"), Some("first".to_string()));
    assert_eq!(tag_value(&tags, "d"), None);
    assert!(tag_has_value(&tags, "a", "second"));
    assert!(!tag_has_value(&tags, "p", "y"));
    assert!(!tag_has_value(&[], "p", "x"));
}

#[test]
fn kind_table_is_a_bijection() {
    assert!(KindTable::new(vec![1, 2, 3]).is_none());
    let mut dup: Vec<u16> = (0..16).collect();
    dup[15] = 3;
    assert!(KindTable::new(dup).is_none());
    let table = KindTable::new((100..116).collect()).unwrap();
    assert_eq!(table.kind(MessageType::ListingValidateRequest), 100);
    assert_eq!(table.kind(MessageType::Receipt), 115);
    assert_eq!(table.message_type(103), Some(MessageType::OrderResponse));
    assert_eq!(table.message_type(99), None);
    assert!(table.is_trade_listing_kind(110));
    assert!(!table.is_trade_listing_kind(116));
    assert_eq!(table.all_kinds(), (100..116).collect::<Vec<u16>>());
    assert!(!MessageType::ListingValidateResult.requires_order_id());
    assert!(MessageType::Cancel.requires_order_id());
}

#[test]
fn input_markers_round_trip() {
    for m in [
        JobRequestInputMarker::TradeOrder,
        JobRequestInputMarker::TradeAccept,
        JobRequestInputMarker::TradeConveyance,
        JobRequestInputMarker::TradeInvoice,
        JobRequestInputMarker::TradePayment,
        JobRequestInputMarker::TradeFulfillment,
        JobRequestInputMarker::TradeReceipt,
    ] {
        assert_eq!(JobRequestInputMarker::try_from(m.as_str()), Ok(m));
        assert_eq!(JobRequestInputMarker::from_str(&m.to_string()), Ok(m));
    }
    assert_eq!(JobRequestInputMarker::TradeInvoice.to_string(), "invoice");
    assert_eq!(
        JobRequestInputMarker::try_from("refund"),
        Err(InvalidInputMarker("refund".to_string()))
    );
}

#[test]
fn supervisor_restart_policy() {
    let mut s = Supervisor::new();
    assert_eq!(s.step(SupervisorEvent::Started, false), SupervisorAction::Connect);
    assert_eq!(s.step(SupervisorEvent::ConnectWaitEnded, false), SupervisorAction::RunSubscriber);
    assert_eq!(s.step(SupervisorEvent::SubscriberEnded { failed: true }, false), SupervisorAction::Backoff { failures: 1 });
    assert_eq!(s.step(SupervisorEvent::BackoffEnded, false), SupervisorAction::Connect);
    assert_eq!(s.step(SupervisorEvent::SubscriberEnded { failed: true }, false), SupervisorAction::Backoff { failures: 2 });
    assert_eq!(s.step(SupervisorEvent::SubscriberEnded { failed: false }, false), SupervisorAction::Connect);
    assert_eq!(s.failures, 0);
    assert_eq!(s.step(SupervisorEvent::ConnectWaitEnded, true), SupervisorAction::Exit);
    assert_eq!(s.step(SupervisorEvent::Started, false), SupervisorAction::Exit);
}

#[test]
fn subscriber_outcomes() {
    assert_eq!(subscriber_outcome(true, true), Ok(()));
    assert_eq!(subscriber_outcome(false, true), Err(SubscriberError::NotificationsClosed));
    assert_eq!(subscriber_outcome(false, false), Ok(()));
}

#[test]
fn key_profile_keys() {
    let good = KeyProfile::new(SECRET_A.to_string(), "rhi".to_string());
    assert!(good.keys().is_ok());
    let bad = KeyProfile::new("not a key".to_string(), "rhi".to_string());
    assert_eq!(bad.keys().unwrap_err(), KeyProfileError::InvalidSecretKey("rhi".to_string()));
}

fn adapter(author: &str, content: &str, tags: Vec<Vec<String>>) -> NostrEventAdapter {
    NostrEventAdapter::new("id".into(), author.into(), content.into(), 1, 0, tags, "sig".into())
}

#[test]
fn plain_tags_are_kept() {
    let keys = KeyProfile::new(SECRET_A.into(), "i".into()).keys().unwrap();
    let tags = vec![t("p", "x"), t("a", "y")];
    let ev = adapter("author", "", tags.clone());
    assert_eq!(resolve_tags(&ev, &keys, "x"), Ok(tags));
}

#[test]
fn encrypted_tags_for_someone_else_are_refused() {
    let daemon = nostr::Keys::parse(SECRET_A).unwrap();
    let other = nostr::Keys::parse(SECRET_B).unwrap();
    let tags = vec![vec!["encrypted".to_string()], t("p", &other.public_key().to_hex())];
    let ev = adapter(&other.public_key().to_hex(), "", tags);
    assert_eq!(
        resolve_tags(&ev, &daemon, &daemon.public_key().to_hex()),
        Err(NostrTagsResolveError::NotRecipient)
    );
    let no_p = adapter("a", "", vec![vec!["encrypted".to_string()], t("p", "not a key")]);
    assert_eq!(
        resolve_tags(&no_p, &daemon, &daemon.public_key().to_hex()),
        Err(NostrTagsResolveError::MissingPTag)
    );
}

#[test]
fn encrypted_tags_for_the_daemon_are_decrypted() {
    let daemon = nostr::Keys::parse(SECRET_A).unwrap();
    let sender = nostr::Keys::parse(SECRET_B).unwrap();
    let inner = r#"[["p","x"],["a","30402:s:l"],["d","ord-1"]]"#;
    let content = nostr::nips::nip04::encrypt(sender.secret_key(), &daemon.public_key(), inner).unwrap();
    let npub_tag = t("p", &daemon.public_key().to_hex());
    let ev = adapter(&sender.public_key().to_hex(), &content, vec![vec!["encrypted".to_string()], npub_tag]);
    let tags = resolve_tags(&ev, &daemon, &daemon.public_key().to_hex()).unwrap();
    assert_eq!(tags, vec![t("p", "x"), t("a", "30402:s:l"), t("d", "ord-1")]);

    let garbled = adapter(
        &sender.public_key().to_hex(),
        "nonsense",
        vec![vec!["encrypted".to_string()], t("p", &daemon.public_key().to_hex())],
    );
    assert!(matches!(
        resolve_tags(&garbled, &daemon, &daemon.public_key().to_hex()),
        Err(NostrTagsResolveError::DecryptionError(_))
    ));
}

#[test]
fn event_adapter_reports_its_fields() {
    let ev = NostrEventAdapter::new("id".into(), "au".into(), "c".into(), 5, (1u64 << 32) + 7, vec![t("p", "x")], "sig".into());
    assert_eq!(ev.raw_id(), "id");
    assert_eq!(ev.raw_author(), "au");
    assert_eq!(ev.raw_content(), "c");
    assert_eq!(ev.raw_kind(), 5);
    assert_eq!(ev.raw_published_at(), 7);
    assert_eq!(ev.raw_tags(), vec![t("p", "x")]);
    assert_eq!(ev.tags_as_slices(), vec![t("p", "x")]);
    assert_eq!(ev.raw_sig(), "sig");
}

#[test]
fn recipient_given_as_npub_is_recognised() {
    let daemon = nostr::Keys::parse(SECRET_A).unwrap();
    let sender = nostr::Keys::parse(SECRET_B).unwrap();
    let content = nostr::nips::nip04::encrypt(sender.secret_key(), &daemon.public_key(), r#"[["k","v"]]"#).unwrap();
    let npub = daemon.public_key().to_bech32().unwrap();
    let ev = adapter(&sender.public_key().to_hex(), &content, vec![vec!["encrypted".to_string()], t("p", &npub)]);
    assert_eq!(resolve_tags(&ev, &daemon, &daemon.public_key().to_hex()), Ok(vec![t("k", "v")]));
}

#[test]
fn cleartext_must_be_a_tag_list() {
    assert_eq!(tags_from_cleartext(r#"[["a","b","c"]]"#), Ok(vec![vec!["a".to_string(), "b".to_string(), "c".to_string()]]));
    assert_eq!(tags_from_cleartext("not json"), Err(NostrTagsResolveError::ParseError));
    assert_eq!(tags_from_cleartext(r#"{"a":1}"#), Err(NostrTagsResolveError::ParseError));
}
