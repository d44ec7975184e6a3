use chat_relay::message::{as_expiry, Message};
use chat_relay::text::{i64_to_decimal, u64_to_decimal};

#[test]
fn decimal_of_zero_is_one_digit() {
    assert_eq!(u64_to_decimal(0), "0");
    assert_eq!(i64_to_decimal(0), "0");
}

#[test]
fn decimal_of_small_and_large_numbers() {
    assert_eq!(u64_to_decimal(7), "7");
    assert_eq!(u64_to_decimal(10), "10");
    assert_eq!(u64_to_decimal(42), "42");
    assert_eq!(u64_to_decimal(1_000_000), "1000000");
    assert_eq!(u64_to_decimal(u64::MAX), "18446744073709551615");
}

#[test]
fn decimal_agrees_with_the_standard_formatter() {
    let samples: [u64; 8] = [0, 9, 10, 99, 100, 12345, 9_007_199_254_740_993, u64::MAX];
    for n in samples {
        assert_eq!(u64_to_decimal(n), format!("{}", n));
    }
    let signed: [i64; 8] = [0, -1, 1, -10, 99, i64::MIN, i64::MAX, -1_700_000_000];
    for i in signed {
        assert_eq!(i64_to_decimal(i), format!("{}", i));
    }
}

#[test]
fn signed_decimal_has_a_minus_sign() {
    assert_eq!(i64_to_decimal(-7), "-7");
    assert_eq!(i64_to_decimal(-1_000), "-1000");
    assert_eq!(i64_to_decimal(i64::MIN), "-9223372036854775808");
    assert_eq!(i64_to_decimal(i64::MAX), "9223372036854775807");
}

#[test]
fn expiry_is_given_in_whole_seconds() {
    assert_eq!(as_expiry(1_700_000_000_123_456), "until <t:1700000000:f>!");
    assert_eq!(as_expiry(0), "until <t:0:f>!");
    assert_eq!(as_expiry(999_999), "until <t:0:f>!");
    assert_eq!(as_expiry(1_000_000), "until <t:1:f>!");
}

#[test]
fn expiry_before_the_epoch_rounds_towards_zero() {
    assert_eq!(as_expiry(-1), "until <t:0:f>!");
    assert_eq!(as_expiry(-999_999), "until <t:0:f>!");
    assert_eq!(as_expiry(-1_000_000), "until <t:-1:f>!");
    assert_eq!(as_expiry(-1_999_999), "until <t:-1:f>!");
    assert_eq!(as_expiry(i64::MIN), "until <t:-9223372036854:f>!");
    assert_eq!(as_expiry(i64::MAX), "until <t:9223372036854:f>!");
}

#[test]
fn expiry_agrees_with_integer_division() {
    let samples: [i64; 7] = [i64::MIN, -2_000_001, -5, 0, 5, 2_000_001, i64::MAX];
    for micros in samples {
        assert_eq!(as_expiry(micros), format!("until <t:{}:f>!", micros / 1_000_000));
    }
}

#[test]
fn chat_keeps_username_and_content() {
    let m = Message::chat("Ann".to_string(), "hi all".to_string());
    assert_eq!(
        m,
        Message::Chat { username: "Ann".to_string(), content: "hi all".to_string() }
    );
    assert!(!m.is_disconnect());
    assert!(Message::Disconnect.is_disconnect());
}

#[test]
fn claim_and_empire_tag_the_username() {
    let c = Message::claim("Bob".to_string(), "Port Haven", "selling ore".to_string());
    assert_eq!(
        c,
        Message::Chat {
            username: "Bob [Port Haven]".to_string(),
            content: "selling ore".to_string(),
        }
    );
    let e = Message::empire("Bob".to_string(), "Sol Empire", "hello".to_string());
    assert_eq!(
        e,
        Message::Chat { username: "Bob [Sol Empire]".to_string(), content: "hello".to_string() }
    );
}

#[test]
fn tag_with_an_empty_group_keeps_the_brackets() {
    let c = Message::claim("Bob".to_string(), "", "x".to_string());
    assert_eq!(c, Message::Chat { username: "Bob []".to_string(), content: "x".to_string() });
}

#[test]
fn moderation_notice_has_its_own_sender() {
    let m = Message::moderation("Eve".to_string(), "chatting", "permanently");
    assert_eq!(
        m,
        Message::Chat {
            username: "<<MODERATION>>".to_string(),
            content: "User Eve has been banned from chatting permanently!".to_string(),
        }
    );
}
