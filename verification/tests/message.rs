use relay_bot::message::{get_reply_target, is_channel, InboundMessage};

fn message(args: &[&str], source: Option<&str>) -> InboundMessage {
    InboundMessage {
        command: "PRIVMSG".to_string(),
        args: args.iter().map(|a| a.to_string()).collect(),
        suffix: Some("hello".to_string()),
        source: source.map(|s| s.to_string()),
    }
}

#[test]
fn channel_names_start_with_hash_or_ampersand() {
    assert!(is_channel("#general"));
    assert!(is_channel("&local"));
    assert!(is_channel("#"));
    assert!(is_channel("&"));
    assert!(!is_channel("nick"));
    assert!(!is_channel("+modeless"));
    assert!(!is_channel(""));
}

#[test]
fn comma_space_and_bell_disqualify_a_channel() {
    assert!(!is_channel("#a,b"));
    assert!(!is_channel("#a b"));
    assert!(!is_channel("#a\u{7}b"));
    assert!(!is_channel("#ab,"));
    assert!(!is_channel("& "));
}

#[test]
fn later_hashes_and_other_characters_are_fine() {
    assert!(is_channel("##rust"));
    assert!(is_channel("#caf\u{e9}-\u{4e2d}\u{6587}"));
    assert!(is_channel("#a&b#c"));
}

#[test]
fn reply_goes_to_the_channel_a_message_was_sent_to() {
    let msg = message(&["#general"], Some("alice"));
    assert_eq!(get_reply_target(&msg), Some("#general"));
}

#[test]
fn reply_to_a_direct_message_goes_to_the_sender() {
    let msg = message(&["botnick"], Some("alice"));
    assert_eq!(get_reply_target(&msg), Some("alice"));
}

#[test]
fn reply_target_is_missing_without_channel_and_sender() {
    assert_eq!(get_reply_target(&message(&["botnick"], None)), None);
    assert_eq!(get_reply_target(&message(&[], None)), None);
}

#[test]
fn message_without_arguments_is_answered_to_the_sender() {
    assert_eq!(get_reply_target(&message(&[], Some("alice"))), Some("alice"));
}

#[test]
fn only_the_first_argument_is_looked_at() {
    assert_eq!(get_reply_target(&message(&["botnick", "#general"], Some("alice"))), Some("alice"));
    assert_eq!(get_reply_target(&message(&["#a,b", "#general"], None)), None);
}
