use evalbot::frontend::{
    command_chat_id, eval_timeout, not_whitelisted_text, telegram_wrap_result, TgWhitelist, WhitelistModOp,
    WhitelistToggleOp,
};

#[test]
fn empty_result_has_placeholder() {
    assert_eq!(telegram_wrap_result(""), "no output");
}

#[test]
fn result_is_escaped_in_pre_block() {
    assert_eq!(
        telegram_wrap_result("a<b> & \"c\"\u{FFFD}"),
        "<pre>a&lt;b&gt; &amp; &quot;c&quot;</pre>"
    );
}

#[test]
fn long_result_is_cut_at_512_bytes() {
    let s = "x".repeat(600);
    let r = telegram_wrap_result(&s);
    assert_eq!(r, format!("<pre>{}</pre>... (truncated)", "x".repeat(512)));
    let exact = "y".repeat(512);
    assert_eq!(telegram_wrap_result(&exact), format!("<pre>{}</pre>", exact));
}

#[test]
fn cut_inside_a_character_drops_it() {
    let s = format!("{}é", "z".repeat(511));
    let r = telegram_wrap_result(&s);
    assert_eq!(r, format!("<pre>{}</pre>... (truncated)", "z".repeat(511)));
}

#[test]
fn whitelist_rules() {
    let mut wl = TgWhitelist::new();
    assert!(wl.priv_ok(1) && wl.group_ok(-5));
    assert_eq!(wl.toggle(WhitelistToggleOp::TogglePrivate), "Private whitelist enabled: true");
    assert!(!wl.priv_ok(1));
    assert!(wl.group_ok(1));
    assert_eq!(wl.modify(WhitelistModOp::Allow, Some(1)), "Allowed 1");
    assert!(wl.priv_ok(1) && wl.permits(true, 1));
    assert_eq!(wl.modify(WhitelistModOp::Block, Some(1)), "Blocked 1");
    assert!(!wl.priv_ok(1) && !wl.group_ok(1));
    assert_eq!(wl.modify(WhitelistModOp::Unblock, Some(1)), "Unblocked 1");
    assert_eq!(wl.modify(WhitelistModOp::Unallow, Some(1)), "Unallowed 1");
    assert!(!wl.priv_ok(1));
    assert_eq!(wl.modify(WhitelistModOp::Allow, None), "Invalid ID");
    assert_eq!(wl.toggle(WhitelistToggleOp::ToggleGroup), "Group whitelist enabled: true");
    assert!(!wl.permits(false, -100));
    assert_eq!(wl.modify(WhitelistModOp::Allow, Some(-100)), "Allowed -100");
    assert!(wl.permits(false, -100));
    assert_eq!(wl.toggle(WhitelistToggleOp::ToggleGroup), "Group whitelist enabled: false");
}

#[test]
fn denial_names_the_chat() {
    assert_eq!(
        not_whitelisted_text(-1001234),
        "You or this group is not on the whitelist. Seek help. ID: -1001234"
    );
}

#[test]
fn owner_hash_command_is_unlimited() {
    assert_eq!(eval_timeout(true, true), Some(0));
    assert_eq!(eval_timeout(true, false), None);
    assert_eq!(eval_timeout(false, true), None);
}

#[test]
fn chat_id_is_first_word() {
    assert_eq!(command_chat_id("  12345 extra"), Some(12345));
    assert_eq!(command_chat_id("-1001\n"), Some(-1001));
    assert_eq!(command_chat_id("+7"), Some(7));
    assert_eq!(command_chat_id("abc 5"), None);
    assert_eq!(command_chat_id("   "), None);
    assert_eq!(command_chat_id("-"), None);
    assert_eq!(command_chat_id("9223372036854775808"), None);
    assert_eq!(command_chat_id("-9223372036854775808"), Some(i64::MIN));
}
