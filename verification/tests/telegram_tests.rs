use rpiapptmon::telegram::{
    TelegramBot, TelegramBotUpdate, TelegramChat, TelegramMessage, TelegramSource,
};

fn update(update_id: u32, from_id: u32, text: &str) -> TelegramBotUpdate {
    TelegramBotUpdate {
        update_id,
        message: TelegramMessage {
            message_id: update_id,
            from: TelegramSource {
                id: from_id,
                is_bot: false,
                first_name: String::from("a"),
                last_name: String::from("b"),
                username: String::from("c"),
                language_code: String::from("en"),
            },
            chat: TelegramChat {
                id: 1,
                first_name: String::from("a"),
                last_name: String::from("b"),
                username: String::from("c"),
                kind: String::from("private"),
            },
            date: 0,
            text: String::from(text),
        },
    }
}

#[test]
fn new_bot_starts_at_offset_zero() {
    let bot = TelegramBot::new(String::from("token"), String::from("42"), None);
    assert_eq!(bot.last_read_upd, 0);
    assert_eq!(bot.chat_id, "42");
}

#[test]
fn filter_keeps_configured_sender() {
    let mut bot = TelegramBot::new(String::from("t"), String::from("42"), Some(7));
    let kept = bot.process_updates(vec![
        update(10, 7, "keep"),
        update(11, 9, "drop"),
        update(12, 7, "keep too"),
    ]);
    assert_eq!(kept.len(), 2);
    assert_eq!(kept[0].update_id, 10);
    assert_eq!(kept[1].update_id, 12);
    assert_eq!(bot.last_read_upd, 13);
}

#[test]
fn no_filter_keeps_everything() {
    let mut bot = TelegramBot::new(String::from("t"), String::from("42"), None);
    let kept = bot.process_updates(vec![update(3, 1, "x"), update(4, 2, "y")]);
    assert_eq!(kept.len(), 2);
    assert_eq!(bot.last_read_upd, 5);
}

#[test]
fn empty_poll_keeps_offset() {
    let mut bot = TelegramBot::new(String::from("t"), String::from("42"), Some(7));
    let _ = bot.process_updates(vec![update(20, 7, "seen")]);
    assert_eq!(bot.last_read_upd, 21);
    let kept = bot.process_updates(vec![update(22, 9, "other sender")]);
    assert_eq!(kept.len(), 0);
    assert_eq!(bot.last_read_upd, 21);
}

#[test]
fn offset_saturates_at_largest_id() {
    let mut bot = TelegramBot::new(String::from("t"), String::from("42"), None);
    let _ = bot.process_updates(vec![update(u32::MAX, 1, "last possible")]);
    assert_eq!(bot.last_read_upd, u32::MAX);
}
