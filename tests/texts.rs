use tg_subreddit_mirror::decimal::{decimal_string, parse_i64};
use tg_subreddit_mirror::dialogue::channel::get_channels_where_admins;
use tg_subreddit_mirror::dialogue::AdminCandidate;
use tg_subreddit_mirror::models::{Channel, NewChannel, NewChannelSubreddit, SortType, Subreddit};
use tg_subreddit_mirror::reply::{channel_list_message, Reply};
use tg_subreddit_mirror::settings::Settings;

fn channel(id: i32, chat_id: i64, title: &str) -> Channel {
    Channel {
        id,
        chat_id,
        disabled: false,
        title: title.to_string(),
        username: None,
        invite_link: None,
    }
}

#[test]
fn decimal_text_of_chat_ids() {
    assert_eq!(decimal_string(0), "0");
    assert_eq!(decimal_string(42), "42");
    assert_eq!(decimal_string(-1001234567890), "-1001234567890");
    assert_eq!(decimal_string(i64::MAX), "9223372036854775807");
    assert_eq!(decimal_string(i64::MIN), "-9223372036854775808");
}

#[test]
fn parse_chat_ids_as_std_does() {
    for t in ["0", "42", "-10", "+7", "-0", "007", "9223372036854775807", "-9223372036854775808"] {
        assert_eq!(parse_i64(t), t.parse::<i64>().ok(), "{}", t);
    }
    assert_eq!(parse_i64("-1001234567890"), Some(-1001234567890));
}

#[test]
fn parse_rejects_what_std_rejects() {
    for t in ["", "-", "+", "abc", "12a", " 42", "42 ", "--1", "+-1", "1.5", "9223372036854775808", "-9223372036854775809", "99999999999999999999"] {
        assert_eq!(parse_i64(t), None, "{}", t);
        assert!(t.parse::<i64>().is_err());
    }
}

#[test]
fn channel_list_lists_title_and_id() {
    let list = vec![channel(1, -100, "News"), channel(2, 5, "Cats")];
    assert_eq!(
        channel_list_message(&list),
        "Channel name: News\nChannel id: -100\n\nChannel name: Cats\nChannel id: 5\n\n"
    );
    assert_eq!(channel_list_message(&Vec::new()), "");
}

#[test]
fn reply_texts() {
    assert_eq!(
        Reply::NotForwarded.text("mirror_bot"),
        "This message is not a forward. Try again or use command /cancel@mirror_bot"
    );
    assert_eq!(
        Reply::NotFromChannel.text("b"),
        "This message is not forwarded from a channel. Try again or use command /cancel@b"
    );
    assert_eq!(
        Reply::ChannelAdded(channel(3, -42, "News")).text("b"),
        "Added the channel News (id: -42). Now you can add subreddits to this channel."
    );
    assert_eq!(
        Reply::ConfirmUnlink(channel(3, 9, "Cats")).text("b"),
        "Are you sure you want to remove channel \"Cats\" (Id: 9)? Type the channel title to remove it"
    );
    assert_eq!(
        Reply::SubredditLookupFailed("timeout".to_string()).text("b"),
        "Error: timeout. Try again."
    );
    assert_eq!(
        Reply::LinkSubredditPrompt(vec![channel(1, 42, "Gophers")]).text("b"),
        "Got it. Type the ID of the channel you want to link:\n\nChannel name: Gophers\nChannel id: 42\n\n"
    );
    assert_eq!(
        Reply::UnlinkSubredditPrompt(vec![channel(1, 42, "Gophers")]).text("b"),
        "Got it. Type the ID of the channel you want to unlink subreddit from:\n\nChannel name: Gophers\nChannel id: 42\n\n"
    );
    assert_eq!(Reply::UnlinkCancelled.text("b"), "Cancelled unlinking channel.");
    assert_eq!(Reply::ChannelUnlinked.text("b"), "Successfully unlinked channel.");
    assert_eq!(Reply::SubredditIncomplete.text("b"), "Error while fetching subreddit data. Try again.");
    assert_eq!(Reply::MissingSubreddit.text("b"), "Please send a subreddit name.");
    assert_eq!(Reply::SubredditNotUnlinked.text("b"), "Sorry, I couldn't unlink the subreddit. Try again later.");
    assert_eq!(
        Reply::ForwardPrompt.text("b"),
        "Got it. Forward a message from the channel here.\n Remember that this bot needs to be an administrator in that channel first."
    );
}

#[test]
fn admin_pairs_filter_keeps_order() {
    let cands = vec![
        AdminCandidate { channel: channel(1, 10, "A"), admins: vec![1, 99] },
        AdminCandidate { channel: channel(2, 20, "B"), admins: vec![2, 99] },
        AdminCandidate { channel: channel(3, 30, "C"), admins: vec![99, 5, 1] },
        AdminCandidate { channel: channel(4, 40, "D"), admins: vec![1] },
    ];
    let kept = get_channels_where_admins(&cands, 1, 99);
    let titles: Vec<&str> = kept.iter().map(|c| c.title.as_str()).collect();
    assert_eq!(titles, vec!["A", "C"]);
    assert!(get_channels_where_admins(&Vec::new(), 1, 99).is_empty());
}

#[test]
fn sort_type_from_store_text() {
    assert_eq!(SortType::from_sql_text("hot").ok(), Some(SortType::Hot));
    assert_eq!(SortType::from_sql_text("  Rising\n").ok(), Some(SortType::Rising));
    assert_eq!(SortType::from_sql_text("TOP").ok(), Some(SortType::Top));
    assert_eq!(SortType::from_sql_text(" latest").ok(), Some(SortType::Latest));
    match SortType::from_sql_text("newest") {
        Err(e) => assert_eq!(e.text, "newest"),
        Ok(_) => panic!("an unknown sort type was accepted"),
    }
    assert_eq!(SortType::from_normalized("hot"), Some(SortType::Hot));
    assert_eq!(SortType::from_normalized(" hot"), None);
    assert_eq!(SortType::from_normalized("Hot"), None);
}

#[test]
fn config_file_name_from_arguments() {
    let none: Vec<String> = vec!["bot".to_string()];
    assert_eq!(Settings::config_file_name(&none), "tg-subreddit-mirror.toml");
    assert_eq!(Settings::config_file_name(&Vec::new()), "tg-subreddit-mirror.toml");
    let given = vec!["bot".to_string(), "other.toml".to_string(), "x".to_string()];
    assert_eq!(Settings::config_file_name(&given), "other.toml");
}

#[test]
fn new_rows_copy_their_keys() {
    let c = channel(7, -5, "News");
    let f = Subreddit {
        id: 11,
        disabled: false,
        subreddit_id: "t5_2qh0y".to_string(),
        name: "golang".to_string(),
        sorting: SortType::Top,
        post_limit: Some(5),
        respect_external_content_flag: true,
        min_score: None,
        allow_nsfw: false,
        show_spoilers: false,
        medias_only: false,
    };
    let l = NewChannelSubreddit::new(&c, &f);
    assert_eq!(l, NewChannelSubreddit { channel_id: 7, subreddit_id: 11 });
    let n = NewChannel::new(-5, "News".to_string(), None, Some("link".to_string()));
    assert_eq!(n.chat_id, -5);
    assert_eq!(n.title, "News");
    assert_eq!(n.invite_link.as_deref(), Some("link"));
    let copy = c.clone();
    assert_eq!(copy.title, "News");
    assert_eq!(f.clone().subreddit_id, "t5_2qh0y");
}
