use tg_subreddit_mirror::dialogue::channel::State as ChannelState;
use tg_subreddit_mirror::dialogue::subreddit::State as SubState;
use tg_subreddit_mirror::dialogue::{
    handle, Action, AdminCandidate, Command, Event, Fault, FeedInfo, ForwardedChat, Inbound,
    Request, Session, State, Step,
};
use tg_subreddit_mirror::models::{Channel, ChannelSubreddit, Subreddit, SortType};
use tg_subreddit_mirror::reply::Reply;

const BOT: u64 = 999;
const USER: u64 = 7;

/// A store, chat service and subreddit service played in memory.
struct World {
    channels: Vec<Channel>,
    feeds: Vec<Subreddit>,
    links: Vec<ChannelSubreddit>,
    admins: Vec<(i64, Vec<u64>)>,
    known_feeds: Vec<(String, String, String)>,
    next_row: i32,
    requests: Vec<String>,
}

impl World {
    fn new() -> World {
        World {
            channels: Vec::new(),
            feeds: Vec::new(),
            links: Vec::new(),
            admins: Vec::new(),
            known_feeds: Vec::new(),
            next_row: 1,
            requests: Vec::new(),
        }
    }

    fn row(&mut self) -> i32 {
        let r = self.next_row;
        self.next_row += 1;
        r
    }

    fn add_channel(&mut self, chat_id: i64, title: &str, admins: Vec<u64>) -> Channel {
        let id = self.row();
        let c = Channel {
            id,
            chat_id,
            disabled: false,
            title: title.to_string(),
            username: None,
            invite_link: None,
        };
        self.channels.push(c.clone());
        self.admins.push((chat_id, admins));
        c
    }

    fn admins_of(&self, chat_id: i64) -> Vec<u64> {
        for (id, a) in &self.admins {
            if *id == chat_id {
                return a.clone();
            }
        }
        Vec::new()
    }

    fn perform(&mut self, req: Request) -> Event {
        match req {
            Request::ChatAdmins(id) => {
                self.requests.push(format!("admins {}", id));
                Event::Admins(Ok(self.admins_of(id)))
            }
            Request::AdminCandidates => {
                self.requests.push("candidates".to_string());
                let mut out = Vec::new();
                for c in &self.channels {
                    out.push(AdminCandidate { channel: c.clone(), admins: self.admins_of(c.chat_id) });
                }
                Event::Candidates(Ok(out))
            }
            Request::FindChannel(id) => {
                self.requests.push(format!("find channel {}", id));
                Event::ChannelFound(Ok(self.channels.iter().find(|c| c.chat_id == id).cloned()))
            }
            Request::InsertChannel(nc) => {
                self.requests.push(format!("insert channel {}", nc.chat_id));
                let id = self.row();
                let c = Channel {
                    id,
                    chat_id: nc.chat_id,
                    disabled: false,
                    title: nc.title,
                    username: nc.username,
                    invite_link: nc.invite_link,
                };
                self.channels.push(c.clone());
                Event::ChannelSaved(Ok(c))
            }
            Request::DeleteChannel(id) => {
                self.requests.push(format!("delete channel {}", id));
                let before = self.channels.len();
                let rows: Vec<i32> =
                    self.channels.iter().filter(|c| c.chat_id == id).map(|c| c.id).collect();
                self.channels.retain(|c| c.chat_id != id);
                self.links.retain(|l| !rows.contains(&l.channel_id));
                Event::Removed(Ok(before - self.channels.len()))
            }
            Request::ResolveFeed(name) => {
                self.requests.push(format!("resolve {}", name));
                for (n, id, display) in &self.known_feeds {
                    if *n == name {
                        return Event::Resolved(Ok(FeedInfo {
                            id: Some(id.clone()),
                            name: Some(display.clone()),
                        }));
                    }
                }
                Event::Resolved(Err("subreddit not found".to_string()))
            }
            Request::FindFeed(id) => {
                self.requests.push(format!("find feed {}", id));
                Event::FeedFound(Ok(self.feeds.iter().find(|f| f.subreddit_id == id).cloned()))
            }
            Request::FindFeedByName(name) => {
                self.requests.push(format!("find feed named {}", name));
                Event::FeedFound(Ok(self.feeds.iter().find(|f| f.name == name).cloned()))
            }
            Request::InsertFeed(ns) => {
                self.requests.push(format!("insert feed {}", ns.subreddit_id));
                let id = self.row();
                let f = Subreddit {
                    id,
                    disabled: false,
                    subreddit_id: ns.subreddit_id,
                    name: ns.name,
                    sorting: SortType::Hot,
                    post_limit: None,
                    respect_external_content_flag: true,
                    min_score: None,
                    allow_nsfw: false,
                    show_spoilers: false,
                    medias_only: false,
                };
                self.feeds.push(f.clone());
                Event::FeedSaved(Ok(f))
            }
            Request::AreRelated(c, f) => {
                self.requests.push(format!("related {} {}", c.id, f.id));
                Event::Related(Ok(self
                    .links
                    .iter()
                    .any(|l| l.channel_id == c.id && l.subreddit_id == f.id)))
            }
            Request::InsertLink(l) => {
                self.requests.push(format!("insert link {} {}", l.channel_id, l.subreddit_id));
                let id = self.row();
                let row = ChannelSubreddit {
                    id: Some(id),
                    channel_id: l.channel_id,
                    subreddit_id: l.subreddit_id,
                };
                self.links.push(ChannelSubreddit {
                    id: Some(id),
                    channel_id: l.channel_id,
                    subreddit_id: l.subreddit_id,
                });
                Event::LinkSaved(Ok(row))
            }
            Request::DeleteLink(c, f) => {
                self.requests.push(format!("delete link {} {}", c.id, f.id));
                let before = self.links.len();
                self.links.retain(|l| !(l.channel_id == c.id && l.subreddit_id == f.id));
                Event::Removed(Ok(before - self.links.len()))
            }
        }
    }

    /// Runs one turn: the event, then every request it leads to, until the
    /// reply (or nothing).
    fn turn(&mut self, session: Session, event: Event) -> (Session, Action) {
        let (mut s, mut a) = handle(session, event, BOT);
        loop {
            match a {
                Action::Request(req) => {
                    let e = self.perform(req);
                    let r = handle(s, e, BOT);
                    s = r.0;
                    a = r.1;
                }
                other => return (s, other),
            }
        }
    }
}

fn menu() -> Session {
    Session { state: State::MainMenu, step: Step::Idle }
}

fn inbound(text: Option<&str>) -> Inbound {
    Inbound { from: Some(USER), text: text.map(|t| t.to_string()), forward: None }
}

fn command(c: Command) -> Event {
    Event::Command(c, inbound(None))
}

fn text(t: &str) -> Event {
    Event::Message(inbound(Some(t)))
}

fn forwarded(chat_id: i64, is_channel: bool, title: &str) -> Event {
    Event::Message(Inbound {
        from: Some(USER),
        text: None,
        forward: Some(ForwardedChat {
            id: chat_id,
            is_channel,
            title: Some(title.to_string()),
            username: Some("news_handle".to_string()),
            invite_link: None,
        }),
    })
}

fn reply_of(a: &Action) -> String {
    match a {
        Action::Reply(r) => r.text("mirror_bot"),
        Action::Request(_) => panic!("the turn ended on a request"),
        Action::Ignore => panic!("the turn was ignored"),
    }
}

#[test]
fn link_channel_end_to_end() {
    let mut w = World::new();
    w.admins.push((-100, vec![USER]));
    w.admins.push((-200, vec![USER, BOT]));

    let (s, a) = w.turn(menu(), command(Command::LinkChannel));
    assert!(matches!(s.state, State::Channel(ChannelState::LinkReceiveChannel)));
    assert!(matches!(a, Action::Reply(Reply::ForwardPrompt)));

    let (s, a) = w.turn(s, forwarded(-100, true, "Other"));
    assert!(matches!(s.state, State::Channel(ChannelState::LinkReceiveChannel)));
    assert!(matches!(s.step, Step::Idle));
    assert!(matches!(a, Action::Reply(Reply::BotNotAdmin)));
    assert_eq!(
        reply_of(&a),
        "This bot is not an administrator in this channel. Try again or use command /cancel@mirror_bot"
    );
    assert!(w.channels.is_empty());

    let (s, a) = w.turn(s, forwarded(-200, true, "News"));
    assert!(matches!(s.state, State::MainMenu));
    assert_eq!(w.channels.len(), 1);
    assert_eq!(w.channels[0].chat_id, -200);
    assert_eq!(w.channels[0].title, "News");
    assert_eq!(w.channels[0].username.as_deref(), Some("news_handle"));
    assert_eq!(
        reply_of(&a),
        "Added the channel News (id: -200). Now you can add subreddits to this channel."
    );
}

#[test]
fn link_channel_twice_keeps_one_row() {
    let mut w = World::new();
    w.admins.push((-200, vec![BOT]));
    for _ in 0..2 {
        let (s, _) = w.turn(menu(), command(Command::LinkChannel));
        let (s, a) = w.turn(s, forwarded(-200, true, "News"));
        assert!(matches!(s.state, State::MainMenu));
        assert!(matches!(a, Action::Reply(Reply::ChannelAdded(_))));
    }
    assert_eq!(w.channels.len(), 1);
    assert_eq!(w.requests.iter().filter(|r| r.starts_with("insert channel")).count(), 1);
}

#[test]
fn link_channel_rejects_plain_and_group_messages() {
    let mut w = World::new();
    let (s, _) = w.turn(menu(), command(Command::LinkChannel));
    let (s, a) = w.turn(s, text("hello"));
    assert!(matches!(a, Action::Reply(Reply::NotForwarded)));
    assert!(matches!(s.state, State::Channel(ChannelState::LinkReceiveChannel)));
    let (s, a) = w.turn(s, forwarded(-5, false, "A group"));
    assert!(matches!(a, Action::Reply(Reply::NotFromChannel)));
    assert!(matches!(s.state, State::Channel(ChannelState::LinkReceiveChannel)));
    assert!(w.requests.is_empty());
}

#[test]
fn link_channel_without_title_stores_empty_title() {
    let mut w = World::new();
    w.admins.push((-300, vec![BOT]));
    let (s, _) = w.turn(menu(), command(Command::LinkChannel));
    let e = Event::Message(Inbound {
        from: Some(USER),
        text: None,
        forward: Some(ForwardedChat {
            id: -300,
            is_channel: true,
            title: None,
            username: None,
            invite_link: Some("https://t.me/+abc".to_string()),
        }),
    });
    let (s, _) = w.turn(s, e);
    assert!(matches!(s.state, State::MainMenu));
    assert_eq!(w.channels[0].title, "");
    assert_eq!(w.channels[0].invite_link.as_deref(), Some("https://t.me/+abc"));
}

#[test]
fn link_subreddit_end_to_end_and_repeat() {
    let mut w = World::new();
    w.add_channel(42, "Gophers", vec![USER, BOT]);
    w.known_feeds.push(("golang".to_string(), "r1".to_string(), "golang".to_string()));

    for round in 0..2 {
        let (s, a) = w.turn(menu(), command(Command::LinkSubreddit));
        assert!(matches!(s.state, State::Sub(SubState::LinkReceiveChannel)));
        assert_eq!(
            reply_of(&a),
            "Got it. Type the ID of the channel you want to link:\n\nChannel name: Gophers\nChannel id: 42\n\n"
        );
        let (s, a) = w.turn(s, text("42"));
        assert!(matches!(a, Action::Reply(Reply::SubredditPrompt)));
        match &s.state {
            State::Sub(SubState::LinkReceiveSub(c)) => assert_eq!(c.chat_id, 42),
            _ => panic!("expected to wait for a subreddit name"),
        }
        let (s, a) = w.turn(s, text("golang"));
        assert!(matches!(s.state, State::MainMenu));
        assert_eq!(reply_of(&a), "Subreddit successfully linked to the channel.");
        assert_eq!(w.feeds.len(), 1, "round {}", round);
        assert_eq!(w.links.len(), 1, "round {}", round);
    }
    assert_eq!(w.feeds[0].subreddit_id, "r1");
    assert_eq!(w.feeds[0].name, "golang");
    assert_eq!(w.links[0].channel_id, w.channels[0].id);
    assert_eq!(w.links[0].subreddit_id, w.feeds[0].id);
    assert_eq!(w.requests.iter().filter(|r| r.starts_with("insert feed")).count(), 1);
    assert_eq!(w.requests.iter().filter(|r| r.starts_with("insert link")).count(), 1);
}

#[test]
fn link_subreddit_keeps_channel_after_lookup_error() {
    let mut w = World::new();
    w.add_channel(42, "Gophers", vec![USER, BOT]);
    let (s, _) = w.turn(menu(), command(Command::LinkSubreddit));
    let (s, _) = w.turn(s, text("42"));
    let (s, a) = w.turn(s, text("nosuchsub"));
    assert_eq!(reply_of(&a), "Error: subreddit not found. Try again.");
    match &s.state {
        State::Sub(SubState::LinkReceiveSub(c)) => assert_eq!(c.chat_id, 42),
        _ => panic!("the chosen channel was lost"),
    }
}

#[test]
fn resolver_answer_without_id_asks_again() {
    let c = Channel {
        id: 1,
        chat_id: 42,
        disabled: false,
        title: "Gophers".to_string(),
        username: None,
        invite_link: None,
    };
    let s = Session { state: State::Sub(SubState::LinkReceiveSub(c)), step: Step::ResolveFeed };
    let e = Event::Resolved(Ok(FeedInfo { id: None, name: Some("golang".to_string()) }));
    let (s, a) = handle(s, e, BOT);
    assert!(matches!(a, Action::Reply(Reply::SubredditIncomplete)));
    assert!(matches!(s.state, State::Sub(SubState::LinkReceiveSub(_))));
    assert!(matches!(s.step, Step::Idle));
}

#[test]
fn unlink_confirmation_is_case_sensitive() {
    let mut w = World::new();
    w.add_channel(-10, "News", vec![USER, BOT]);
    let (s, a) = w.turn(menu(), command(Command::UnlinkChannel));
    assert!(matches!(s.state, State::Channel(ChannelState::UnlinkReceiveChannel)));
    assert_eq!(
        reply_of(&a),
        "Okay. Type the ID of the channel you want to unlink:\n\nChannel name: News\nChannel id: -10\n\n"
    );
    let (s, a) = w.turn(s, text("-10"));
    assert_eq!(
        reply_of(&a),
        "Are you sure you want to remove channel \"News\" (Id: -10)? Type the channel title to remove it"
    );
    let (s, a) = w.turn(s, text("news"));
    assert!(matches!(s.state, State::MainMenu));
    assert_eq!(reply_of(&a), "Cancelled unlinking channel.");
    assert_eq!(w.channels.len(), 1);
}

#[test]
fn unlink_channel_with_exact_title() {
    let mut w = World::new();
    w.add_channel(-10, "News", vec![USER, BOT]);
    let (s, _) = w.turn(menu(), command(Command::UnlinkChannel));
    let (s, _) = w.turn(s, text("-10"));
    let (s, a) = w.turn(s, text("News"));
    assert!(matches!(s.state, State::MainMenu));
    assert_eq!(reply_of(&a), "Successfully unlinked channel.");
    assert!(w.channels.is_empty());
}

#[test]
fn unlink_channel_reports_no_row_removed() {
    let c = Channel {
        id: 1,
        chat_id: -10,
        disabled: false,
        title: "News".to_string(),
        username: None,
        invite_link: None,
    };
    let s = Session {
        state: State::Channel(ChannelState::UnlinkConfirm(c)),
        step: Step::RemoveChannel,
    };
    let (s, a) = handle(s, Event::Removed(Ok(0)), BOT);
    assert!(matches!(s.state, State::MainMenu));
    assert_eq!(reply_of(&a), "Sorry, I couldn't unlink the channel. Try again later.");
}

#[test]
fn channel_id_must_be_a_number_of_a_linked_channel() {
    let mut w = World::new();
    w.add_channel(-10, "News", vec![USER, BOT]);
    let (s, _) = w.turn(menu(), command(Command::UnlinkChannel));
    let (s, a) = w.turn(s, text("abc"));
    assert!(matches!(a, Action::Reply(Reply::InvalidChannelId)));
    assert!(matches!(s.state, State::Channel(ChannelState::UnlinkReceiveChannel)));
    let (s, a) = w.turn(s, text("-11"));
    assert!(matches!(a, Action::Reply(Reply::ChannelNotFound)));
    assert!(matches!(s.state, State::Channel(ChannelState::UnlinkReceiveChannel)));
    let (s, a) = w.turn(s, Event::Message(Inbound { from: Some(USER), text: None, forward: None }));
    assert!(matches!(a, Action::Reply(Reply::MissingChannelId)));
    assert!(matches!(s.state, State::Channel(ChannelState::UnlinkReceiveChannel)));
}

#[test]
fn listing_keeps_channels_administered_by_user_and_bot() {
    let mut w = World::new();
    w.add_channel(1, "A", vec![1, BOT]);
    w.add_channel(2, "B", vec![2, BOT]);
    let e = Event::Command(Command::ListChannels, Inbound { from: Some(1), text: None, forward: None });
    let (s, a) = w.turn(menu(), e);
    assert!(matches!(s.state, State::MainMenu));
    match &a {
        Action::Reply(Reply::ChannelList(cs)) => {
            assert_eq!(cs.len(), 1);
            assert_eq!(cs[0].title, "A");
        }
        _ => panic!("expected a channel list"),
    }
    assert_eq!(reply_of(&a), "Channel name: A\nChannel id: 1\n\n");
}

#[test]
fn listing_without_channels_stops() {
    let mut w = World::new();
    w.add_channel(2, "B", vec![2, BOT]);
    let (s, a) = w.turn(menu(), command(Command::LinkSubreddit));
    assert!(matches!(s.state, State::MainMenu));
    assert_eq!(reply_of(&a), "No channels found. Try adding a new channel first");
    let (s, a) = w.turn(menu(), command(Command::UnlinkChannel));
    assert!(matches!(s.state, State::MainMenu));
    assert!(matches!(a, Action::Reply(Reply::NoChannels)));
}

#[test]
fn listing_needs_a_known_sender() {
    let mut w = World::new();
    let e = Event::Command(Command::UnlinkSubreddit, Inbound { from: None, text: None, forward: None });
    let (s, a) = w.turn(menu(), e);
    assert!(matches!(s.state, State::MainMenu));
    assert_eq!(reply_of(&a), "Couldn't recognize the user. Try again.");
    assert!(w.requests.is_empty());
}

#[test]
fn unlink_subreddit_end_to_end() {
    let mut w = World::new();
    w.add_channel(42, "Gophers", vec![USER, BOT]);
    w.known_feeds.push(("golang".to_string(), "r1".to_string(), "golang".to_string()));
    let (s, _) = w.turn(menu(), command(Command::LinkSubreddit));
    let (s, _) = w.turn(s, text("42"));
    let _ = w.turn(s, text("golang"));
    assert_eq!(w.links.len(), 1);

    let (s, a) = w.turn(menu(), command(Command::UnlinkSubreddit));
    assert!(matches!(s.state, State::Sub(SubState::UnlinkReceiveChannel)));
    assert!(matches!(a, Action::Reply(Reply::UnlinkSubredditPrompt(_))));
    let (s, _) = w.turn(s, text("42"));
    assert!(matches!(s.state, State::Sub(SubState::UnlinkReceiveSub(_))));
    let (s, a) = w.turn(s, text("rust"));
    assert!(matches!(a, Action::Reply(Reply::SubredditNotLinked)));
    assert!(matches!(s.state, State::Sub(SubState::UnlinkReceiveSub(_))));
    let (s, a) = w.turn(s, text("golang"));
    assert!(matches!(s.state, State::MainMenu));
    assert_eq!(reply_of(&a), "Subreddit successfully unlinked from the channel.");
    assert!(w.links.is_empty());
    assert_eq!(w.feeds.len(), 1);
}

#[test]
fn cancel_returns_to_menu_from_every_state() {
    let c = Channel {
        id: 1,
        chat_id: 42,
        disabled: false,
        title: "Gophers".to_string(),
        username: None,
        invite_link: None,
    };
    let states = vec![
        State::MainMenu,
        State::Channel(ChannelState::LinkReceiveChannel),
        State::Channel(ChannelState::UnlinkReceiveChannel),
        State::Channel(ChannelState::UnlinkConfirm(c.clone())),
        State::Sub(SubState::LinkReceiveChannel),
        State::Sub(SubState::LinkReceiveSub(c.clone())),
        State::Sub(SubState::UnlinkReceiveChannel),
        State::Sub(SubState::UnlinkReceiveSub(c)),
    ];
    for state in states {
        let mut s = Session { state, step: Step::SaveLink };
        for _ in 0..3 {
            let (next, a) = handle(s, command(Command::Cancel), BOT);
            assert!(matches!(next.state, State::MainMenu));
            assert!(matches!(next.step, Step::Idle));
            assert_eq!(reply_of(&a), "Operation cancelled.");
            s = next;
        }
    }
}

#[test]
fn help_keeps_the_state() {
    let (s, a) = handle(
        Session { state: State::Sub(SubState::LinkReceiveChannel), step: Step::Idle },
        command(Command::Help),
        BOT,
    );
    assert!(matches!(s.state, State::Sub(SubState::LinkReceiveChannel)));
    assert!(reply_of(&a).starts_with("These commands are supported:\n/help"));
}

#[test]
fn other_commands_wait_for_the_current_operation() {
    let (s, a) = handle(
        Session { state: State::Channel(ChannelState::LinkReceiveChannel), step: Step::Idle },
        command(Command::ListChannels),
        BOT,
    );
    assert!(matches!(s.state, State::Channel(ChannelState::LinkReceiveChannel)));
    assert_eq!(
        reply_of(&a),
        "Finish the current operation first. Try again or use command /cancel@mirror_bot"
    );
}

#[test]
fn text_in_main_menu_is_ignored() {
    let (s, a) = handle(menu(), text("hello"), BOT);
    assert!(matches!(s.state, State::MainMenu));
    assert!(matches!(a, Action::Ignore));
}

#[test]
fn stray_outcome_changes_nothing() {
    let (s, a) = handle(menu(), Event::Related(Ok(true)), BOT);
    assert!(matches!(s.state, State::MainMenu));
    assert!(matches!(s.step, Step::Idle));
    assert!(matches!(a, Action::Ignore));
    let (s, a) = handle(
        Session { state: State::Channel(ChannelState::UnlinkReceiveChannel), step: Step::LookupChannel },
        Event::Removed(Ok(1)),
        BOT,
    );
    assert!(matches!(s.step, Step::LookupChannel));
    assert!(matches!(a, Action::Ignore));
}

#[test]
fn unavailable_collaborator_keeps_the_state() {
    let s = Session { state: State::Sub(SubState::LinkReceiveChannel), step: Step::LookupChannel };
    let (s, a) = handle(s, Event::ChannelFound(Err(Fault::Unavailable)), BOT);
    assert!(matches!(s.state, State::Sub(SubState::LinkReceiveChannel)));
    assert!(matches!(s.step, Step::Idle));
    assert_eq!(reply_of(&a), "Something went wrong. Try again later.");
}

#[test]
fn refused_change_returns_to_menu() {
    let s = Session { state: State::Channel(ChannelState::LinkReceiveChannel), step: Step::SaveChannel };
    let (s, a) = handle(s, Event::ChannelSaved(Err(Fault::Conflict)), BOT);
    assert!(matches!(s.state, State::MainMenu));
    assert_eq!(reply_of(&a), "Sorry, the operation failed. Start again from the menu.");
}

#[test]
fn failed_admin_lookup_keeps_link_flow() {
    let mut w = World::new();
    let (s, _) = w.turn(menu(), command(Command::LinkChannel));
    let (s, a) = handle(s, forwarded(-200, true, "News"), BOT);
    assert!(matches!(a, Action::Request(Request::ChatAdmins(-200))));
    let (s, a) = handle(s, Event::Admins(Err(Fault::Unavailable)), BOT);
    assert!(matches!(a, Action::Reply(Reply::TryLater)));
    assert!(matches!(s.state, State::Channel(ChannelState::LinkReceiveChannel)));
}
