//! The per-user conversation: its state, what comes in, and what the bot
//! does in answer.
//!
//! A user's message starts a turn. The turn goes on while the state machine
//! asks for outside work (an administrator list, a store operation, a
//! subreddit lookup); the caller performs it and hands the outcome back as the
//! next event. It ends with exactly one reply, or with the message ignored.
use vstd::prelude::*;
use crate::models::{Channel, ChannelSubreddit, NewChannel, NewChannelSubreddit, NewSubreddit, Subreddit};
use crate::decimal::{i64_of, parse_i64};
use crate::reply::Reply;

pub mod channel;
pub mod store;
pub mod subreddit;

verus! {

/// The commands that users can send.
#[derive(Clone, Copy, Debug, PartialEq, Eq, Structural)]
pub enum Command {
    Help,
    Cancel,
    LinkChannel,
    UnlinkChannel,
    ListChannels,
    LinkSubreddit,
    UnlinkSubreddit,
}

/// The chat that a message was forwarded from.
pub struct ForwardedChat {
    pub id: i64,
    /// Whether that chat is a channel (not a private chat or a group).
    pub is_channel: bool,
    pub title: Option<String>,
    pub username: Option<String>,
    pub invite_link: Option<String>,
}

/// What the state machine reads of a user's message.
pub struct Inbound {
    /// The sender's user id, where the message names one.
    pub from: Option<u64>,
    pub text: Option<String>,
    pub forward: Option<ForwardedChat>,
}

/// Why an outside operation did not give its result.
#[derive(Clone, Copy, Debug, PartialEq, Eq, Structural)]
pub enum Fault {
    /// The collaborator could not be reached or timed out: nothing was changed.
    Unavailable,
    /// The store refused the change (a unique key was taken meanwhile).
    Conflict,
}

/// A linked channel with the user ids of its administrators.
pub struct AdminCandidate {
    pub channel: Channel,
    pub admins: Vec<u64>,
}

/// What the subreddit service reports of a subreddit.
pub struct FeedInfo {
    pub id: Option<String>,
    pub name: Option<String>,
}

/// Why a listing of channels was asked for.
#[derive(Clone, Copy, Debug, PartialEq, Eq, Structural)]
pub enum Listing {
    Show,
    UnlinkChannel,
    LinkSubreddit,
    UnlinkSubreddit,
}

/// What comes into the state machine: a user's message, or the outcome of
/// the outside work that it asked for.
pub enum Event {
    Command(Command, Inbound),
    Message(Inbound),
    /// The user ids of a chat's administrators.
    Admins(Result<Vec<u64>, Fault>),
    /// Every linked channel with its administrators.
    Candidates(Result<Vec<AdminCandidate>, Fault>),
    ChannelFound(Result<Option<Channel>, Fault>),
    ChannelSaved(Result<Channel, Fault>),
    /// How many rows a deletion removed.
    Removed(Result<usize, Fault>),
    /// The subreddit service's answer, or its error text.
    Resolved(Result<FeedInfo, String>),
    FeedFound(Result<Option<Subreddit>, Fault>),
    FeedSaved(Result<Subreddit, Fault>),
    /// Whether a channel already mirrors a subreddit.
    Related(Result<bool, Fault>),
    LinkSaved(Result<ChannelSubreddit, Fault>),
}

/// Outside work that the state machine asks for.
pub enum Request {
    /// Administrators of the chat with this id: answered by `Admins`.
    ChatAdmins(i64),
    /// Every linked channel with its administrators: answered by `Candidates`.
    AdminCandidates,
    /// The channel with this chat id: answered by `ChannelFound`.
    FindChannel(i64),
    /// Answered by `ChannelSaved`.
    InsertChannel(NewChannel),
    /// Deletes the channel with this chat id: answered by `Removed`.
    DeleteChannel(i64),
    /// Looks a subreddit name up at the subreddit service: answered by `Resolved`.
    ResolveFeed(String),
    /// The subreddit with this service id: answered by `FeedFound`.
    FindFeed(String),
    /// The subreddit with this name: answered by `FeedFound`.
    FindFeedByName(String),
    /// Answered by `FeedSaved`.
    InsertFeed(NewSubreddit),
    /// Answered by `Related`.
    AreRelated(Channel, Subreddit),
    /// Answered by `LinkSaved`.
    InsertLink(NewChannelSubreddit),
    /// Answered by `Removed`.
    DeleteLink(Channel, Subreddit),
}

/// What the bot does next.
pub enum Action {
    Request(Request),
    /// Sends the reply; the turn is over.
    Reply(Reply),
    /// Nothing to do; the turn is over.
    Ignore,
}

/// Where a user stands in a conversation.
pub enum State {
    MainMenu,
    Channel(channel::State),
    Sub(subreddit::State),
}

/// The outside work that a turn waits for.
pub enum Step {
    Idle,
    /// The administrators of the forwarded channel.
    CheckBotAdmin(ForwardedChat),
    /// Whether the forwarded channel is stored already.
    LookupLinked(ForwardedChat),
    SaveChannel,
    /// The linked channels with their administrators, for this user.
    Listing(Listing, u64),
    /// The channel whose id the user typed.
    LookupChannel,
    RemoveChannel,
    ResolveFeed,
    /// The stored subreddit with the service id of this one.
    LookupFeed(NewSubreddit),
    SaveFeed,
    /// Whether the channel mirrors this subreddit.
    CheckLinked(Subreddit),
    SaveLink,
    LookupFeedByName,
    RemoveLink,
}

/// One user's conversation.
pub struct Session {
    pub state: State,
    pub step: Step,
}

/// The conversation in `state`, waiting for the user.
pub open spec fn idle(state: State) -> Session {
    Session { state, step: Step::Idle }
}

/// The conversation in `state`, waiting for the outside work of `step`.
pub open spec fn waiting(state: State, step: Step) -> Session {
    Session { state, step }
}

/// What a failed outside operation leads to: where nothing changed, the user
/// stays where the turn started; where the store refused a change, the
/// operation is abandoned.
pub open spec fn failed(state: State, fault: Fault, next: Session, a: Action) -> bool {
    match fault {
        Fault::Unavailable => next == idle(state) && a == Action::Reply(Reply::TryLater),
        Fault::Conflict => next == idle(State::MainMenu) && a == Action::Reply(Reply::Failed),
    }
}

/// Ends a turn whose outside operation failed, as `failed` describes.
pub(crate) fn fail(state: State, fault: Fault) -> (r: (Session, Action))
    ensures
        failed(state, fault, r.0, r.1),
{
    match fault {
        Fault::Unavailable => (Session { state, step: Step::Idle }, Action::Reply(Reply::TryLater)),
        Fault::Conflict => (
            Session { state: State::MainMenu, step: Step::Idle },
            Action::Reply(Reply::Failed),
        ),
    }
}

/// Whether `id` is one of `ids`.
pub(crate) fn contains_id(ids: &Vec<u64>, id: u64) -> (r: bool)
    ensures
        r == ids@.contains(id),
{
    let mut i: usize = 0;
    while i < ids.len()
        invariant
            i <= ids@.len(),
            forall|j: int| 0 <= j < i ==> ids@[j] != id,
        decreases ids.len() - i,
    {
        if ids[i] == id {
            assert(ids@[i as int] == id);
            return true;
        }
        i = i + 1;
    }
    false
}

/// A command that lists channels: the sender must be known; then every
/// linked channel is asked for with its administrators.
pub open spec fn listing_requested(purpose: Listing, msg: Inbound, next: Session, a: Action) -> bool {
    match msg.from {
        None => next == idle(State::MainMenu) && a == Action::Reply(Reply::UnknownUser),
        Some(user) => next == waiting(State::MainMenu, Step::Listing(purpose, user)) && a
            == Action::Request(Request::AdminCandidates),
    }
}

pub fn request_listing(purpose: Listing, msg: Inbound) -> (r: (Session, Action))
    ensures
        listing_requested(purpose, msg, r.0, r.1),
{
    match msg.from {
        None => (Session { state: State::MainMenu, step: Step::Idle }, Action::Reply(Reply::UnknownUser)),
        Some(user) => (
            Session { state: State::MainMenu, step: Step::Listing(purpose, user) },
            Action::Request(Request::AdminCandidates),
        ),
    }
}

/// The linked channels came back with their administrators: those that the
/// user and the bot both administer are listed, and the conversation that
/// asked for them goes on; where there are none, it stops.
pub open spec fn listing_outcome(
    state: State,
    purpose: Listing,
    user_id: u64,
    bot_id: u64,
    candidates: Result<Vec<AdminCandidate>, Fault>,
    next: Session,
    a: Action,
) -> bool {
    match candidates {
        Err(fault) => failed(state, fault, next, a),
        Ok(cs) => {
            let chans = channel::channels_where_admins(cs@, user_id, bot_id);
            if chans.len() == 0 {
                next == idle(State::MainMenu) && a == Action::Reply(Reply::NoChannels)
            } else {
                match purpose {
                    Listing::Show => next == idle(State::MainMenu) && (a matches Action::Reply(
                        Reply::ChannelList(v),
                    ) && v@ == chans),
                    Listing::UnlinkChannel => next == idle(
                        State::Channel(channel::State::UnlinkReceiveChannel),
                    ) && (a matches Action::Reply(Reply::UnlinkChannelPrompt(v)) && v@ == chans),
                    Listing::LinkSubreddit => next == idle(
                        State::Sub(subreddit::State::LinkReceiveChannel),
                    ) && (a matches Action::Reply(Reply::LinkSubredditPrompt(v)) && v@ == chans),
                    Listing::UnlinkSubreddit => next == idle(
                        State::Sub(subreddit::State::UnlinkReceiveChannel),
                    ) && (a matches Action::Reply(Reply::UnlinkSubredditPrompt(v)) && v@ == chans),
                }
            }
        },
    }
}

pub fn on_candidates(
    state: State,
    purpose: Listing,
    user_id: u64,
    bot_id: u64,
    candidates: Result<Vec<AdminCandidate>, Fault>,
) -> (r: (Session, Action))
    ensures
        listing_outcome(state, purpose, user_id, bot_id, candidates, r.0, r.1),
{
    match candidates {
        Err(fault) => fail(state, fault),
        Ok(cs) => {
            let chans = channel::get_channels_where_admins(&cs, user_id, bot_id);
            if chans.len() == 0 {
                (Session { state: State::MainMenu, step: Step::Idle }, Action::Reply(Reply::NoChannels))
            } else {
                match purpose {
                    Listing::Show => (
                        Session { state: State::MainMenu, step: Step::Idle },
                        Action::Reply(Reply::ChannelList(chans)),
                    ),
                    Listing::UnlinkChannel => (
                        Session {
                            state: State::Channel(channel::State::UnlinkReceiveChannel),
                            step: Step::Idle,
                        },
                        Action::Reply(Reply::UnlinkChannelPrompt(chans)),
                    ),
                    Listing::LinkSubreddit => (
                        Session {
                            state: State::Sub(subreddit::State::LinkReceiveChannel),
                            step: Step::Idle,
                        },
                        Action::Reply(Reply::LinkSubredditPrompt(chans)),
                    ),
                    Listing::UnlinkSubreddit => (
                        Session {
                            state: State::Sub(subreddit::State::UnlinkReceiveChannel),
                            step: Step::Idle,
                        },
                        Action::Reply(Reply::UnlinkSubredditPrompt(chans)),
                    ),
                }
            }
        },
    }
}

/// A message while waiting for a channel id: the text must spell a number,
/// which is then looked up in the store; else the user is asked again.
pub open spec fn channel_id_outcome(state: State, msg: Inbound, next: Session, a: Action) -> bool {
    match msg.text {
        None => next == idle(state) && a == Action::Reply(Reply::MissingChannelId),
        Some(t) => match i64_of(t@) {
            None => next == idle(state) && a == Action::Reply(Reply::InvalidChannelId),
            Some(id) => next == waiting(state, Step::LookupChannel) && a == Action::Request(
                Request::FindChannel(id as i64),
            ),
        },
    }
}

pub fn receive_channel_id(state: State, msg: Inbound) -> (r: (Session, Action))
    ensures
        channel_id_outcome(state, msg, r.0, r.1),
{
    match msg.text {
        None => (Session { state, step: Step::Idle }, Action::Reply(Reply::MissingChannelId)),
        Some(t) => match parse_i64(t.as_str()) {
            None => (Session { state, step: Step::Idle }, Action::Reply(Reply::InvalidChannelId)),
            Some(id) => (
                Session { state, step: Step::LookupChannel },
                Action::Request(Request::FindChannel(id)),
            ),
        },
    }
}

/// The channel whose id the user typed came back from the store: a known
/// channel moves the conversation on; an unknown one has the id asked for
/// again.
pub open spec fn channel_found_outcome(
    state: State,
    found: Result<Option<Channel>, Fault>,
    next: Session,
    a: Action,
) -> bool {
    match found {
        Err(fault) => failed(state, fault, next, a),
        Ok(None) => next == idle(state) && a == Action::Reply(Reply::ChannelNotFound),
        Ok(Some(c)) => match state {
            State::Channel(channel::State::UnlinkReceiveChannel) => next == idle(
                State::Channel(channel::State::UnlinkConfirm(c)),
            ) && a == Action::Reply(Reply::ConfirmUnlink(c)),
            State::Sub(subreddit::State::LinkReceiveChannel) => next == idle(
                State::Sub(subreddit::State::LinkReceiveSub(c)),
            ) && a == Action::Reply(Reply::SubredditPrompt),
            State::Sub(subreddit::State::UnlinkReceiveChannel) => next == idle(
                State::Sub(subreddit::State::UnlinkReceiveSub(c)),
            ) && a == Action::Reply(Reply::SubredditPrompt),
            _ => next == idle(state) && a == Action::Ignore,
        },
    }
}

pub fn on_channel_found(state: State, found: Result<Option<Channel>, Fault>) -> (r: (Session, Action))
    ensures
        channel_found_outcome(state, found, r.0, r.1),
{
    match found {
        Err(fault) => fail(state, fault),
        Ok(None) => (Session { state, step: Step::Idle }, Action::Reply(Reply::ChannelNotFound)),
        Ok(Some(c)) => match state {
            State::Channel(channel::State::UnlinkReceiveChannel) => {
                let shown = c.clone();
                (
                    Session {
                        state: State::Channel(channel::State::UnlinkConfirm(c)),
                        step: Step::Idle,
                    },
                    Action::Reply(Reply::ConfirmUnlink(shown)),
                )
            },
            State::Sub(subreddit::State::LinkReceiveChannel) => (
                Session { state: State::Sub(subreddit::State::LinkReceiveSub(c)), step: Step::Idle },
                Action::Reply(Reply::SubredditPrompt),
            ),
            State::Sub(subreddit::State::UnlinkReceiveChannel) => (
                Session { state: State::Sub(subreddit::State::UnlinkReceiveSub(c)), step: Step::Idle },
                Action::Reply(Reply::SubredditPrompt),
            ),
            other => (Session { state: other, step: Step::Idle }, Action::Ignore),
        },
    }
}

/// Who takes an event.
#[derive(Clone, Copy, Debug, PartialEq, Eq, Structural)]
pub enum Route {
    Help,
    Cancel,
    /// A command in the middle of a conversation.
    FinishFirst,
    /// A message that no conversation waits for.
    Ignore,
    Channel(channel::Endpoint),
    Sub(subreddit::Endpoint),
    /// The outcome of outside work, taken by the step that waits for it.
    Outcome,
}

/// Help and cancel are taken in every state; the other commands only from
/// the main menu; a message by the conversation that waits for one.
pub open spec fn dispatch(state: State, event: Event) -> Route {
    match event {
        Event::Command(Command::Help, _) => Route::Help,
        Event::Command(Command::Cancel, _) => Route::Cancel,
        Event::Command(_, _) | Event::Message(_) => match channel::route(state, event) {
            Some(ep) => Route::Channel(ep),
            None => match subreddit::route(state, event) {
                Some(ep) => Route::Sub(ep),
                None => if event is Command {
                    Route::FinishFirst
                } else {
                    Route::Ignore
                },
            },
        },
        _ => Route::Outcome,
    }
}

pub fn dispatcher_schema(state: &State, event: &Event) -> (r: Route)
    ensures
        r == dispatch(*state, *event),
{
    match event {
        Event::Command(Command::Help, _) => Route::Help,
        Event::Command(Command::Cancel, _) => Route::Cancel,
        Event::Command(_, _) | Event::Message(_) => match channel::schema(state, event) {
            Some(ep) => Route::Channel(ep),
            None => match subreddit::schema(state, event) {
                Some(ep) => Route::Sub(ep),
                None => if let Event::Command(_, _) = event {
                    Route::FinishFirst
                } else {
                    Route::Ignore
                },
            },
        },
        _ => Route::Outcome,
    }
}

/// What a user's message leads to, once routed.
pub open spec fn user_event_outcome(state: State, msg: Inbound, route: Route, next: Session, a: Action) -> bool {
    match route {
        Route::Help => next == idle(state) && a == Action::Reply(Reply::Help),
        Route::Cancel => next == idle(State::MainMenu) && a == Action::Reply(Reply::Cancelled),
        Route::FinishFirst => next == idle(state) && a == Action::Reply(Reply::FinishFirst),
        Route::Channel(channel::Endpoint::OnChannelList) => listing_requested(Listing::Show, msg, next, a),
        Route::Channel(channel::Endpoint::OnChannelLink) => next == idle(
            State::Channel(channel::State::LinkReceiveChannel),
        ) && a == Action::Reply(Reply::ForwardPrompt),
        Route::Channel(channel::Endpoint::OnChannelUnlink) => listing_requested(
            Listing::UnlinkChannel,
            msg,
            next,
            a,
        ),
        Route::Channel(channel::Endpoint::OnChannelLinkMsg) => channel::link_msg_outcome(msg, next, a),
        Route::Channel(channel::Endpoint::OnChannelUnlinkMsg) => channel_id_outcome(state, msg, next, a),
        Route::Channel(channel::Endpoint::OnChannelUnlinkConfirm) => match state {
            State::Channel(channel::State::UnlinkConfirm(c)) => channel::unlink_confirm_outcome(c, msg, next, a),
            _ => next == idle(state) && a == Action::Ignore,
        },
        Route::Sub(subreddit::Endpoint::OnSubLink) => listing_requested(Listing::LinkSubreddit, msg, next, a),
        Route::Sub(subreddit::Endpoint::OnSubUnlink) => listing_requested(
            Listing::UnlinkSubreddit,
            msg,
            next,
            a,
        ),
        Route::Sub(subreddit::Endpoint::OnSubLinkChannel) => channel_id_outcome(state, msg, next, a),
        Route::Sub(subreddit::Endpoint::OnSubUnlinkChannel) => channel_id_outcome(state, msg, next, a),
        Route::Sub(subreddit::Endpoint::OnSubLinkSub) => subreddit::sub_name_outcome(state, msg, next, a),
        Route::Sub(subreddit::Endpoint::OnSubUnlinkSub) => subreddit::sub_name_outcome(state, msg, next, a),
        Route::Ignore | Route::Outcome => next == idle(state) && a == Action::Ignore,
    }
}

fn on_user_event(state: State, msg: Inbound, route: Route) -> (r: (Session, Action))
    ensures
        user_event_outcome(state, msg, route, r.0, r.1),
{
    match route {
        Route::Help => (Session { state, step: Step::Idle }, Action::Reply(Reply::Help)),
        Route::Cancel => (Session { state: State::MainMenu, step: Step::Idle }, Action::Reply(Reply::Cancelled)),
        Route::FinishFirst => (Session { state, step: Step::Idle }, Action::Reply(Reply::FinishFirst)),
        Route::Channel(channel::Endpoint::OnChannelList) => request_listing(Listing::Show, msg),
        Route::Channel(channel::Endpoint::OnChannelLink) => channel::on_channel_link(),
        Route::Channel(channel::Endpoint::OnChannelUnlink) => request_listing(Listing::UnlinkChannel, msg),
        Route::Channel(channel::Endpoint::OnChannelLinkMsg) => channel::on_channel_link_msg(msg),
        Route::Channel(channel::Endpoint::OnChannelUnlinkMsg) => receive_channel_id(state, msg),
        Route::Channel(channel::Endpoint::OnChannelUnlinkConfirm) => match state {
            State::Channel(channel::State::UnlinkConfirm(c)) => channel::on_channel_unlink_confirm(c, msg),
            other => (Session { state: other, step: Step::Idle }, Action::Ignore),
        },
        Route::Sub(subreddit::Endpoint::OnSubLink) => request_listing(Listing::LinkSubreddit, msg),
        Route::Sub(subreddit::Endpoint::OnSubUnlink) => request_listing(Listing::UnlinkSubreddit, msg),
        Route::Sub(subreddit::Endpoint::OnSubLinkChannel) => receive_channel_id(state, msg),
        Route::Sub(subreddit::Endpoint::OnSubUnlinkChannel) => receive_channel_id(state, msg),
        Route::Sub(subreddit::Endpoint::OnSubLinkSub) => subreddit::on_sub_name(state, msg),
        Route::Sub(subreddit::Endpoint::OnSubUnlinkSub) => subreddit::on_sub_name(state, msg),
        Route::Ignore | Route::Outcome => (Session { state, step: Step::Idle }, Action::Ignore),
    }
}

/// What the outcome of outside work leads to: the step that waits for it
/// takes it; any other outcome is ignored and changes nothing.
pub open spec fn followup(s: Session, e: Event, bot_id: u64, next: Session, a: Action) -> bool {
    match (s.step, e) {
        (Step::CheckBotAdmin(f), Event::Admins(r)) => channel::bot_admin_outcome(s.state, f, r, bot_id, next, a),
        (Step::LookupLinked(f), Event::ChannelFound(r)) => channel::linked_lookup_outcome(s.state, f, r, next, a),
        (Step::SaveChannel, Event::ChannelSaved(r)) => channel::channel_saved_outcome(s.state, r, next, a),
        (Step::Listing(p, u), Event::Candidates(r)) => listing_outcome(s.state, p, u, bot_id, r, next, a),
        (Step::LookupChannel, Event::ChannelFound(r)) => channel_found_outcome(s.state, r, next, a),
        (Step::RemoveChannel, Event::Removed(r)) => channel::channel_removed_outcome(s.state, r, next, a),
        (Step::ResolveFeed, Event::Resolved(r)) => subreddit::resolved_outcome(s.state, r, next, a),
        (Step::LookupFeed(ns), Event::FeedFound(r)) => subreddit::feed_lookup_outcome(s.state, ns, r, next, a),
        (Step::SaveFeed, Event::FeedSaved(r)) => subreddit::feed_saved_outcome(s.state, r, next, a),
        (Step::CheckLinked(f), Event::Related(r)) => subreddit::related_outcome(s.state, f, r, next, a),
        (Step::SaveLink, Event::LinkSaved(r)) => subreddit::link_saved_outcome(s.state, r, next, a),
        (Step::LookupFeedByName, Event::FeedFound(r)) => subreddit::feed_by_name_outcome(s.state, r, next, a),
        (Step::RemoveLink, Event::Removed(r)) => subreddit::link_removed_outcome(s.state, r, next, a),
        _ => next == s && a == Action::Ignore,
    }
}

fn continue_turn(session: Session, event: Event, bot_id: u64) -> (r: (Session, Action))
    ensures
        followup(session, event, bot_id, r.0, r.1),
{
    let state = session.state;
    match (session.step, event) {
        (Step::CheckBotAdmin(f), Event::Admins(r)) => channel::on_bot_admins(state, f, r, bot_id),
        (Step::LookupLinked(f), Event::ChannelFound(r)) => channel::on_linked_lookup(state, f, r),
        (Step::SaveChannel, Event::ChannelSaved(r)) => channel::on_channel_saved(state, r),
        (Step::Listing(p, u), Event::Candidates(r)) => on_candidates(state, p, u, bot_id, r),
        (Step::LookupChannel, Event::ChannelFound(r)) => on_channel_found(state, r),
        (Step::RemoveChannel, Event::Removed(r)) => channel::on_channel_removed(state, r),
        (Step::ResolveFeed, Event::Resolved(r)) => subreddit::on_resolved(state, r),
        (Step::LookupFeed(ns), Event::FeedFound(r)) => subreddit::on_feed_lookup(state, ns, r),
        (Step::SaveFeed, Event::FeedSaved(r)) => subreddit::on_feed_saved(state, r),
        (Step::CheckLinked(f), Event::Related(r)) => subreddit::on_related(state, f, r),
        (Step::SaveLink, Event::LinkSaved(r)) => subreddit::on_link_saved(state, r),
        (Step::LookupFeedByName, Event::FeedFound(r)) => subreddit::on_sub_unlink_sub(state, r),
        (Step::RemoveLink, Event::Removed(r)) => subreddit::on_link_removed(state, r),
        (step, _) => (Session { state, step }, Action::Ignore),
    }
}

/// One transition of a user's conversation: a user's message starts a turn
/// (dropping any outside work that a turn before it still waited for); the
/// outcome of outside work continues it.
pub open spec fn transition(s: Session, e: Event, bot_id: u64, next: Session, a: Action) -> bool {
    match e {
        Event::Command(_, msg) => user_event_outcome(s.state, msg, dispatch(s.state, e), next, a),
        Event::Message(msg) => user_event_outcome(s.state, msg, dispatch(s.state, e), next, a),
        _ => followup(s, e, bot_id, next, a),
    }
}

/// Handles one event of a user's conversation; `bot_id` is the bot's own
/// user id.
pub fn handle(session: Session, event: Event, bot_id: u64) -> (r: (Session, Action))
    ensures
        transition(session, event, bot_id, r.0, r.1),
{
    let route = dispatcher_schema(&session.state, &event);
    match event {
        Event::Command(_, msg) => on_user_event(session.state, msg, route),
        Event::Message(msg) => on_user_event(session.state, msg, route),
        other => continue_turn(session, other, bot_id),
    }
}

/// A run of a conversation: `sessions[i + 1]` and `actions[i]` are what
/// `events[i]` led to from `sessions[i]`.
pub open spec fn run(
    start: Session,
    events: Seq<Event>,
    bot_id: u64,
    sessions: Seq<Session>,
    actions: Seq<Action>,
) -> bool {
    &&& sessions.len() == events.len() + 1
    &&& actions.len() == events.len()
    &&& sessions[0] == start
    &&& forall|i: int|
        0 <= i < events.len() ==> #[trigger] transition(
            sessions[i],
            events[i],
            bot_id,
            sessions[i + 1],
            actions[i],
        )
}

/// Cancel leaves any conversation, in any state and with any outside work
/// pending, in the main menu with nothing pending; it asks for no outside
/// work, so it changes nothing in the store.
pub proof fn lemma_cancel_returns_to_menu(s: Session, msg: Inbound, bot_id: u64, next: Session, a: Action)
    requires
        transition(s, Event::Command(Command::Cancel, msg), bot_id, next, a),
    ensures
        next == idle(State::MainMenu),
        a == Action::Reply(Reply::Cancelled),
{
}

/// After one or more cancel commands in a row, whatever the state before,
/// the conversation is in the main menu, and none of them asked for outside
/// work: the store is left as it was.
pub proof fn lemma_cancels_end_in_menu(
    start: Session,
    events: Seq<Event>,
    bot_id: u64,
    sessions: Seq<Session>,
    actions: Seq<Action>,
)
    requires
        run(start, events, bot_id, sessions, actions),
        events.len() > 0,
        forall|i: int| 0 <= i < events.len() ==> (#[trigger] events[i] matches Event::Command(c, _) && c == Command::Cancel),
    ensures
        sessions.last() == idle(State::MainMenu),
        forall|i: int| 0 <= i < actions.len() ==> #[trigger] actions[i] == Action::Reply(Reply::Cancelled),
{
    assert forall|i: int| 0 <= i < actions.len() implies #[trigger] actions[i] == Action::Reply(Reply::Cancelled)
        && sessions[i + 1] == idle(State::MainMenu) by {
        assert(transition(sessions[i], events[i], bot_id, sessions[i + 1], actions[i]));
        if let Event::Command(_, msg) = events[i] {
            lemma_cancel_returns_to_menu(sessions[i], msg, bot_id, sessions[i + 1], actions[i]);
        }
    }
    let k = events.len() - 1;
    assert(0 <= k < actions.len());
    assert(actions[k] == Action::Reply(Reply::Cancelled) && sessions[k + 1] == idle(State::MainMenu));
    assert(sessions.last() == sessions[k + 1]);
}

} // verus!
