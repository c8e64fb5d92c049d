//! Linking, unlinking and listing channels.
use vstd::prelude::*;
use crate::models::{Channel, NewChannel};
use crate::reply::Reply;
use super::{
    failed, fail, idle, waiting, Action, AdminCandidate, Event, Fault, ForwardedChat, Inbound,
    Request, Session, Step, transition,
};
use super::State as SupState;

verus! {

/// The steps of the channel conversations.
pub enum State {
    /// Waits for a message forwarded from the channel to link.
    LinkReceiveChannel,
    /// Waits for the id of the channel to unlink.
    UnlinkReceiveChannel,
    /// Waits for the title of this channel, typed again, before unlinking it.
    UnlinkConfirm(Channel),
}

/// Whether both the user and the bot administer the candidate's channel.
pub open spec fn administered_by(c: AdminCandidate, user_id: u64, bot_id: u64) -> bool {
    c.admins@.contains(user_id) && c.admins@.contains(bot_id)
}

/// The channels, in order, that both the user and the bot administer.
pub open spec fn channels_where_admins(cs: Seq<AdminCandidate>, user_id: u64, bot_id: u64) -> Seq<Channel>
    decreases cs.len(),
{
    if cs.len() == 0 {
        Seq::empty()
    } else {
        let rest = channels_where_admins(cs.drop_last(), user_id, bot_id);
        if administered_by(cs.last(), user_id, bot_id) {
            rest.push(cs.last().channel)
        } else {
            rest
        }
    }
}

/// Keeps the linked channels that both the user and the bot administer.
pub fn get_channels_where_admins(candidates: &Vec<AdminCandidate>, user_id: u64, bot_id: u64) -> (r: Vec<Channel>)
    ensures
        r@ == channels_where_admins(candidates@, user_id, bot_id),
{
    let mut out: Vec<Channel> = Vec::new();
    let mut i: usize = 0;
    while i < candidates.len()
        invariant
            i <= candidates@.len(),
            out@ == channels_where_admins(candidates@.subrange(0, i as int), user_id, bot_id),
        decreases candidates.len() - i,
    {
        let c = &candidates[i];
        proof {
            let next = candidates@.subrange(0, i + 1);
            assert(next.drop_last() =~= candidates@.subrange(0, i as int));
            assert(next.last() == *c);
        }
        if super::contains_id(&c.admins, user_id) && super::contains_id(&c.admins, bot_id) {
            out.push(c.channel.clone());
        }
        i = i + 1;
    }
    assert(candidates@.subrange(0, i as int) =~= candidates@);
    out
}

/// The handlers of the channel conversations.
#[derive(Clone, Copy, Debug, PartialEq, Eq, Structural)]
pub enum Endpoint {
    OnChannelList,
    OnChannelLink,
    OnChannelUnlink,
    OnChannelLinkMsg,
    OnChannelUnlinkMsg,
    OnChannelUnlinkConfirm,
}

/// Which channel handler takes an event, if any: the channel commands from
/// the main menu, and messages while a channel conversation waits for one.
pub open spec fn route(state: SupState, event: Event) -> Option<Endpoint> {
    match event {
        Event::Command(c, _) => {
            if state is MainMenu {
                match c {
                    super::Command::ListChannels => Some(Endpoint::OnChannelList),
                    super::Command::LinkChannel => Some(Endpoint::OnChannelLink),
                    super::Command::UnlinkChannel => Some(Endpoint::OnChannelUnlink),
                    _ => None,
                }
            } else {
                None
            }
        },
        Event::Message(_) => match state {
            SupState::Channel(State::LinkReceiveChannel) => Some(Endpoint::OnChannelLinkMsg),
            SupState::Channel(State::UnlinkReceiveChannel) => Some(Endpoint::OnChannelUnlinkMsg),
            SupState::Channel(State::UnlinkConfirm(_)) => Some(Endpoint::OnChannelUnlinkConfirm),
            _ => None,
        },
        _ => None,
    }
}

pub fn schema(state: &SupState, event: &Event) -> (r: Option<Endpoint>)
    ensures
        r == route(*state, *event),
{
    match event {
        Event::Command(c, _) => {
            if let SupState::MainMenu = state {
                match c {
                    super::Command::ListChannels => Some(Endpoint::OnChannelList),
                    super::Command::LinkChannel => Some(Endpoint::OnChannelLink),
                    super::Command::UnlinkChannel => Some(Endpoint::OnChannelUnlink),
                    _ => None,
                }
            } else {
                None
            }
        },
        Event::Message(_) => match state {
            SupState::Channel(State::LinkReceiveChannel) => Some(Endpoint::OnChannelLinkMsg),
            SupState::Channel(State::UnlinkReceiveChannel) => Some(Endpoint::OnChannelUnlinkMsg),
            SupState::Channel(State::UnlinkConfirm(_)) => Some(Endpoint::OnChannelUnlinkConfirm),
            _ => None,
        },
        _ => None,
    }
}

/// Starts linking a channel: asks for a message forwarded from it.
pub fn on_channel_link() -> (r: (Session, Action))
    ensures
        r.0 == idle(SupState::Channel(State::LinkReceiveChannel)),
        r.1 == Action::Reply(Reply::ForwardPrompt),
{
    (
        Session { state: SupState::Channel(State::LinkReceiveChannel), step: Step::Idle },
        Action::Reply(Reply::ForwardPrompt),
    )
}

/// A message while waiting for a forward from the channel to link: it must be
/// forwarded from a channel, whose administrators are then asked for; else
/// the user is asked again.
pub open spec fn link_msg_outcome(msg: Inbound, next: Session, a: Action) -> bool {
    let here = SupState::Channel(State::LinkReceiveChannel);
    match msg.forward {
        None => next == idle(here) && a == Action::Reply(Reply::NotForwarded),
        Some(f) => if !f.is_channel {
            next == idle(here) && a == Action::Reply(Reply::NotFromChannel)
        } else {
            next == waiting(here, Step::CheckBotAdmin(f)) && a == Action::Request(
                Request::ChatAdmins(f.id),
            )
        },
    }
}

pub fn on_channel_link_msg(msg: Inbound) -> (r: (Session, Action))
    ensures
        link_msg_outcome(msg, r.0, r.1),
{
    let here = SupState::Channel(State::LinkReceiveChannel);
    match msg.forward {
        None => (Session { state: here, step: Step::Idle }, Action::Reply(Reply::NotForwarded)),
        Some(f) => {
            if !f.is_channel {
                (Session { state: here, step: Step::Idle }, Action::Reply(Reply::NotFromChannel))
            } else {
                let id = f.id;
                (
                    Session { state: here, step: Step::CheckBotAdmin(f) },
                    Action::Request(Request::ChatAdmins(id)),
                )
            }
        },
    }
}

/// The administrators of the forwarded channel came back: the bot must be
/// one of them; then the channel is looked up in the store.
pub open spec fn bot_admin_outcome(
    state: SupState,
    f: ForwardedChat,
    admins: Result<Vec<u64>, Fault>,
    bot_id: u64,
    next: Session,
    a: Action,
) -> bool {
    match admins {
        Err(fault) => failed(state, fault, next, a),
        Ok(ids) => if ids@.contains(bot_id) {
            next == waiting(state, Step::LookupLinked(f)) && a == Action::Request(
                Request::FindChannel(f.id),
            )
        } else {
            next == idle(state) && a == Action::Reply(Reply::BotNotAdmin)
        },
    }
}

pub fn on_bot_admins(
    state: SupState,
    f: ForwardedChat,
    admins: Result<Vec<u64>, Fault>,
    bot_id: u64,
) -> (r: (Session, Action))
    ensures
        bot_admin_outcome(state, f, admins, bot_id, r.0, r.1),
{
    match admins {
        Err(fault) => fail(state, fault),
        Ok(ids) => {
            if super::contains_id(&ids, bot_id) {
                let id = f.id;
                (
                    Session { state, step: Step::LookupLinked(f) },
                    Action::Request(Request::FindChannel(id)),
                )
            } else {
                (Session { state, step: Step::Idle }, Action::Reply(Reply::BotNotAdmin))
            }
        },
    }
}

/// The text of an optional string, empty where there is none.
pub open spec fn text_or_empty(s: Option<String>) -> Seq<char> {
    match s {
        Some(t) => t@,
        None => Seq::empty(),
    }
}

/// The channel row to store for a forwarded channel.
pub open spec fn new_channel_from(f: ForwardedChat, nc: NewChannel) -> bool {
    &&& nc.chat_id == f.id
    &&& nc.title@ == text_or_empty(f.title)
    &&& nc.username == f.username
    &&& nc.invite_link == f.invite_link
}

/// The store was asked for the forwarded channel: a channel that is stored
/// already is reported as added, without a second row; else it is inserted.
pub open spec fn linked_lookup_outcome(
    state: SupState,
    f: ForwardedChat,
    found: Result<Option<Channel>, Fault>,
    next: Session,
    a: Action,
) -> bool {
    match found {
        Err(fault) => failed(state, fault, next, a),
        Ok(Some(c)) => next == idle(SupState::MainMenu) && a == Action::Reply(Reply::ChannelAdded(c)),
        Ok(None) => next == waiting(state, Step::SaveChannel) && (a matches Action::Request(
            Request::InsertChannel(nc),
        ) && new_channel_from(f, nc)),
    }
}

pub fn on_linked_lookup(state: SupState, f: ForwardedChat, found: Result<Option<Channel>, Fault>) -> (r: (
    Session,
    Action,
))
    ensures
        linked_lookup_outcome(state, f, found, r.0, r.1),
{
    match found {
        Err(fault) => fail(state, fault),
        Ok(Some(c)) => (
            Session { state: SupState::MainMenu, step: Step::Idle },
            Action::Reply(Reply::ChannelAdded(c)),
        ),
        Ok(None) => {
            let title = match f.title {
                Some(t) => t,
                None => String::new(),
            };
            let nc = NewChannel::new(f.id, title, f.username, f.invite_link);
            (Session { state, step: Step::SaveChannel }, Action::Request(Request::InsertChannel(nc)))
        },
    }
}

/// The new channel row was stored: the link is done.
pub open spec fn channel_saved_outcome(state: SupState, saved: Result<Channel, Fault>, next: Session, a: Action) -> bool {
    match saved {
        Err(fault) => failed(state, fault, next, a),
        Ok(c) => next == idle(SupState::MainMenu) && a == Action::Reply(Reply::ChannelAdded(c)),
    }
}

pub fn on_channel_saved(state: SupState, saved: Result<Channel, Fault>) -> (r: (Session, Action))
    ensures
        channel_saved_outcome(state, saved, r.0, r.1),
{
    match saved {
        Err(fault) => fail(state, fault),
        Ok(c) => (
            Session { state: SupState::MainMenu, step: Step::Idle },
            Action::Reply(Reply::ChannelAdded(c)),
        ),
    }
}

/// The typed confirmation of an unlink: it must be the channel's title,
/// exactly; then the channel is deleted, else the unlink is cancelled.
pub open spec fn unlink_confirm_outcome(c: Channel, msg: Inbound, next: Session, a: Action) -> bool {
    if text_or_empty(msg.text) != c.title@ {
        next == idle(SupState::MainMenu) && a == Action::Reply(Reply::UnlinkCancelled)
    } else {
        next == waiting(SupState::Channel(State::UnlinkConfirm(c)), Step::RemoveChannel) && a
            == Action::Request(Request::DeleteChannel(c.chat_id))
    }
}

pub fn on_channel_unlink_confirm(c: Channel, msg: Inbound) -> (r: (Session, Action))
    ensures
        unlink_confirm_outcome(c, msg, r.0, r.1),
{
    let matches_title = match &msg.text {
        Some(t) => crate::models::str_eq(t.as_str(), c.title.as_str()),
        None => c.title.as_str().unicode_len() == 0,
    };
    assert(matches_title == (text_or_empty(msg.text) =~= c.title@));
    if !matches_title {
        (Session { state: SupState::MainMenu, step: Step::Idle }, Action::Reply(Reply::UnlinkCancelled))
    } else {
        let chat_id = c.chat_id;
        (
            Session { state: SupState::Channel(State::UnlinkConfirm(c)), step: Step::RemoveChannel },
            Action::Request(Request::DeleteChannel(chat_id)),
        )
    }
}

/// The channel deletion came back: the reply says whether a row went.
pub open spec fn channel_removed_outcome(state: SupState, removed: Result<usize, Fault>, next: Session, a: Action) -> bool {
    match removed {
        Err(fault) => failed(state, fault, next, a),
        Ok(n) => next == idle(SupState::MainMenu) && a == Action::Reply(
            if n != 0 {
                Reply::ChannelUnlinked
            } else {
                Reply::ChannelNotUnlinked
            },
        ),
    }
}

pub fn on_channel_removed(state: SupState, removed: Result<usize, Fault>) -> (r: (Session, Action))
    ensures
        channel_removed_outcome(state, removed, r.0, r.1),
{
    match removed {
        Err(fault) => fail(state, fault),
        Ok(n) => (
            Session { state: SupState::MainMenu, step: Step::Idle },
            Action::Reply(
                if n != 0 {
                    Reply::ChannelUnlinked
                } else {
                    Reply::ChannelNotUnlinked
                },
            ),
        ),
    }
}

/// A channel is listed exactly when some candidate for it has both the user
/// and the bot among its administrators.
pub proof fn lemma_listed_iff_both_admins(cs: Seq<AdminCandidate>, user_id: u64, bot_id: u64)
    ensures
        forall|ch: Channel|
            #[trigger] channels_where_admins(cs, user_id, bot_id).contains(ch) <==> exists|i: int|
                0 <= i < cs.len() && cs[i].channel == ch && administered_by(cs[i], user_id, bot_id),
    decreases cs.len(),
{
    if cs.len() > 0 {
        let init = cs.drop_last();
        lemma_listed_iff_both_admins(init, user_id, bot_id);
        let rest = channels_where_admins(init, user_id, bot_id);
        assert forall|ch: Channel|
            #[trigger] channels_where_admins(cs, user_id, bot_id).contains(ch) <==> exists|i: int|
                0 <= i < cs.len() && cs[i].channel == ch && administered_by(cs[i], user_id, bot_id) by {
            if channels_where_admins(cs, user_id, bot_id).contains(ch) {
                if rest.contains(ch) {
                    let i = choose|i: int|
                        0 <= i < init.len() && init[i].channel == ch && administered_by(init[i], user_id, bot_id);
                    assert(cs[i] == init[i]);
                } else {
                    let last = cs.len() - 1;
                    assert(cs[last] == cs.last());
                    assert(administered_by(cs.last(), user_id, bot_id));
                    let out = rest.push(cs.last().channel);
                    let j = choose|j: int| 0 <= j < out.len() && out[j] == ch;
                    assert(j == rest.len());
                }
            }
            if exists|i: int| 0 <= i < cs.len() && cs[i].channel == ch && administered_by(cs[i], user_id, bot_id) {
                let i = choose|i: int| 0 <= i < cs.len() && cs[i].channel == ch && administered_by(cs[i], user_id, bot_id);
                if i < cs.len() - 1 {
                    assert(init[i] == cs[i]);
                    assert(rest.contains(ch));
                    let j = choose|j: int| 0 <= j < rest.len() && rest[j] == ch;
                    assert(rest.push(cs.last().channel)[j] == ch);
                } else {
                    assert(cs.last() == cs[i]);
                    assert(rest.push(cs.last().channel)[rest.len() as int] == ch);
                }
            }
        }
    }
}

/// Unlinking needs the channel's title typed exactly: any other text, one
/// that differs only in letter case included, deletes nothing, answers that
/// the unlink is cancelled, and goes back to the main menu.
pub proof fn lemma_unlink_needs_exact_title(s: Session, msg: Inbound, bot_id: u64, next: Session, a: Action)
    requires
        s.state matches SupState::Channel(State::UnlinkConfirm(c)) && text_or_empty(msg.text) != c.title@,
        transition(s, Event::Message(msg), bot_id, next, a),
    ensures
        next == idle(SupState::MainMenu),
        a == Action::Reply(Reply::UnlinkCancelled),
{
}

/// The channel's title typed exactly has that channel deleted, by its chat id.
pub proof fn lemma_exact_title_unlinks(s: Session, msg: Inbound, bot_id: u64, next: Session, a: Action)
    requires
        s.state matches SupState::Channel(State::UnlinkConfirm(c)) && text_or_empty(msg.text) == c.title@,
        transition(s, Event::Message(msg), bot_id, next, a),
    ensures
        a == Action::Request(Request::DeleteChannel(s.state->Channel_0->UnlinkConfirm_0.chat_id)),
        next == waiting(s.state, Step::RemoveChannel),
{
}

} // verus!
