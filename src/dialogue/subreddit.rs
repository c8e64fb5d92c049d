//! Linking subreddits to channels and unlinking them.
use vstd::prelude::*;
use crate::models::{Channel, ChannelSubreddit, NewChannelSubreddit, NewSubreddit, Subreddit};
use crate::reply::Reply;
use super::{
    failed, fail, idle, waiting, Action, Event, Fault, FeedInfo, Inbound, Request, Session, Step,
};
use super::State as SupState;

verus! {

/// The steps of the subreddit conversations.
pub enum State {
    /// Waits for the id of the channel to link a subreddit to.
    LinkReceiveChannel,
    /// Waits for the name of the subreddit to link to this channel.
    LinkReceiveSub(Channel),
    /// Waits for the id of the channel to unlink a subreddit from.
    UnlinkReceiveChannel,
    /// Waits for the name of the subreddit to unlink from this channel.
    UnlinkReceiveSub(Channel),
}

/// The handlers of the subreddit conversations.
#[derive(Clone, Copy, Debug, PartialEq, Eq, Structural)]
pub enum Endpoint {
    OnSubLink,
    OnSubUnlink,
    OnSubLinkChannel,
    OnSubLinkSub,
    OnSubUnlinkChannel,
    OnSubUnlinkSub,
}

/// Which subreddit handler takes an event, if any: the subreddit commands
/// from the main menu, and messages while a subreddit conversation waits for
/// one.
pub open spec fn route(state: SupState, event: Event) -> Option<Endpoint> {
    match event {
        Event::Command(c, _) => {
            if state is MainMenu {
                match c {
                    super::Command::LinkSubreddit => Some(Endpoint::OnSubLink),
                    super::Command::UnlinkSubreddit => Some(Endpoint::OnSubUnlink),
                    _ => None,
                }
            } else {
                None
            }
        },
        Event::Message(_) => match state {
            SupState::Sub(State::LinkReceiveChannel) => Some(Endpoint::OnSubLinkChannel),
            SupState::Sub(State::LinkReceiveSub(_)) => Some(Endpoint::OnSubLinkSub),
            SupState::Sub(State::UnlinkReceiveChannel) => Some(Endpoint::OnSubUnlinkChannel),
            SupState::Sub(State::UnlinkReceiveSub(_)) => Some(Endpoint::OnSubUnlinkSub),
            _ => None,
        },
        _ => None,
    }
}

pub fn schema(state: &SupState, event: &Event) -> (r: Option<Endpoint>)
    ensures
        r == route(*state, *event),
{
    match event {
        Event::Command(c, _) => {
            if let SupState::MainMenu = state {
                match c {
                    super::Command::LinkSubreddit => Some(Endpoint::OnSubLink),
                    super::Command::UnlinkSubreddit => Some(Endpoint::OnSubUnlink),
                    _ => None,
                }
            } else {
                None
            }
        },
        Event::Message(_) => match state {
            SupState::Sub(State::LinkReceiveChannel) => Some(Endpoint::OnSubLinkChannel),
            SupState::Sub(State::LinkReceiveSub(_)) => Some(Endpoint::OnSubLinkSub),
            SupState::Sub(State::UnlinkReceiveChannel) => Some(Endpoint::OnSubUnlinkChannel),
            SupState::Sub(State::UnlinkReceiveSub(_)) => Some(Endpoint::OnSubUnlinkSub),
            _ => None,
        },
        _ => None,
    }
}

/// A subreddit name for the chosen channel: to link, it is looked up at the
/// subreddit service; to unlink, in the store.
pub open spec fn sub_name_outcome(state: SupState, msg: Inbound, next: Session, a: Action) -> bool {
    match msg.text {
        None => next == idle(state) && a == Action::Reply(Reply::MissingSubreddit),
        Some(t) => if state is Sub && state->Sub_0 is UnlinkReceiveSub {
            next == waiting(state, Step::LookupFeedByName) && a == Action::Request(
                Request::FindFeedByName(t),
            )
        } else {
            next == waiting(state, Step::ResolveFeed) && a == Action::Request(Request::ResolveFeed(t))
        },
    }
}

pub fn on_sub_name(state: SupState, msg: Inbound) -> (r: (Session, Action))
    ensures
        sub_name_outcome(state, msg, r.0, r.1),
{
    match msg.text {
        None => (Session { state, step: Step::Idle }, Action::Reply(Reply::MissingSubreddit)),
        Some(t) => {
            let unlinking = match &state {
                SupState::Sub(State::UnlinkReceiveSub(_)) => true,
                _ => false,
            };
            if unlinking {
                (
                    Session { state, step: Step::LookupFeedByName },
                    Action::Request(Request::FindFeedByName(t)),
                )
            } else {
                (Session { state, step: Step::ResolveFeed }, Action::Request(Request::ResolveFeed(t)))
            }
        },
    }
}

/// The subreddit service answered: a subreddit with both an id and a name is
/// looked up in the store by its id; an error is shown and the name asked
/// for again.
pub open spec fn resolved_outcome(state: SupState, resolved: Result<FeedInfo, String>, next: Session, a: Action) -> bool {
    match resolved {
        Err(e) => next == idle(state) && a == Action::Reply(Reply::SubredditLookupFailed(e)),
        Ok(info) => match (info.id, info.name) {
            (Some(id), Some(name)) => next == waiting(
                state,
                Step::LookupFeed(NewSubreddit { subreddit_id: id, name }),
            ) && a == Action::Request(Request::FindFeed(id)),
            _ => next == idle(state) && a == Action::Reply(Reply::SubredditIncomplete),
        },
    }
}

pub fn on_resolved(state: SupState, resolved: Result<FeedInfo, String>) -> (r: (Session, Action))
    ensures
        resolved_outcome(state, resolved, r.0, r.1),
{
    match resolved {
        Err(e) => (Session { state, step: Step::Idle }, Action::Reply(Reply::SubredditLookupFailed(e))),
        Ok(info) => match (info.id, info.name) {
            (Some(id), Some(name)) => {
                let key = id.clone();
                (
                    Session { state, step: Step::LookupFeed(NewSubreddit { subreddit_id: id, name }) },
                    Action::Request(Request::FindFeed(key)),
                )
            },
            _ => (Session { state, step: Step::Idle }, Action::Reply(Reply::SubredditIncomplete)),
        },
    }
}

/// The subreddit to link is stored: the store is asked whether the channel
/// mirrors it already.
pub open spec fn check_linked(state: SupState, f: Subreddit, next: Session, a: Action) -> bool {
    match state {
        SupState::Sub(State::LinkReceiveSub(c)) => next == waiting(state, Step::CheckLinked(f)) && a
            == Action::Request(Request::AreRelated(c, f)),
        _ => next == idle(state) && a == Action::Ignore,
    }
}

fn ask_linked(state: SupState, f: Subreddit) -> (r: (Session, Action))
    ensures
        check_linked(state, f, r.0, r.1),
{
    let c = match &state {
        SupState::Sub(State::LinkReceiveSub(c)) => Some(c.clone()),
        _ => None,
    };
    match c {
        Some(c) => {
            let g = f.clone();
            (Session { state, step: Step::CheckLinked(f) }, Action::Request(Request::AreRelated(c, g)))
        },
        None => (Session { state, step: Step::Idle }, Action::Ignore),
    }
}

/// The store was asked for the subreddit by its service id: a stored one is
/// used as it is, without a second row; else it is inserted.
pub open spec fn feed_lookup_outcome(
    state: SupState,
    ns: NewSubreddit,
    found: Result<Option<Subreddit>, Fault>,
    next: Session,
    a: Action,
) -> bool {
    match found {
        Err(fault) => failed(state, fault, next, a),
        Ok(Some(f)) => check_linked(state, f, next, a),
        Ok(None) => next == waiting(state, Step::SaveFeed) && a == Action::Request(Request::InsertFeed(ns)),
    }
}

pub fn on_feed_lookup(state: SupState, ns: NewSubreddit, found: Result<Option<Subreddit>, Fault>) -> (r: (
    Session,
    Action,
))
    ensures
        feed_lookup_outcome(state, ns, found, r.0, r.1),
{
    match found {
        Err(fault) => fail(state, fault),
        Ok(Some(f)) => ask_linked(state, f),
        Ok(None) => (Session { state, step: Step::SaveFeed }, Action::Request(Request::InsertFeed(ns))),
    }
}

/// The new subreddit row was stored.
pub open spec fn feed_saved_outcome(state: SupState, saved: Result<Subreddit, Fault>, next: Session, a: Action) -> bool {
    match saved {
        Err(fault) => failed(state, fault, next, a),
        Ok(f) => check_linked(state, f, next, a),
    }
}

pub fn on_feed_saved(state: SupState, saved: Result<Subreddit, Fault>) -> (r: (Session, Action))
    ensures
        feed_saved_outcome(state, saved, r.0, r.1),
{
    match saved {
        Err(fault) => fail(state, fault),
        Ok(f) => ask_linked(state, f),
    }
}

/// Whether the channel mirrors the subreddit came back: a link is inserted
/// only where there is none; the reply is the same either way.
pub open spec fn related_outcome(
    state: SupState,
    f: Subreddit,
    related: Result<bool, Fault>,
    next: Session,
    a: Action,
) -> bool {
    match related {
        Err(fault) => failed(state, fault, next, a),
        Ok(true) => next == idle(SupState::MainMenu) && a == Action::Reply(Reply::SubredditLinked),
        Ok(false) => match state {
            SupState::Sub(State::LinkReceiveSub(c)) => next == waiting(state, Step::SaveLink) && a
                == Action::Request(
                Request::InsertLink(NewChannelSubreddit { channel_id: c.id, subreddit_id: f.id }),
            ),
            _ => next == idle(state) && a == Action::Ignore,
        },
    }
}

pub fn on_related(state: SupState, f: Subreddit, related: Result<bool, Fault>) -> (r: (Session, Action))
    ensures
        related_outcome(state, f, related, r.0, r.1),
{
    match related {
        Err(fault) => fail(state, fault),
        Ok(true) => (
            Session { state: SupState::MainMenu, step: Step::Idle },
            Action::Reply(Reply::SubredditLinked),
        ),
        Ok(false) => {
            let link = match &state {
                SupState::Sub(State::LinkReceiveSub(c)) => Some(NewChannelSubreddit::new(c, &f)),
                _ => None,
            };
            match link {
                Some(l) => (
                    Session { state, step: Step::SaveLink },
                    Action::Request(Request::InsertLink(l)),
                ),
                None => (Session { state, step: Step::Idle }, Action::Ignore),
            }
        },
    }
}

/// The new link was stored: the subreddit is linked.
pub open spec fn link_saved_outcome(state: SupState, saved: Result<ChannelSubreddit, Fault>, next: Session, a: Action) -> bool {
    match saved {
        Err(fault) => failed(state, fault, next, a),
        Ok(_) => next == idle(SupState::MainMenu) && a == Action::Reply(Reply::SubredditLinked),
    }
}

pub fn on_link_saved(state: SupState, saved: Result<ChannelSubreddit, Fault>) -> (r: (Session, Action))
    ensures
        link_saved_outcome(state, saved, r.0, r.1),
{
    match saved {
        Err(fault) => fail(state, fault),
        Ok(_) => (
            Session { state: SupState::MainMenu, step: Step::Idle },
            Action::Reply(Reply::SubredditLinked),
        ),
    }
}

/// The subreddit to unlink was looked up by name: a known one has its link to
/// the channel deleted; else the name is asked for again.
pub open spec fn feed_by_name_outcome(state: SupState, found: Result<Option<Subreddit>, Fault>, next: Session, a: Action) -> bool {
    match found {
        Err(fault) => failed(state, fault, next, a),
        Ok(None) => next == idle(state) && a == Action::Reply(Reply::SubredditNotLinked),
        Ok(Some(f)) => match state {
            SupState::Sub(State::UnlinkReceiveSub(c)) => next == waiting(state, Step::RemoveLink) && a
                == Action::Request(Request::DeleteLink(c, f)),
            _ => next == idle(state) && a == Action::Ignore,
        },
    }
}

pub fn on_sub_unlink_sub(state: SupState, found: Result<Option<Subreddit>, Fault>) -> (r: (Session, Action))
    ensures
        feed_by_name_outcome(state, found, r.0, r.1),
{
    match found {
        Err(fault) => fail(state, fault),
        Ok(None) => (Session { state, step: Step::Idle }, Action::Reply(Reply::SubredditNotLinked)),
        Ok(Some(f)) => {
            let c = match &state {
                SupState::Sub(State::UnlinkReceiveSub(c)) => Some(c.clone()),
                _ => None,
            };
            match c {
                Some(c) => (
                    Session { state, step: Step::RemoveLink },
                    Action::Request(Request::DeleteLink(c, f)),
                ),
                None => (Session { state, step: Step::Idle }, Action::Ignore),
            }
        },
    }
}

/// The link deletion came back: the reply says whether a row went.
pub open spec fn link_removed_outcome(state: SupState, removed: Result<usize, Fault>, next: Session, a: Action) -> bool {
    match removed {
        Err(fault) => failed(state, fault, next, a),
        Ok(n) => next == idle(SupState::MainMenu) && a == Action::Reply(
            if n != 0 {
                Reply::SubredditUnlinked
            } else {
                Reply::SubredditNotUnlinked
            },
        ),
    }
}

pub fn on_link_removed(state: SupState, removed: Result<usize, Fault>) -> (r: (Session, Action))
    ensures
        link_removed_outcome(state, removed, r.0, r.1),
{
    match removed {
        Err(fault) => fail(state, fault),
        Ok(n) => (
            Session { state: SupState::MainMenu, step: Step::Idle },
            Action::Reply(
                if n != 0 {
                    Reply::SubredditUnlinked
                } else {
                    Reply::SubredditNotUnlinked
                },
            ),
        ),
    }
}

} // verus!
