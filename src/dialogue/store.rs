//! The store as the conversation relies on it: what a truthful answer to each
//! request is, and how the rows change. Over a run served by such a store,
//! channels stay unique by chat id, subreddits by service id, and links by
//! (channel, subreddit).
use vstd::multiset::Multiset;
use vstd::prelude::*;
use super::{run, transition, Action, Event, Request, Session, State, Step};
use super::{channel, subreddit};

verus! {

/// The rows of the store that must stay unique: the chat id of each channel
/// row, the service id of each subreddit row, and the (channel row id,
/// subreddit row id) pair of each link row.
pub struct StoreRows {
    pub chat_ids: Multiset<i64>,
    pub feed_ids: Multiset<Seq<char>>,
    pub links: Multiset<(i32, i32)>,
}

/// No chat id has two channel rows, no service id two subreddit rows, and no
/// pair two link rows.
pub open spec fn rows_unique(db: StoreRows) -> bool {
    &&& forall|id: i64| #[trigger] db.chat_ids.count(id) <= 1
    &&& forall|id: Seq<char>| #[trigger] db.feed_ids.count(id) <= 1
    &&& forall|p: (i32, i32)| #[trigger] db.links.count(p) <= 1
}

/// Whether `e` answers `req` truthfully from the store `db`, which is `db2`
/// afterwards. A failed operation changes nothing; a deletion only removes
/// rows; the operations that do not touch these rows leave them as they are.
pub open spec fn store_answers(db: StoreRows, req: Request, e: Event, db2: StoreRows) -> bool {
    match (req, e) {
        (Request::FindChannel(id), Event::ChannelFound(r)) => db2 == db && match r {
            Ok(Some(c)) => c.chat_id == id && db.chat_ids.count(id) > 0,
            Ok(None) => db.chat_ids.count(id) == 0,
            Err(_) => true,
        },
        (Request::InsertChannel(nc), Event::ChannelSaved(r)) => db2 == if r is Ok {
            StoreRows { chat_ids: db.chat_ids.insert(nc.chat_id), ..db }
        } else {
            db
        },
        (Request::FindFeed(id), Event::FeedFound(r)) => db2 == db && match r {
            Ok(Some(f)) => f.subreddit_id@ == id@ && db.feed_ids.count(id@) > 0,
            Ok(None) => db.feed_ids.count(id@) == 0,
            Err(_) => true,
        },
        (Request::InsertFeed(ns), Event::FeedSaved(r)) => db2 == if r is Ok {
            StoreRows { feed_ids: db.feed_ids.insert(ns.subreddit_id@), ..db }
        } else {
            db
        },
        (Request::AreRelated(c, f), Event::Related(r)) => db2 == db && match r {
            Ok(b) => b == (db.links.count((c.id, f.id)) > 0),
            Err(_) => true,
        },
        (Request::InsertLink(l), Event::LinkSaved(r)) => db2 == if r is Ok {
            StoreRows { links: db.links.insert((l.channel_id, l.subreddit_id)), ..db }
        } else {
            db
        },
        (Request::DeleteChannel(_), Event::Removed(_)) | (Request::DeleteLink(_, _), Event::Removed(_)) => {
            db2.chat_ids.subset_of(db.chat_ids) && db2.feed_ids.subset_of(db.feed_ids)
                && db2.links.subset_of(db.links)
        },
        (Request::ChatAdmins(_), Event::Admins(_))
        | (Request::AdminCandidates, Event::Candidates(_))
        | (Request::ResolveFeed(_), Event::Resolved(_))
        | (Request::FindFeedByName(_), Event::FeedFound(_)) => db2 == db,
        _ => false,
    }
}

/// A run of one user's conversation against a store that answers every
/// request truthfully and that nothing else changes: a user's message leaves
/// the store as it is; the outcome of outside work answers the request just
/// made.
pub open spec fn served_run(
    start: Session,
    events: Seq<Event>,
    bot_id: u64,
    sessions: Seq<Session>,
    actions: Seq<Action>,
    dbs: Seq<StoreRows>,
) -> bool {
    &&& run(start, events, bot_id, sessions, actions)
    &&& dbs.len() == events.len() + 1
    &&& forall|i: int|
        0 <= i < events.len() ==> if #[trigger] events[i] is Command || events[i] is Message {
            dbs[i + 1] == dbs[i]
        } else {
            i > 0 && actions[i - 1] is Request && store_answers(
                dbs[i],
                actions[i - 1]->Request_0,
                events[i],
                dbs[i + 1],
            )
        }
}

/// A channel row is asked to be inserted only for the forwarded channel whose
/// lookup by chat id just found nothing.
pub proof fn lemma_channel_insert_follows_empty_lookup(
    s: Session,
    e: Event,
    bot_id: u64,
    next: Session,
    a: Action,
)
    requires
        transition(s, e, bot_id, next, a),
        a matches Action::Request(Request::InsertChannel(_)),
    ensures
        s.step matches Step::LookupLinked(f) && f.id == a->Request_0->InsertChannel_0.chat_id,
        e == Event::ChannelFound(Ok(None)),
{
}

/// A lookup of a forwarded channel is asked for by the chat id of that
/// channel.
pub proof fn lemma_linked_lookup_asks_for_chat_id(
    s: Session,
    e: Event,
    bot_id: u64,
    next: Session,
    a: Action,
)
    requires
        transition(s, e, bot_id, next, a),
        next.step is LookupLinked,
        a is Request,
    ensures
        a == Action::Request(Request::FindChannel(next.step->LookupLinked_0.id)),
{
}

/// A subreddit row is asked to be inserted only for the subreddit whose
/// lookup by service id just found nothing.
pub proof fn lemma_feed_insert_follows_empty_lookup(
    s: Session,
    e: Event,
    bot_id: u64,
    next: Session,
    a: Action,
)
    requires
        transition(s, e, bot_id, next, a),
        a matches Action::Request(Request::InsertFeed(_)),
    ensures
        s.step == Step::LookupFeed(a->Request_0->InsertFeed_0),
        e == Event::FeedFound(Ok(None)),
{
}

/// A stored subreddit is looked up by the service id of the one to link.
pub proof fn lemma_feed_lookup_asks_for_service_id(
    s: Session,
    e: Event,
    bot_id: u64,
    next: Session,
    a: Action,
)
    requires
        transition(s, e, bot_id, next, a),
        next.step is LookupFeed,
        a is Request,
    ensures
        a == Action::Request(Request::FindFeed(next.step->LookupFeed_0.subreddit_id)),
{
}

/// A link row is asked to be inserted only between the channel and the
/// subreddit for which the store just reported no link.
pub proof fn lemma_link_insert_follows_no_link(
    s: Session,
    e: Event,
    bot_id: u64,
    next: Session,
    a: Action,
)
    requires
        transition(s, e, bot_id, next, a),
        a matches Action::Request(Request::InsertLink(_)),
    ensures
        s.step matches Step::CheckLinked(f) && s.state matches State::Sub(
            subreddit::State::LinkReceiveSub(c),
        ) && a->Request_0->InsertLink_0.channel_id == c.id && a->Request_0->InsertLink_0.subreddit_id
            == f.id,
        e == Event::Related(Ok(false)),
{
}

/// Whether a channel mirrors a subreddit is asked for the channel of the
/// conversation and the subreddit that it waits on.
pub proof fn lemma_link_check_asks_for_pair(
    s: Session,
    e: Event,
    bot_id: u64,
    next: Session,
    a: Action,
)
    requires
        transition(s, e, bot_id, next, a),
        next.step is CheckLinked,
        a is Request,
    ensures
        next.state matches State::Sub(subreddit::State::LinkReceiveSub(c)) && a == Action::Request(
            Request::AreRelated(c, next.step->CheckLinked_0),
        ),
{
}

proof fn lemma_served_step_keeps_rows_unique(
    start: Session,
    events: Seq<Event>,
    bot_id: u64,
    sessions: Seq<Session>,
    actions: Seq<Action>,
    dbs: Seq<StoreRows>,
    k: int,
)
    requires
        served_run(start, events, bot_id, sessions, actions, dbs),
        start.step is Idle,
        0 <= k < events.len(),
        rows_unique(dbs[k]),
    ensures
        rows_unique(dbs[k + 1]),
{
    let e = events[k];
    if e is Command || e is Message {
        assert(dbs[k + 1] == dbs[k]);
    } else {
        let req = actions[k - 1]->Request_0;
        assert(store_answers(dbs[k], req, e, dbs[k + 1]));
        assert(transition(sessions[k - 1], events[k - 1], bot_id, sessions[k], actions[k - 1]));
        match req {
            Request::InsertChannel(nc) => {
                if e matches Event::ChannelSaved(r) && r is Ok {
                    lemma_channel_insert_follows_empty_lookup(
                        sessions[k - 1],
                        events[k - 1],
                        bot_id,
                        sessions[k],
                        actions[k - 1],
                    );
                    assert(k - 1 > 0);
                    let f = sessions[k - 1].step->LookupLinked_0;
                    assert(events[k - 1] == Event::ChannelFound(Ok(None)));
                    assert(store_answers(dbs[k - 1], actions[k - 2]->Request_0, events[k - 1], dbs[k]));
                    assert(transition(sessions[k - 2], events[k - 2], bot_id, sessions[k - 1], actions[k - 2]));
                    lemma_linked_lookup_asks_for_chat_id(
                        sessions[k - 2],
                        events[k - 2],
                        bot_id,
                        sessions[k - 1],
                        actions[k - 2],
                    );
                    assert(dbs[k].chat_ids.count(nc.chat_id) == 0);
                    assert forall|id: i64| #[trigger] dbs[k + 1].chat_ids.count(id) <= 1 by {
                        assert(dbs[k].chat_ids.count(id) <= 1);
                    }
                }
            },
            Request::InsertFeed(ns) => {
                if e matches Event::FeedSaved(r) && r is Ok {
                    lemma_feed_insert_follows_empty_lookup(
                        sessions[k - 1],
                        events[k - 1],
                        bot_id,
                        sessions[k],
                        actions[k - 1],
                    );
                    assert(k - 1 > 0);
                    assert(store_answers(dbs[k - 1], actions[k - 2]->Request_0, events[k - 1], dbs[k]));
                    assert(transition(sessions[k - 2], events[k - 2], bot_id, sessions[k - 1], actions[k - 2]));
                    lemma_feed_lookup_asks_for_service_id(
                        sessions[k - 2],
                        events[k - 2],
                        bot_id,
                        sessions[k - 1],
                        actions[k - 2],
                    );
                    assert(dbs[k].feed_ids.count(ns.subreddit_id@) == 0);
                    assert forall|id: Seq<char>| #[trigger] dbs[k + 1].feed_ids.count(id) <= 1 by {
                        assert(dbs[k].feed_ids.count(id) <= 1);
                    }
                }
            },
            Request::InsertLink(l) => {
                if e matches Event::LinkSaved(r) && r is Ok {
                    lemma_link_insert_follows_no_link(
                        sessions[k - 1],
                        events[k - 1],
                        bot_id,
                        sessions[k],
                        actions[k - 1],
                    );
                    assert(k - 1 > 0);
                    assert(events[k - 1] == Event::Related(Ok(false)));
                    assert(store_answers(dbs[k - 1], actions[k - 2]->Request_0, events[k - 1], dbs[k]));
                    assert(transition(sessions[k - 2], events[k - 2], bot_id, sessions[k - 1], actions[k - 2]));
                    lemma_link_check_asks_for_pair(
                        sessions[k - 2],
                        events[k - 2],
                        bot_id,
                        sessions[k - 1],
                        actions[k - 2],
                    );
                    assert(dbs[k].links.count((l.channel_id, l.subreddit_id)) == 0);
                    assert forall|p: (i32, i32)| #[trigger] dbs[k + 1].links.count(p) <= 1 by {
                        assert(dbs[k].links.count(p) <= 1);
                    }
                }
            },
            Request::DeleteChannel(_) | Request::DeleteLink(_, _) => {
                assert forall|id: i64| #[trigger] dbs[k + 1].chat_ids.count(id) <= 1 by {
                    assert(dbs[k].chat_ids.count(id) <= 1);
                }
                assert forall|id: Seq<char>| #[trigger] dbs[k + 1].feed_ids.count(id) <= 1 by {
                    assert(dbs[k].feed_ids.count(id) <= 1);
                }
                assert forall|p: (i32, i32)| #[trigger] dbs[k + 1].links.count(p) <= 1 by {
                    assert(dbs[k].links.count(p) <= 1);
                }
            },
            _ => {},
        }
    }
}

/// Linking a channel, or a subreddit to a channel, any number of times, in a
/// conversation served by a truthful store that nothing else changes, never
/// gives a chat id a second channel row, a subreddit service id a second
/// subreddit row, or a (channel, subreddit) pair a second link row.
pub proof fn lemma_served_run_keeps_rows_unique(
    start: Session,
    events: Seq<Event>,
    bot_id: u64,
    sessions: Seq<Session>,
    actions: Seq<Action>,
    dbs: Seq<StoreRows>,
)
    requires
        served_run(start, events, bot_id, sessions, actions, dbs),
        start.step is Idle,
        rows_unique(dbs[0]),
    ensures
        forall|i: int| 0 <= i < dbs.len() ==> rows_unique(#[trigger] dbs[i]),
{
    assert forall|i: int| 0 <= i < dbs.len() implies rows_unique(#[trigger] dbs[i]) by {
        lemma_rows_unique_up_to(start, events, bot_id, sessions, actions, dbs, i);
    }
}

proof fn lemma_rows_unique_up_to(
    start: Session,
    events: Seq<Event>,
    bot_id: u64,
    sessions: Seq<Session>,
    actions: Seq<Action>,
    dbs: Seq<StoreRows>,
    i: int,
)
    requires
        served_run(start, events, bot_id, sessions, actions, dbs),
        start.step is Idle,
        rows_unique(dbs[0]),
        0 <= i < dbs.len(),
    ensures
        rows_unique(dbs[i]),
    decreases i,
{
    if i > 0 {
        lemma_rows_unique_up_to(start, events, bot_id, sessions, actions, dbs, i - 1);
        lemma_served_step_keeps_rows_unique(start, events, bot_id, sessions, actions, dbs, i - 1);
    }
}

} // verus!
