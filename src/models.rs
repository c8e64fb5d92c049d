use vstd::prelude::*;

verus! {

/// A chat channel that subreddits can be mirrored into.
pub struct Channel {
    /// Row id in the store.
    pub id: i32,
    /// The chat service's numeric id of the channel; unique among channels.
    pub chat_id: i64,
    pub disabled: bool,
    pub title: String,
    pub username: Option<String>,
    pub invite_link: Option<String>,
}

fn clone_opt_string(s: &Option<String>) -> (r: Option<String>)
    ensures
        r == *s,
{
    match s {
        Some(v) => Some(v.clone()),
        None => None,
    }
}

impl Clone for Channel {
    fn clone(&self) -> (r: Self)
        ensures
            r == *self,
    {
        Channel {
            id: self.id,
            chat_id: self.chat_id,
            disabled: self.disabled,
            title: self.title.clone(),
            username: clone_opt_string(&self.username),
            invite_link: clone_opt_string(&self.invite_link),
        }
    }
}

/// The data of a channel that is about to be stored.
pub struct NewChannel {
    pub chat_id: i64,
    pub title: String,
    pub username: Option<String>,
    pub invite_link: Option<String>,
}

impl NewChannel {
    pub fn new(
        chat_id: i64,
        title: String,
        username: Option<String>,
        invite_link: Option<String>,
    ) -> (r: NewChannel)
        ensures
            r.chat_id == chat_id,
            r.title == title,
            r.username == username,
            r.invite_link == invite_link,
    {
        NewChannel { chat_id, title, username, invite_link }
    }
}

/// How the posts of a subreddit are ordered when they are fetched.
#[derive(Clone, Copy, Debug, PartialEq, Eq, Structural)]
pub enum SortType {
    Hot,
    Rising,
    Top,
    Latest,
}

/// What an unknown sort name in the store is reported as.
#[derive(Debug)]
pub struct UnknownSortType {
    /// The stored text, as it was read.
    pub text: String,
}

/// Names the result of `str::trim` on a text.
pub uninterp spec fn trimmed(s: Seq<char>) -> Seq<char>;

/// Names the result of `str::to_lowercase` on a text.
pub uninterp spec fn lowercased(s: Seq<char>) -> Seq<char>;

/// Relies on `str::trim`: the result depends on the characters alone.
#[verifier::external_body]
fn trim_text(s: &str) -> (r: &str)
    ensures
        r@ == trimmed(s@),
{
    s.trim()
}

/// Relies on `str::to_lowercase`: the result depends on the characters alone.
#[verifier::external_body]
fn lowercase_text(s: &str) -> (r: String)
    ensures
        r@ == lowercased(s@),
{
    s.to_lowercase()
}

/// The sort type that a normalized (trimmed, lower-case) name stands for.
pub open spec fn sort_type_named(s: Seq<char>) -> Option<SortType> {
    if s == "hot"@ {
        Some(SortType::Hot)
    } else if s == "rising"@ {
        Some(SortType::Rising)
    } else if s == "top"@ {
        Some(SortType::Top)
    } else if s == "latest"@ {
        Some(SortType::Latest)
    } else {
        None
    }
}

/// Whether two texts are the same, character for character.
pub(crate) fn str_eq(a: &str, b: &str) -> (r: bool)
    ensures
        r == (a@ == b@),
{
    let n = a.unicode_len();
    if n != b.unicode_len() {
        return false;
    }
    let mut i: usize = 0;
    while i < n
        invariant
            n == a@.len(),
            n == b@.len(),
            i <= n,
            a@.subrange(0, i as int) == b@.subrange(0, i as int),
        decreases n - i,
    {
        if a.get_char(i) != b.get_char(i) {
            return false;
        }
        proof {
            assert(a@.subrange(0, i + 1) =~= a@.subrange(0, i as int).push(a@[i as int]));
            assert(b@.subrange(0, i + 1) =~= b@.subrange(0, i as int).push(b@[i as int]));
        }
        i = i + 1;
    }
    assert(a@ =~= a@.subrange(0, n as int));
    assert(b@ =~= b@.subrange(0, n as int));
    true
}

impl SortType {
    /// The sort type that a normalized (trimmed, lower-case) name stands for.
    pub fn from_normalized(name: &str) -> (r: Option<SortType>)
        ensures
            r == sort_type_named(name@),
    {
        if str_eq(name, "hot") {
            Some(SortType::Hot)
        } else if str_eq(name, "rising") {
            Some(SortType::Rising)
        } else if str_eq(name, "top") {
            Some(SortType::Top)
        } else if str_eq(name, "latest") {
            Some(SortType::Latest)
        } else {
            None
        }
    }

    /// Reads a sort type as the store holds it: surrounding white space and
    /// letter case do not matter.
    pub fn from_sql_text(value: &str) -> (r: Result<SortType, UnknownSortType>)
        ensures
            match sort_type_named(lowercased(trimmed(value@))) {
                Some(t) => r == Ok::<SortType, UnknownSortType>(t),
                None => r is Err && r->Err_0.text@ == value@,
            },
    {
        let lower = lowercase_text(trim_text(value));
        match SortType::from_normalized(lower.as_str()) {
            Some(t) => Ok(t),
            None => Err(UnknownSortType { text: String::from_str(value) }),
        }
    }

}

/// A subreddit that is mirrored into one or more channels, with its delivery
/// settings.
pub struct Subreddit {
    /// Row id in the store.
    pub id: i32,
    pub disabled: bool,
    /// The subreddit service's own id; unique among stored subreddits.
    pub subreddit_id: String,
    pub name: String,
    pub sorting: SortType,
    pub post_limit: Option<i32>,
    pub respect_external_content_flag: bool,
    pub min_score: Option<i32>,
    pub allow_nsfw: bool,
    pub show_spoilers: bool,
    pub medias_only: bool,
}

impl Clone for Subreddit {
    fn clone(&self) -> (r: Self)
        ensures
            r == *self,
    {
        Subreddit {
            id: self.id,
            disabled: self.disabled,
            subreddit_id: self.subreddit_id.clone(),
            name: self.name.clone(),
            sorting: self.sorting,
            post_limit: self.post_limit,
            respect_external_content_flag: self.respect_external_content_flag,
            min_score: self.min_score,
            allow_nsfw: self.allow_nsfw,
            show_spoilers: self.show_spoilers,
            medias_only: self.medias_only,
        }
    }
}

/// The data of a subreddit that is about to be stored; every delivery setting
/// takes the store's default.
pub struct NewSubreddit {
    pub subreddit_id: String,
    pub name: String,
}

/// A stored link: the channel mirrors the subreddit.
#[derive(Debug)]
pub struct ChannelSubreddit {
    pub id: Option<i32>,
    /// Row id of the channel.
    pub channel_id: i32,
    /// Row id of the subreddit.
    pub subreddit_id: i32,
}

/// A link that is about to be stored.
#[derive(Clone, Copy, Debug, PartialEq, Eq, Structural)]
pub struct NewChannelSubreddit {
    pub channel_id: i32,
    pub subreddit_id: i32,
}

impl NewChannelSubreddit {
    pub fn new(channel: &Channel, subreddit: &Subreddit) -> (r: NewChannelSubreddit)
        ensures
            r.channel_id == channel.id,
            r.subreddit_id == subreddit.id,
    {
        NewChannelSubreddit { channel_id: channel.id, subreddit_id: subreddit.id }
    }
}

} // verus!
