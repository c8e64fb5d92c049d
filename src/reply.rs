//! What the bot answers, and the text of each answer.
use vstd::prelude::*;
use crate::decimal::{append_decimal, decimal};
use crate::models::Channel;

verus! {

/// One answer of the bot to a user's message.
pub enum Reply {
    /// The list of commands.
    Help,
    /// The current operation was dropped.
    Cancelled,
    /// The message did not say who sent it.
    UnknownUser,
    /// A command other than help or cancel came in the middle of an operation.
    FinishFirst,
    /// Asks for a message forwarded from the channel to link.
    ForwardPrompt,
    NotForwarded,
    NotFromChannel,
    BotNotAdmin,
    ChannelAdded(Channel),
    /// The channels that the user and the bot both administer.
    ChannelList(Vec<Channel>),
    NoChannels,
    UnlinkChannelPrompt(Vec<Channel>),
    LinkSubredditPrompt(Vec<Channel>),
    UnlinkSubredditPrompt(Vec<Channel>),
    MissingChannelId,
    InvalidChannelId,
    ChannelNotFound,
    /// Asks to type the title of the channel to unlink.
    ConfirmUnlink(Channel),
    UnlinkCancelled,
    ChannelUnlinked,
    ChannelNotUnlinked,
    SubredditPrompt,
    MissingSubreddit,
    /// The subreddit service could not resolve the name; carries its error text.
    SubredditLookupFailed(String),
    SubredditIncomplete,
    SubredditLinked,
    SubredditNotLinked,
    SubredditUnlinked,
    SubredditNotUnlinked,
    /// A collaborator could not be reached; the user may try again.
    TryLater,
    /// The operation failed and was abandoned.
    Failed,
}

/// The text of one entry of a channel list.
pub open spec fn channel_entry_text(c: Channel) -> Seq<char> {
    "Channel name: "@ + c.title@ + "\nChannel id: "@ + decimal(c.chat_id as int) + "\n\n"@
}

/// The text of a channel list: one entry per channel, in order.
pub open spec fn channel_list_text(cs: Seq<Channel>) -> Seq<char>
    decreases cs.len(),
{
    if cs.len() == 0 {
        Seq::empty()
    } else {
        channel_list_text(cs.drop_last()) + channel_entry_text(cs.last())
    }
}

/// Tells the user how to leave the current operation.
pub open spec fn retry_hint(bot_username: Seq<char>) -> Seq<char> {
    " Try again or use command /cancel@"@ + bot_username
}

/// The text of `r`, where `bot_username` is the bot's own user name.
pub open spec fn reply_text(r: Reply, bot_username: Seq<char>) -> Seq<char> {
    match r {
        Reply::Help => "These commands are supported:\n/help - Show this text.\n/cancel - Cancel the current operation.\n/linkchannel - Link a channel to this bot.\n/unlinkchannel - Unlink a channel.\n/listchannels - List the channels that you administer.\n/linksubreddit - Mirror a subreddit into a channel.\n/unlinksubreddit - Stop mirroring a subreddit into a channel."@,
        Reply::Cancelled => "Operation cancelled."@,
        Reply::UnknownUser => "Couldn't recognize the user. Try again."@,
        Reply::FinishFirst => "Finish the current operation first."@ + retry_hint(bot_username),
        Reply::ForwardPrompt => "Got it. Forward a message from the channel here.\n Remember that this bot needs to be an administrator in that channel first."@,
        Reply::NotForwarded => "This message is not a forward."@ + retry_hint(bot_username),
        Reply::NotFromChannel => "This message is not forwarded from a channel."@ + retry_hint(bot_username),
        Reply::BotNotAdmin => "This bot is not an administrator in this channel."@ + retry_hint(bot_username),
        Reply::ChannelAdded(c) => "Added the channel "@ + c.title@ + " (id: "@ + decimal(c.chat_id as int) + "). Now you can add subreddits to this channel."@,
        Reply::ChannelList(cs) => channel_list_text(cs@),
        Reply::NoChannels => "No channels found. Try adding a new channel first"@,
        Reply::UnlinkChannelPrompt(cs) => "Okay. Type the ID of the channel you want to unlink:\n\n"@ + channel_list_text(cs@),
        Reply::LinkSubredditPrompt(cs) => "Got it. Type the ID of the channel you want to link:\n\n"@ + channel_list_text(cs@),
        Reply::UnlinkSubredditPrompt(cs) => "Got it. Type the ID of the channel you want to unlink subreddit from:\n\n"@ + channel_list_text(cs@),
        Reply::MissingChannelId => "Please send a message with the id of the channel."@,
        Reply::InvalidChannelId => "That is not a channel id. Please send the id of one of the channels listed above."@,
        Reply::ChannelNotFound => "Couldn't find the channel. Please send the id of an already linked channel."@,
        Reply::ConfirmUnlink(c) => "Are you sure you want to remove channel \""@ + c.title@ + "\" (Id: "@ + decimal(c.chat_id as int) + ")? Type the channel title to remove it"@,
        Reply::UnlinkCancelled => "Cancelled unlinking channel."@,
        Reply::ChannelUnlinked => "Successfully unlinked channel."@,
        Reply::ChannelNotUnlinked => "Sorry, I couldn't unlink the channel. Try again later."@,
        Reply::SubredditPrompt => "Great. Now send the subreddit name (without the preceding /r/ part and without the trailing slashes)."@,
        Reply::MissingSubreddit => "Please send a subreddit name."@,
        Reply::SubredditLookupFailed(e) => "Error: "@ + e@ + ". Try again."@,
        Reply::SubredditIncomplete => "Error while fetching subreddit data. Try again."@,
        Reply::SubredditLinked => "Subreddit successfully linked to the channel."@,
        Reply::SubredditNotLinked => "This subreddit is not known. Please send the name of a subreddit linked to the channel."@,
        Reply::SubredditUnlinked => "Subreddit successfully unlinked from the channel."@,
        Reply::SubredditNotUnlinked => "Sorry, I couldn't unlink the subreddit. Try again later."@,
        Reply::TryLater => "Something went wrong. Try again later."@,
        Reply::Failed => "Sorry, the operation failed. Start again from the menu."@,
    }
}

/// Lists the channels, one entry each: title and numeric id.
pub fn channel_list_message(channels: &Vec<Channel>) -> (r: String)
    ensures
        r@ == channel_list_text(channels@),
{
    let mut out = String::new();
    append_channel_list(&mut out, channels);
    assert(out@ =~= channel_list_text(channels@));
    out
}

fn append_channel_list(out: &mut String, channels: &Vec<Channel>)
    ensures
        final(out)@ == old(out)@ + channel_list_text(channels@),
{
    let mut i: usize = 0;
    while i < channels.len()
        invariant
            i <= channels@.len(),
            out@ == old(out)@ + channel_list_text(channels@.subrange(0, i as int)),
        decreases channels.len() - i,
    {
        let c = &channels[i];
        out.append("Channel name: ");
        out.append(c.title.as_str());
        out.append("\nChannel id: ");
        append_decimal(out, c.chat_id);
        out.append("\n\n");
        proof {
            let next = channels@.subrange(0, i + 1);
            assert(next.drop_last() =~= channels@.subrange(0, i as int));
            assert(next.last() == *c);
            assert(out@ =~= old(out)@ + channel_list_text(next));
        }
        i = i + 1;
    }
    assert(channels@.subrange(0, i as int) =~= channels@);
}

fn with_retry_hint(text: &str, bot_username: &str) -> (r: String)
    ensures
        r@ == text@ + retry_hint(bot_username@),
{
    let mut out = String::from_str(text);
    out.append(" Try again or use command /cancel@");
    out.append(bot_username);
    assert(out@ =~= text@ + retry_hint(bot_username@));
    out
}

fn with_channel_list(text: &str, channels: &Vec<Channel>) -> (r: String)
    ensures
        r@ == text@ + channel_list_text(channels@),
{
    let mut out = String::from_str(text);
    append_channel_list(&mut out, channels);
    out
}

impl Reply {
    /// The text to send for this reply; `bot_username` is the bot's own user name.
    pub fn text(&self, bot_username: &str) -> (r: String)
        ensures
            r@ == reply_text(*self, bot_username@),
    {
        match self {
            Reply::Help => String::from_str(
                "These commands are supported:\n/help - Show this text.\n/cancel - Cancel the current operation.\n/linkchannel - Link a channel to this bot.\n/unlinkchannel - Unlink a channel.\n/listchannels - List the channels that you administer.\n/linksubreddit - Mirror a subreddit into a channel.\n/unlinksubreddit - Stop mirroring a subreddit into a channel.",
            ),
            Reply::Cancelled => String::from_str("Operation cancelled."),
            Reply::UnknownUser => String::from_str("Couldn't recognize the user. Try again."),
            Reply::FinishFirst => with_retry_hint("Finish the current operation first.", bot_username),
            Reply::ForwardPrompt => String::from_str(
                "Got it. Forward a message from the channel here.\n Remember that this bot needs to be an administrator in that channel first.",
            ),
            Reply::NotForwarded => with_retry_hint("This message is not a forward.", bot_username),
            Reply::NotFromChannel => with_retry_hint(
                "This message is not forwarded from a channel.",
                bot_username,
            ),
            Reply::BotNotAdmin => with_retry_hint(
                "This bot is not an administrator in this channel.",
                bot_username,
            ),
            Reply::ChannelAdded(c) => {
                let mut out = String::from_str("Added the channel ");
                out.append(c.title.as_str());
                out.append(" (id: ");
                append_decimal(&mut out, c.chat_id);
                out.append("). Now you can add subreddits to this channel.");
                assert(out@ =~= reply_text(*self, bot_username@));
                out
            },
            Reply::ChannelList(cs) => channel_list_message(cs),
            Reply::NoChannels => String::from_str("No channels found. Try adding a new channel first"),
            Reply::UnlinkChannelPrompt(cs) => with_channel_list(
                "Okay. Type the ID of the channel you want to unlink:\n\n",
                cs,
            ),
            Reply::LinkSubredditPrompt(cs) => with_channel_list(
                "Got it. Type the ID of the channel you want to link:\n\n",
                cs,
            ),
            Reply::UnlinkSubredditPrompt(cs) => with_channel_list(
                "Got it. Type the ID of the channel you want to unlink subreddit from:\n\n",
                cs,
            ),
            Reply::MissingChannelId => String::from_str("Please send a message with the id of the channel."),
            Reply::InvalidChannelId => String::from_str(
                "That is not a channel id. Please send the id of one of the channels listed above.",
            ),
            Reply::ChannelNotFound => String::from_str(
                "Couldn't find the channel. Please send the id of an already linked channel.",
            ),
            Reply::ConfirmUnlink(c) => {
                let mut out = String::from_str("Are you sure you want to remove channel \"");
                out.append(c.title.as_str());
                out.append("\" (Id: ");
                append_decimal(&mut out, c.chat_id);
                out.append(")? Type the channel title to remove it");
                assert(out@ =~= reply_text(*self, bot_username@));
                out
            },
            Reply::UnlinkCancelled => String::from_str("Cancelled unlinking channel."),
            Reply::ChannelUnlinked => String::from_str("Successfully unlinked channel."),
            Reply::ChannelNotUnlinked => String::from_str(
                "Sorry, I couldn't unlink the channel. Try again later.",
            ),
            Reply::SubredditPrompt => String::from_str(
                "Great. Now send the subreddit name (without the preceding /r/ part and without the trailing slashes).",
            ),
            Reply::MissingSubreddit => String::from_str("Please send a subreddit name."),
            Reply::SubredditLookupFailed(e) => {
                let mut out = String::from_str("Error: ");
                out.append(e.as_str());
                out.append(". Try again.");
                assert(out@ =~= reply_text(*self, bot_username@));
                out
            },
            Reply::SubredditIncomplete => String::from_str("Error while fetching subreddit data. Try again."),
            Reply::SubredditLinked => String::from_str("Subreddit successfully linked to the channel."),
            Reply::SubredditNotLinked => String::from_str(
                "This subreddit is not known. Please send the name of a subreddit linked to the channel.",
            ),
            Reply::SubredditUnlinked => String::from_str("Subreddit successfully unlinked from the channel."),
            Reply::SubredditNotUnlinked => String::from_str(
                "Sorry, I couldn't unlink the subreddit. Try again later.",
            ),
            Reply::TryLater => String::from_str("Something went wrong. Try again later."),
            Reply::Failed => String::from_str("Sorry, the operation failed. Start again from the menu."),
        }
    }
}

} // verus!
