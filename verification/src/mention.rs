//! Mentions: the markup by which a message points at a channel or a user.

use crate::text::decimal_digits;
use serenity::model::id::{ChannelId, UserId};
use serenity::model::mention::Mentionable;
use vstd::prelude::*;

verus! {

/// The markup that links to the channel `id`.
pub open spec fn channel_mention_text(id: u64) -> Seq<char> {
    "<#"@ + decimal_digits(id as nat) + ">"@
}

/// The markup that notifies the user `id`.
pub open spec fn user_mention_text(id: u64) -> Seq<char> {
    "<@"@ + decimal_digits(id as nat) + ">"@
}

/// The text of `Mentionable::mention` for a channel id: the chat library
/// writes `<#`, the id in decimal, and `>`.
#[verifier::external_body]
pub(crate) fn channel_mention(id: u64) -> (s: String)
    ensures
        s@ == channel_mention_text(id),
{
    ChannelId(id).mention().to_string()
}

/// The text of `Mentionable::mention` for a user id: the chat library writes
/// `<@`, the id in decimal, and `>`.
#[verifier::external_body]
pub(crate) fn user_mention(id: u64) -> (s: String)
    ensures
        s@ == user_mention_text(id),
{
    UserId(id).mention().to_string()
}

} // verus!
