use vstd::prelude::*;
use std::collections::HashSet;
use crate::types::Config;

verus! {

broadcast use vstd::std_specs::hash::group_hash_axioms;

/// What `str::to_lowercase` makes of a text.
pub uninterp spec fn lowercase_of(text: Seq<char>) -> Seq<char>;

/// Lowercases a text with `str::to_lowercase` (Unicode lowercase mapping).
/// Claimed of it: the result is `lowercase_of` the text; the mapping itself
/// is left to the name.
#[verifier::external_body]
fn lowercase(text: &str) -> (r: String)
    ensures
        r@ == lowercase_of(text@),
{
    text.to_lowercase()
}

/// The users who agreed that the bot answers them in public in bot channels.
pub struct ConfirmedUsers {
    users: HashSet<u64>,
}

impl View for ConfirmedUsers {
    type V = Set<u64>;

    closed spec fn view(&self) -> Set<u64> {
        self.users@
    }
}

impl ConfirmedUsers {
    /// Nobody has agreed yet.
    pub fn new() -> (r: ConfirmedUsers)
        ensures
            r@ == Set::<u64>::empty(),
    {
        ConfirmedUsers { users: HashSet::new() }
    }

    /// Whether `user` has agreed.
    pub fn contains(&self, user: u64) -> (r: bool)
        ensures
            r == self@.contains(user),
    {
        self.users.contains(&user)
    }

    /// Remembers that `user` agreed.
    pub fn insert(&mut self, user: u64)
        ensures
            final(self)@ == old(self)@.insert(user),
    {
        self.users.insert(user);
    }

    /// Takes in the answer `user` gave to the consent prompt: a yes is
    /// remembered for the rest of the session, a no is not (and forgets
    /// nobody). Returns whether the answer is then sent privately, which it
    /// is exactly when the user did not agree.
    pub fn conclude(&mut self, user: u64, agreed: bool) -> (private: bool)
        ensures
            private == !agreed,
            final(self)@ == spec_after_answer(old(self)@, user, agreed),
            !old(self)@.contains(user) ==> (!private == final(self)@.contains(user)),
    {
        if agreed {
            self.insert(user);
        }
        !agreed
    }
}

/// The confirmed users after `user` answered the consent prompt.
pub open spec fn spec_after_answer(confirmed: Set<u64>, user: u64, agreed: bool) -> Set<u64> {
    if agreed {
        confirmed.insert(user)
    } else {
        confirmed
    }
}

/// How a command that may answer in public starts.
#[derive(Debug, Clone, Copy, PartialEq, Eq, Structural)]
pub enum PrivacyStep {
    /// Outside bot channels: answer privately, with no question.
    Private,
    /// The user already agreed: answer in public.
    Public,
    /// In a bot channel, from a user who has not agreed: ask first.
    AskConsent,
}

/// How a command that `author` used in `channel` starts.
pub open spec fn spec_privacy_step(
    bot_channels: Seq<u64>,
    confirmed: Set<u64>,
    channel: u64,
    author: u64,
) -> PrivacyStep {
    if !bot_channels.contains(channel) {
        PrivacyStep::Private
    } else if confirmed.contains(author) {
        PrivacyStep::Public
    } else {
        PrivacyStep::AskConsent
    }
}

/// How a command that `author` used in `channel` starts.
pub fn privacy_step(config: &Config, confirmed: &ConfirmedUsers, channel: u64, author: u64) -> (r:
    PrivacyStep)
    ensures
        r == spec_privacy_step(config.bot_channels@, confirmed@, channel, author),
{
    if !config.is_bot_channel(channel) {
        PrivacyStep::Private
    } else if confirmed.contains(author) {
        PrivacyStep::Public
    } else {
        PrivacyStep::AskConsent
    }
}

/// What a lowercased chat message answers to the consent prompt: yes for
/// "y" or "yes", no for "n" or "no", nothing for any other message.
pub open spec fn answer_of(lowered: Seq<char>) -> Option<bool> {
    if lowered == "y"@ || lowered == "yes"@ {
        Some(true)
    } else if lowered == "n"@ || lowered == "no"@ {
        Some(false)
    } else {
        None
    }
}

/// What an already lowercased chat message answers to the consent prompt.
pub fn answer_of_lowered(lowered: &str) -> (r: Option<bool>)
    ensures
        r == answer_of(lowered@),
{
    let text = String::from_str(lowered);
    if text == String::from_str("y") || text == String::from_str("yes") {
        Some(true)
    } else if text == String::from_str("n") || text == String::from_str("no") {
        Some(false)
    } else {
        None
    }
}

/// What a chat message answers to the consent prompt (case-insensitively):
/// yes, no, or nothing (the message is then ignored).
pub fn message_answer(content: &str) -> (r: Option<bool>)
    ensures
        r == answer_of(lowercase_of(content@)),
{
    let lowered = lowercase(content);
    answer_of_lowered(lowered.as_str())
}

/// Something that happened while the consent prompt was open.
#[derive(Debug, Clone)]
pub enum ConsentEvent {
    /// The user pressed the button with this id.
    Button(String),
    /// The user wrote this message in the channel.
    Message(String),
    /// The prompt timed out.
    Timeout,
}

/// What an event answers to the consent prompt: the "yes" button agrees,
/// any other button refuses, a message answers as `answer_of` says, a
/// timeout refuses. No answer means the event is ignored.
pub open spec fn spec_consent_answer(event: ConsentEvent) -> Option<bool> {
    match event {
        ConsentEvent::Button(id) => Some(id@ == "yes"@),
        ConsentEvent::Message(content) => answer_of(lowercase_of(content@)),
        ConsentEvent::Timeout => Some(false),
    }
}

/// What an event answers to the consent prompt.
pub fn consent_answer(event: &ConsentEvent) -> (r: Option<bool>)
    ensures
        r == spec_consent_answer(*event),
{
    match event {
        ConsentEvent::Button(id) => Some(*id == String::from_str("yes")),
        ConsentEvent::Message(content) => message_answer(content.as_str()),
        ConsentEvent::Timeout => Some(false),
    }
}

/// Outside the bot channels an answer is always private, whoever asks and
/// whoever agreed before.
pub proof fn law_private_outside_bot_channels(
    bot_channels: Seq<u64>,
    confirmed: Set<u64>,
    channel: u64,
    author: u64,
)
    requires
        !bot_channels.contains(channel),
    ensures
        spec_privacy_step(bot_channels, confirmed, channel, author) == PrivacyStep::Private,
{
}

/// Once a user agreed, later commands of that user in a bot channel answer in
/// public without asking again.
pub proof fn law_consent_is_remembered(
    bot_channels: Seq<u64>,
    confirmed: Set<u64>,
    channel: u64,
    author: u64,
)
    requires
        bot_channels.contains(channel),
    ensures
        spec_privacy_step(bot_channels, spec_after_answer(confirmed, author, true), channel, author)
            == PrivacyStep::Public,
{
}

/// A refusal is not remembered: a user who has not agreed is asked again.
pub proof fn law_refusal_asks_again(
    bot_channels: Seq<u64>,
    confirmed: Set<u64>,
    channel: u64,
    author: u64,
)
    requires
        spec_privacy_step(bot_channels, confirmed, channel, author) == PrivacyStep::AskConsent,
    ensures
        spec_privacy_step(bot_channels, spec_after_answer(confirmed, author, false), channel, author)
            == PrivacyStep::AskConsent,
{
}

/// For a user who had not agreed before (the only one who is asked), the
/// reply to an answer is public exactly when the user is confirmed afterwards.
pub proof fn law_answer_matches_membership(confirmed: Set<u64>, author: u64, agreed: bool)
    requires
        !confirmed.contains(author),
    ensures
        spec_after_answer(confirmed, author, agreed).contains(author) == agreed,
{
}

/// An answer never makes the bot forget a user who agreed before, and it
/// changes nothing for any other user.
pub proof fn law_answers_only_add(confirmed: Set<u64>, author: u64, agreed: bool, other: u64)
    ensures
        confirmed.contains(other) ==> spec_after_answer(confirmed, author, agreed).contains(other),
        other != author ==> (spec_after_answer(confirmed, author, agreed).contains(other)
            <==> confirmed.contains(other)),
{
}

} // verus!
