//! Chat markup, built with serenity's `MessageBuilder`.
//!
//! The builder is serenity's; this module states what each of its methods
//! used here adds to the text, and builds the pieces of a reply from them.

use serenity::model::id::ChannelId;
use serenity::utils::MessageBuilder;
use vstd::prelude::*;
use vstd::string::*;

verus! {

/// serenity's `MessageBuilder`, carried as an opaque value.
#[verifier::external_type_specification]
#[verifier::external_body]
pub struct ExMessageBuilder(MessageBuilder);

/// The text a builder has collected so far.
pub uninterp spec fn built_text(builder: MessageBuilder) -> Seq<char>;

/// The text that `MessageBuilder::push_bold_safe` adds for `content`: the
/// content between `**` marks, with invite links, direction overrides, mass
/// mentions and inner `**` made harmless by serenity's own rules.
pub uninterp spec fn bold_safe_text(content: Seq<char>) -> Seq<char>;

/// The decimal digit for `d`, which is below ten.
pub open spec fn digit(d: nat) -> char {
    (('0' as u8) + d) as char
}

/// `n` in decimal, without leading zeros.
pub open spec fn decimal(n: nat) -> Seq<char>
    decreases n,
{
    if n < 10 {
        seq![digit(n)]
    } else {
        decimal(n / 10).push(digit(n % 10))
    }
}

/// The channel a message came from, as far as a reply needs it.
#[derive(Debug, PartialEq, Eq)]
pub enum ChannelRef {
    /// A text, voice, group or private channel, known by its id.
    Id(u64),
    /// A category of channels, known by its name.
    Category(String),
}

/// How a channel is mentioned in a message: `<#` and `>` around the id in
/// decimal, or around the name for a category.
pub open spec fn mention_text(channel: ChannelRef) -> Seq<char> {
    match channel {
        ChannelRef::Id(id) => "<#"@ + decimal(id as nat) + ">"@,
        ChannelRef::Category(name) => "<#"@ + name@ + ">"@,
    }
}

/// Calls `MessageBuilder::new`.
///
/// Trusted: a new builder holds no text.
#[verifier::external_body]
pub(crate) fn builder_new() -> (builder: MessageBuilder)
    ensures
        built_text(builder) == Seq::<char>::empty(),
{
    MessageBuilder::new()
}

/// Calls `MessageBuilder::push` with a string slice.
///
/// Trusted: the content is appended as it is.
#[verifier::external_body]
pub(crate) fn builder_push(builder: &mut MessageBuilder, content: &str)
    ensures
        built_text(*final(builder)) == built_text(*old(builder)) + content@,
{
    builder.push(content);
}

/// Calls `MessageBuilder::push_bold_safe` with a string slice.
///
/// Trusted: what is appended depends on the content alone; it is named
/// [`bold_safe_text`] and not spelled out here.
#[verifier::external_body]
pub(crate) fn builder_push_bold_safe(builder: &mut MessageBuilder, content: &str)
    ensures
        built_text(*final(builder)) == built_text(*old(builder)) + bold_safe_text(content@),
{
    builder.push_bold_safe(content);
}

/// Calls `MessageBuilder::mention` with a `ChannelId`.
///
/// Trusted: a channel id is mentioned as `<#`, the id in decimal, and `>`.
#[verifier::external_body]
pub(crate) fn builder_mention_channel(builder: &mut MessageBuilder, id: u64)
    ensures
        built_text(*final(builder)) == built_text(*old(builder)) + "<#"@ + decimal(id as nat)
            + ">"@,
{
    builder.mention(&ChannelId(id));
}

/// Calls `MessageBuilder::build`.
///
/// Trusted: the result is the text collected so far, and the builder keeps it.
#[verifier::external_body]
pub(crate) fn builder_build(builder: &mut MessageBuilder) -> (text: String)
    ensures
        text@ == built_text(*old(builder)),
        built_text(*final(builder)) == built_text(*old(builder)),
{
    builder.build()
}

/// `content` in bold, made safe to show.
pub fn bold_safe(content: &str) -> (text: String)
    ensures
        text@ == bold_safe_text(content@),
{
    let mut builder = builder_new();
    builder_push_bold_safe(&mut builder, content);
    builder_build(&mut builder)
}

/// The mention of `channel`.
pub fn mention(channel: &ChannelRef) -> (text: String)
    ensures
        text@ == mention_text(*channel),
{
    let mut builder = builder_new();
    match channel {
        ChannelRef::Id(id) => {
            builder_mention_channel(&mut builder, *id);
        },
        ChannelRef::Category(name) => {
            builder_push(&mut builder, "<#");
            builder_push(&mut builder, name.as_str());
            builder_push(&mut builder, ">");
        },
    }
    builder_build(&mut builder)
}

} // verus!
