//! What the bot does on a gateway event.
//!
//! Two kinds of event lead to an action: the pin emoji added to a message
//! pins it, the pin emoji removed from a message unpins it. Every other event
//! is ignored. The library decides; the caller fetches the message and pins
//! or unpins it, and hands any failure on to the framework.

use vstd::prelude::*;
use vstd::string::*;

verus! {

/// The emoji whose reaction pins a message: U+1F4CC, the pushpin.
pub open spec fn pin_emoji() -> Seq<char> {
    "\u{1F4CC}"@
}

/// The emoji of a reaction.
#[derive(Clone, Debug, PartialEq, Eq)]
pub enum ReactionEmoji {
    /// A standard emoji, as the text that Discord sends for it.
    Unicode(String),
    /// An emoji of a guild's own.
    Custom,
}

/// A `ReactionEmoji` as a mathematical value.
pub enum ReactionEmojiView {
    Unicode(Seq<char>),
    Custom,
}

impl View for ReactionEmoji {
    type V = ReactionEmojiView;

    open spec fn view(&self) -> ReactionEmojiView {
        match self {
            ReactionEmoji::Unicode(text) => ReactionEmojiView::Unicode(text@),
            ReactionEmoji::Custom => ReactionEmojiView::Custom,
        }
    }
}

impl ReactionEmojiView {
    /// Whether this is the pin emoji: a standard emoji whose text is exactly
    /// the pushpin.
    pub open spec fn is_pin(self) -> bool {
        self == ReactionEmojiView::Unicode(pin_emoji())
    }
}

/// A message, named by its channel and its own id.
#[derive(Clone, Copy, Debug, PartialEq, Eq, Structural)]
pub struct MessageRef {
    pub channel_id: u64,
    pub message_id: u64,
}

/// A reaction: an emoji on a message.
#[derive(Clone, Debug, PartialEq, Eq)]
pub struct Reaction {
    pub emoji: ReactionEmoji,
    pub message: MessageRef,
}

/// A `Reaction` as a mathematical value.
pub struct ReactionView {
    pub emoji: ReactionEmojiView,
    pub message: MessageRef,
}

impl View for Reaction {
    type V = ReactionView;

    open spec fn view(&self) -> ReactionView {
        ReactionView { emoji: self.emoji@, message: self.message }
    }
}

/// A gateway event, as far as the bot tells events apart.
#[derive(Clone, Debug, PartialEq, Eq)]
pub enum GatewayEvent {
    /// A reaction was added to a message.
    ReactionAdd(Reaction),
    /// A reaction was removed from a message.
    ReactionRemove(Reaction),
    /// Any other event. The bot has no use for it.
    Ignored,
}

/// A `GatewayEvent` as a mathematical value.
pub enum GatewayEventView {
    ReactionAdd(ReactionView),
    ReactionRemove(ReactionView),
    Ignored,
}

impl View for GatewayEvent {
    type V = GatewayEventView;

    open spec fn view(&self) -> GatewayEventView {
        match self {
            GatewayEvent::ReactionAdd(reaction) => GatewayEventView::ReactionAdd(reaction@),
            GatewayEvent::ReactionRemove(reaction) => GatewayEventView::ReactionRemove(reaction@),
            GatewayEvent::Ignored => GatewayEventView::Ignored,
        }
    }
}

/// What the caller is to do after an event.
#[derive(Clone, Copy, Debug, PartialEq, Eq, Structural)]
pub enum EventAction {
    /// Fetch the message and pin it.
    Pin(MessageRef),
    /// Fetch the message and unpin it.
    Unpin(MessageRef),
    /// Do nothing.
    Nothing,
}

/// The action that an event calls for.
pub open spec fn event_action(event: GatewayEventView) -> EventAction {
    match event {
        GatewayEventView::ReactionAdd(reaction) => if reaction.emoji.is_pin() {
            EventAction::Pin(reaction.message)
        } else {
            EventAction::Nothing
        },
        GatewayEventView::ReactionRemove(reaction) => if reaction.emoji.is_pin() {
            EventAction::Unpin(reaction.message)
        } else {
            EventAction::Nothing
        },
        GatewayEventView::Ignored => EventAction::Nothing,
    }
}

/// The set of pinned messages after an action has been carried out.
pub open spec fn pins_after(pins: Set<MessageRef>, action: EventAction) -> Set<MessageRef> {
    match action {
        EventAction::Pin(message) => pins.insert(message),
        EventAction::Unpin(message) => pins.remove(message),
        EventAction::Nothing => pins,
    }
}

/// Whether an emoji is the pin emoji.
pub fn is_pin_emoji(emoji: &ReactionEmoji) -> (pin: bool)
    ensures
        pin == emoji@.is_pin(),
{
    match emoji {
        ReactionEmoji::Unicode(text) => {
            let pushpin = String::from_str("\u{1F4CC}");
            *text == pushpin
        },
        ReactionEmoji::Custom => false,
    }
}

/// Decides what an event calls for.
pub fn event_handler(event: &GatewayEvent) -> (action: EventAction)
    ensures
        action == event_action(event@),
{
    match event {
        GatewayEvent::ReactionAdd(reaction) => {
            if is_pin_emoji(&reaction.emoji) {
                EventAction::Pin(reaction.message)
            } else {
                EventAction::Nothing
            }
        },
        GatewayEvent::ReactionRemove(reaction) => {
            if is_pin_emoji(&reaction.emoji) {
                EventAction::Unpin(reaction.message)
            } else {
                EventAction::Nothing
            }
        },
        GatewayEvent::Ignored => EventAction::Nothing,
    }
}

/// A reaction added with any emoji but the pin emoji calls for no action, so
/// the set of pinned messages stays as it was.
pub proof fn lemma_other_emoji_pins_nothing(pins: Set<MessageRef>, reaction: ReactionView)
    requires
        !reaction.emoji.is_pin(),
    ensures
        event_action(GatewayEventView::ReactionAdd(reaction)) == EventAction::Nothing,
        pins_after(pins, event_action(GatewayEventView::ReactionAdd(reaction))) == pins,
{
}

/// The pin emoji added to a message calls for one action, which pins that
/// message and no other; the same emoji then removed from the message unpins
/// it, and leaves every other message as it was before the two events.
pub proof fn lemma_pin_then_unpin(
    pins: Set<MessageRef>,
    added: ReactionView,
    removed: ReactionView,
)
    requires
        added.emoji.is_pin(),
        removed.emoji == added.emoji,
        removed.message == added.message,
    ensures
        event_action(GatewayEventView::ReactionAdd(added)) == EventAction::Pin(added.message),
        pins_after(pins, event_action(GatewayEventView::ReactionAdd(added))) == pins.insert(
            added.message,
        ),
        pins_after(pins, event_action(GatewayEventView::ReactionAdd(added))).contains(
            added.message,
        ),
        event_action(GatewayEventView::ReactionRemove(removed)) == EventAction::Unpin(
            added.message,
        ),
        pins_after(
            pins_after(pins, event_action(GatewayEventView::ReactionAdd(added))),
            event_action(GatewayEventView::ReactionRemove(removed)),
        ) == pins.remove(added.message),
        !pins_after(
            pins_after(pins, event_action(GatewayEventView::ReactionAdd(added))),
            event_action(GatewayEventView::ReactionRemove(removed)),
        ).contains(added.message),
{
    let pinned = pins_after(pins, event_action(GatewayEventView::ReactionAdd(added)));
    assert(pinned.remove(added.message) =~= pins.remove(added.message));
}

} // verus!
