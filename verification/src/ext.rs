//! Interaction response shaping: the four ways a command callback answers an
//! inbound interaction. Each constructor builds the response value — the
//! response kind plus, where one is sent, the caller-configured message
//! payload — which the host then submits to the platform.

use vstd::prelude::*;

verus! {

/// The platform's response kinds for an interaction.
#[derive(Debug, Clone, Copy, PartialEq, Eq, Structural)]
pub enum InteractionResponseType {
    ChannelMessageWithSource,
    DeferredChannelMessageWithSource,
    UpdateMessage,
    DeferredUpdateMessage,
}

/// One response to an interaction: its kind and, for the non-deferred
/// kinds, the message payload to send.
#[derive(Debug, PartialEq)]
pub struct InteractionResponse<D> {
    pub kind: InteractionResponseType,
    pub data: Option<D>,
}

/// Answer the interaction with a new channel message carrying `data`.
pub fn create_channel_message<D>(data: D) -> (r: InteractionResponse<D>)
    ensures
        r.kind == InteractionResponseType::ChannelMessageWithSource,
        r.data == Some(data),
{
    InteractionResponse { kind: InteractionResponseType::ChannelMessageWithSource, data: Some(data) }
}

/// Acknowledge the interaction now and send the channel message later.
pub fn defer_channel_message<D>() -> (r: InteractionResponse<D>)
    ensures
        r.kind == InteractionResponseType::DeferredChannelMessageWithSource,
        r.data is None,
{
    InteractionResponse {
        kind: InteractionResponseType::DeferredChannelMessageWithSource,
        data: None,
    }
}

/// Answer the interaction by updating the originating message with `data`.
pub fn update_message<D>(data: D) -> (r: InteractionResponse<D>)
    ensures
        r.kind == InteractionResponseType::UpdateMessage,
        r.data == Some(data),
{
    InteractionResponse { kind: InteractionResponseType::UpdateMessage, data: Some(data) }
}

/// Acknowledge the interaction now and update the originating message
/// later.
pub fn defer_update_message<D>() -> (r: InteractionResponse<D>)
    ensures
        r.kind == InteractionResponseType::DeferredUpdateMessage,
        r.data is None,
{
    InteractionResponse { kind: InteractionResponseType::DeferredUpdateMessage, data: None }
}

} // verus!
