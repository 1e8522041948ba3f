//! The Discord interaction objects as the library holds them.
//!
//! Each enum stands for one of Discord's numbered codes; `code` gives the
//! number that Discord uses for a variant.

use std::collections::HashMap;
use vstd::prelude::*;

verus! {

/// The kinds of interaction that Discord sends.
#[derive(Debug, Clone, Copy, PartialEq, Eq, Structural)]
pub enum InteractionType {
    Ping,
    ApplicationCommand,
    MessageComponent,
    ApplicationCommandAutocomplete,
    ModalSubmit,
}

impl InteractionType {
    /// Discord's number for this variant.
    pub open spec fn number(self) -> u8 {
        match self {
            InteractionType::Ping => 1u8,
            InteractionType::ApplicationCommand => 2u8,
            InteractionType::MessageComponent => 3u8,
            InteractionType::ApplicationCommandAutocomplete => 4u8,
            InteractionType::ModalSubmit => 5u8,
        }
    }

    /// Discord's numbering of these variants, as its API documents it.
    pub proof fn law_discord_numbers()
        ensures
            InteractionType::Ping.number() == 1,
            InteractionType::ApplicationCommand.number() == 2,
            InteractionType::MessageComponent.number() == 3,
            InteractionType::ApplicationCommandAutocomplete.number() == 4,
            InteractionType::ModalSubmit.number() == 5,
    {
    }

    /// Discord's number for this variant.
    pub fn code(&self) -> (c: u8)
        ensures
            c == self.number(),
    {
        match *self {
            InteractionType::Ping => 1,
            InteractionType::ApplicationCommand => 2,
            InteractionType::MessageComponent => 3,
            InteractionType::ApplicationCommandAutocomplete => 4,
            InteractionType::ModalSubmit => 5,
        }
    }

    /// The variant that Discord's number `code` stands for, if any.
    pub fn from_code(code: u8) -> (v: Option<Self>)
        ensures
            v matches Some(x) ==> x.number() == code,
            v is None ==> forall|x: Self| x.number() != code,
    {
        match code {
            1 => Some(InteractionType::Ping),
            2 => Some(InteractionType::ApplicationCommand),
            3 => Some(InteractionType::MessageComponent),
            4 => Some(InteractionType::ApplicationCommandAutocomplete),
            5 => Some(InteractionType::ModalSubmit),
            _ => None,
        }
    }

    /// Different variants have different numbers, so a number read back
    /// gives the variant it was written from.
    pub proof fn law_numbers_identify_variants(a: Self, b: Self)
        ensures
            a.number() == b.number() ==> a == b,
    {
    }
}

/// The kinds of reply that an interaction can receive.
#[derive(Debug, Clone, Copy, PartialEq, Eq, Structural)]
pub enum InteractionCallbackType {
    Pong,
    ChannelMessageWithSource,
    DeferredChannelMessageWithSource,
    DeferredUpdateMessage,
    UpdateMessage,
    ApplicationCommandAutocompleteResult,
    Modal,
    PremiumRequired,
}

impl InteractionCallbackType {
    /// Discord's number for this variant.
    pub open spec fn number(self) -> u8 {
        match self {
            InteractionCallbackType::Pong => 1u8,
            InteractionCallbackType::ChannelMessageWithSource => 4u8,
            InteractionCallbackType::DeferredChannelMessageWithSource => 5u8,
            InteractionCallbackType::DeferredUpdateMessage => 6u8,
            InteractionCallbackType::UpdateMessage => 7u8,
            InteractionCallbackType::ApplicationCommandAutocompleteResult => 8u8,
            InteractionCallbackType::Modal => 9u8,
            InteractionCallbackType::PremiumRequired => 10u8,
        }
    }

    /// Discord's numbering of these variants, as its API documents it.
    pub proof fn law_discord_numbers()
        ensures
            InteractionCallbackType::Pong.number() == 1,
            InteractionCallbackType::ChannelMessageWithSource.number() == 4,
            InteractionCallbackType::DeferredChannelMessageWithSource.number() == 5,
            InteractionCallbackType::DeferredUpdateMessage.number() == 6,
            InteractionCallbackType::UpdateMessage.number() == 7,
            InteractionCallbackType::ApplicationCommandAutocompleteResult.number() == 8,
            InteractionCallbackType::Modal.number() == 9,
            InteractionCallbackType::PremiumRequired.number() == 10,
    {
    }

    /// Discord's number for this variant.
    pub fn code(&self) -> (c: u8)
        ensures
            c == self.number(),
    {
        match *self {
            InteractionCallbackType::Pong => 1,
            InteractionCallbackType::ChannelMessageWithSource => 4,
            InteractionCallbackType::DeferredChannelMessageWithSource => 5,
            InteractionCallbackType::DeferredUpdateMessage => 6,
            InteractionCallbackType::UpdateMessage => 7,
            InteractionCallbackType::ApplicationCommandAutocompleteResult => 8,
            InteractionCallbackType::Modal => 9,
            InteractionCallbackType::PremiumRequired => 10,
        }
    }

    /// The variant that Discord's number `code` stands for, if any.
    pub fn from_code(code: u8) -> (v: Option<Self>)
        ensures
            v matches Some(x) ==> x.number() == code,
            v is None ==> forall|x: Self| x.number() != code,
    {
        match code {
            1 => Some(InteractionCallbackType::Pong),
            4 => Some(InteractionCallbackType::ChannelMessageWithSource),
            5 => Some(InteractionCallbackType::DeferredChannelMessageWithSource),
            6 => Some(InteractionCallbackType::DeferredUpdateMessage),
            7 => Some(InteractionCallbackType::UpdateMessage),
            8 => Some(InteractionCallbackType::ApplicationCommandAutocompleteResult),
            9 => Some(InteractionCallbackType::Modal),
            10 => Some(InteractionCallbackType::PremiumRequired),
            _ => None,
        }
    }

    /// Different variants have different numbers, so a number read back
    /// gives the variant it was written from.
    pub proof fn law_numbers_identify_variants(a: Self, b: Self)
        ensures
            a.number() == b.number() ==> a == b,
    {
    }
}

/// The kinds of application command.
#[derive(Debug, Clone, Copy, PartialEq, Eq, Structural)]
pub enum ApplicationCommandType {
    ChatInput,
    User,
    Message,
}

impl ApplicationCommandType {
    /// Discord's number for this variant.
    pub open spec fn number(self) -> u8 {
        match self {
            ApplicationCommandType::ChatInput => 1u8,
            ApplicationCommandType::User => 2u8,
            ApplicationCommandType::Message => 3u8,
        }
    }

    /// Discord's numbering of these variants, as its API documents it.
    pub proof fn law_discord_numbers()
        ensures
            ApplicationCommandType::ChatInput.number() == 1,
            ApplicationCommandType::User.number() == 2,
            ApplicationCommandType::Message.number() == 3,
    {
    }

    /// Discord's number for this variant.
    pub fn code(&self) -> (c: u8)
        ensures
            c == self.number(),
    {
        match *self {
            ApplicationCommandType::ChatInput => 1,
            ApplicationCommandType::User => 2,
            ApplicationCommandType::Message => 3,
        }
    }

    /// The variant that Discord's number `code` stands for, if any.
    pub fn from_code(code: u8) -> (v: Option<Self>)
        ensures
            v matches Some(x) ==> x.number() == code,
            v is None ==> forall|x: Self| x.number() != code,
    {
        match code {
            1 => Some(ApplicationCommandType::ChatInput),
            2 => Some(ApplicationCommandType::User),
            3 => Some(ApplicationCommandType::Message),
            _ => None,
        }
    }

    /// Different variants have different numbers, so a number read back
    /// gives the variant it was written from.
    pub proof fn law_numbers_identify_variants(a: Self, b: Self)
        ensures
            a.number() == b.number() ==> a == b,
    {
    }
}

/// The kinds of message component.
#[derive(Debug, Clone, Copy, PartialEq, Eq, Structural)]
pub enum ComponentType {
    ActionRow,
    Button,
    StringSelect,
    TextInput,
    UserSelect,
    RoleSelect,
    MentionableSelect,
    ChannelSelect,
}

impl ComponentType {
    /// Discord's number for this variant.
    pub open spec fn number(self) -> u8 {
        match self {
            ComponentType::ActionRow => 1u8,
            ComponentType::Button => 2u8,
            ComponentType::StringSelect => 3u8,
            ComponentType::TextInput => 4u8,
            ComponentType::UserSelect => 5u8,
            ComponentType::RoleSelect => 6u8,
            ComponentType::MentionableSelect => 7u8,
            ComponentType::ChannelSelect => 8u8,
        }
    }

    /// Discord's numbering of these variants, as its API documents it.
    pub proof fn law_discord_numbers()
        ensures
            ComponentType::ActionRow.number() == 1,
            ComponentType::Button.number() == 2,
            ComponentType::StringSelect.number() == 3,
            ComponentType::TextInput.number() == 4,
            ComponentType::UserSelect.number() == 5,
            ComponentType::RoleSelect.number() == 6,
            ComponentType::MentionableSelect.number() == 7,
            ComponentType::ChannelSelect.number() == 8,
    {
    }

    /// Discord's number for this variant.
    pub fn code(&self) -> (c: u8)
        ensures
            c == self.number(),
    {
        match *self {
            ComponentType::ActionRow => 1,
            ComponentType::Button => 2,
            ComponentType::StringSelect => 3,
            ComponentType::TextInput => 4,
            ComponentType::UserSelect => 5,
            ComponentType::RoleSelect => 6,
            ComponentType::MentionableSelect => 7,
            ComponentType::ChannelSelect => 8,
        }
    }

    /// The variant that Discord's number `code` stands for, if any.
    pub fn from_code(code: u8) -> (v: Option<Self>)
        ensures
            v matches Some(x) ==> x.number() == code,
            v is None ==> forall|x: Self| x.number() != code,
    {
        match code {
            1 => Some(ComponentType::ActionRow),
            2 => Some(ComponentType::Button),
            3 => Some(ComponentType::StringSelect),
            4 => Some(ComponentType::TextInput),
            5 => Some(ComponentType::UserSelect),
            6 => Some(ComponentType::RoleSelect),
            7 => Some(ComponentType::MentionableSelect),
            8 => Some(ComponentType::ChannelSelect),
            _ => None,
        }
    }

    /// Different variants have different numbers, so a number read back
    /// gives the variant it was written from.
    pub proof fn law_numbers_identify_variants(a: Self, b: Self)
        ensures
            a.number() == b.number() ==> a == b,
    {
    }
}

/// The styles of a button.
#[derive(Debug, Clone, Copy, PartialEq, Eq, Structural)]
pub enum ButtonStyle {
    Primary,
    Secondary,
    Success,
    Danger,
    Link,
}

impl ButtonStyle {
    /// Discord's number for this variant.
    pub open spec fn number(self) -> u8 {
        match self {
            ButtonStyle::Primary => 1u8,
            ButtonStyle::Secondary => 2u8,
            ButtonStyle::Success => 3u8,
            ButtonStyle::Danger => 4u8,
            ButtonStyle::Link => 5u8,
        }
    }

    /// Discord's numbering of these variants, as its API documents it.
    pub proof fn law_discord_numbers()
        ensures
            ButtonStyle::Primary.number() == 1,
            ButtonStyle::Secondary.number() == 2,
            ButtonStyle::Success.number() == 3,
            ButtonStyle::Danger.number() == 4,
            ButtonStyle::Link.number() == 5,
    {
    }

    /// Discord's number for this variant.
    pub fn code(&self) -> (c: u8)
        ensures
            c == self.number(),
    {
        match *self {
            ButtonStyle::Primary => 1,
            ButtonStyle::Secondary => 2,
            ButtonStyle::Success => 3,
            ButtonStyle::Danger => 4,
            ButtonStyle::Link => 5,
        }
    }

    /// The variant that Discord's number `code` stands for, if any.
    pub fn from_code(code: u8) -> (v: Option<Self>)
        ensures
            v matches Some(x) ==> x.number() == code,
            v is None ==> forall|x: Self| x.number() != code,
    {
        match code {
            1 => Some(ButtonStyle::Primary),
            2 => Some(ButtonStyle::Secondary),
            3 => Some(ButtonStyle::Success),
            4 => Some(ButtonStyle::Danger),
            5 => Some(ButtonStyle::Link),
            _ => None,
        }
    }

    /// Different variants have different numbers, so a number read back
    /// gives the variant it was written from.
    pub proof fn law_numbers_identify_variants(a: Self, b: Self)
        ensures
            a.number() == b.number() ==> a == b,
    {
    }
}

/// The styles of a text input.
#[derive(Debug, Clone, Copy, PartialEq, Eq, Structural)]
pub enum TextInputStyle {
    Short,
    Paragraph,
}

impl TextInputStyle {
    /// Discord's number for this variant.
    pub open spec fn number(self) -> u8 {
        match self {
            TextInputStyle::Short => 1u8,
            TextInputStyle::Paragraph => 2u8,
        }
    }

    /// Discord's numbering of these variants, as its API documents it.
    pub proof fn law_discord_numbers()
        ensures
            TextInputStyle::Short.number() == 1,
            TextInputStyle::Paragraph.number() == 2,
    {
    }

    /// Discord's number for this variant.
    pub fn code(&self) -> (c: u8)
        ensures
            c == self.number(),
    {
        match *self {
            TextInputStyle::Short => 1,
            TextInputStyle::Paragraph => 2,
        }
    }

    /// The variant that Discord's number `code` stands for, if any.
    pub fn from_code(code: u8) -> (v: Option<Self>)
        ensures
            v matches Some(x) ==> x.number() == code,
            v is None ==> forall|x: Self| x.number() != code,
    {
        match code {
            1 => Some(TextInputStyle::Short),
            2 => Some(TextInputStyle::Paragraph),
            _ => None,
        }
    }

    /// Different variants have different numbers, so a number read back
    /// gives the variant it was written from.
    pub proof fn law_numbers_identify_variants(a: Self, b: Self)
        ensures
            a.number() == b.number() ==> a == b,
    {
    }
}

/// A Discord user.
#[derive(Debug, Clone)]
pub struct User {
    pub id: String,
    pub username: String,
    pub discriminator: String,
    pub avatar: Option<String>,
    pub bot: Option<bool>,
    pub system: Option<bool>,
    pub mfa_enabled: Option<bool>,
    pub banner: Option<String>,
    pub accent_color: Option<u32>,
    pub locale: Option<String>,
    pub verified: Option<bool>,
    pub email: Option<String>,
    pub flags: Option<u32>,
    pub premium_type: Option<u8>,
    pub public_flags: Option<u32>,
    pub avatar_decoration: Option<String>,
}

/// A member of a guild.
#[derive(Debug, Clone)]
pub struct Member {
    pub user: Option<User>,
    pub nick: Option<String>,
    pub avatar: Option<String>,
    pub roles: Vec<String>,
    pub joined_at: String,
    pub premium_since: Option<String>,
    pub deaf: Option<bool>,
    pub mute: Option<bool>,
    pub flags: Option<u32>,
    pub pending: Option<bool>,
    pub permissions: Option<String>,
    pub communication_disabled_until: Option<String>,
}

/// A channel, with the fields that interactions carry.
#[derive(Debug, Clone)]
pub struct Channel {
    pub id: String,
    pub channel_type: u8,
    pub name: Option<String>,
    pub permissions: Option<String>,
}

/// A message, with the fields that interactions carry.
#[derive(Debug)]
pub struct Message {
    pub id: String,
    pub channel_id: String,
    pub author: Option<User>,
    pub content: String,
    pub timestamp: String,
    pub edited_timestamp: Option<String>,
    pub tts: Option<bool>,
    pub mention_everyone: Option<bool>,
    pub mentions: Option<Vec<User>>,
    pub attachments: Option<Vec<serde_json::Value>>,
    pub embeds: Option<Vec<Embed>>,
    pub components: Option<Vec<Component>>,
}

/// A rich embed of a message.
#[derive(Debug, Clone)]
pub struct Embed {
    pub title: Option<String>,
    pub description: Option<String>,
    pub url: Option<String>,
    pub timestamp: Option<String>,
    pub color: Option<u32>,
    pub footer: Option<EmbedFooter>,
    pub image: Option<EmbedImage>,
    pub thumbnail: Option<EmbedThumbnail>,
    pub author: Option<EmbedAuthor>,
    pub fields: Option<Vec<EmbedField>>,
}

#[derive(Debug, Clone)]
pub struct EmbedFooter {
    pub text: String,
    pub icon_url: Option<String>,
}

#[derive(Debug, Clone)]
pub struct EmbedImage {
    pub url: String,
}

#[derive(Debug, Clone)]
pub struct EmbedThumbnail {
    pub url: String,
}

#[derive(Debug, Clone)]
pub struct EmbedAuthor {
    pub name: String,
    pub url: Option<String>,
    pub icon_url: Option<String>,
}

#[derive(Debug, Clone)]
pub struct EmbedField {
    pub name: String,
    pub value: String,
    pub inline: Option<bool>,
}

/// A message component: a button, a select menu, a text input or a row of them.
#[derive(Debug)]
pub struct Component {
    pub component_type: ComponentType,
    pub custom_id: Option<String>,
    pub disabled: Option<bool>,
    pub style: Option<u8>,
    pub label: Option<String>,
    pub emoji: Option<serde_json::Value>,
    pub url: Option<String>,
    pub options: Option<Vec<SelectOption>>,
    pub placeholder: Option<String>,
    pub min_values: Option<u32>,
    pub max_values: Option<u32>,
    pub components: Option<Vec<Component>>,
    pub value: Option<String>,
    pub required: Option<bool>,
    pub min_length: Option<u32>,
    pub max_length: Option<u32>,
}

/// One choice of a select menu.
#[derive(Debug, Clone)]
pub struct SelectOption {
    pub label: String,
    pub value: String,
    pub description: Option<String>,
    pub emoji: Option<serde_json::Value>,
    pub default: Option<bool>,
}

/// An option of an application command, as the user filled it in.
#[derive(Debug)]
pub struct ApplicationCommandOption {
    pub name: String,
    pub option_type: u8,
    pub value: Option<serde_json::Value>,
    pub options: Option<Vec<ApplicationCommandOption>>,
    pub focused: Option<bool>,
}

/// The objects that an interaction refers to, by id.
#[derive(Debug)]
pub struct ResolvedData {
    pub users: Option<HashMap<String, User>>,
    pub members: Option<HashMap<String, Member>>,
    pub roles: Option<HashMap<String, serde_json::Value>>,
    pub channels: Option<HashMap<String, Channel>>,
    pub messages: Option<HashMap<String, Message>>,
    pub attachments: Option<HashMap<String, serde_json::Value>>,
}

/// The payload of an interaction.
#[derive(Debug)]
pub struct InteractionData {
    pub id: Option<String>,
    pub name: Option<String>,
    pub command_type: Option<ApplicationCommandType>,
    pub resolved: Option<ResolvedData>,
    pub options: Option<Vec<ApplicationCommandOption>>,
    pub custom_id: Option<String>,
    pub component_type: Option<ComponentType>,
    pub values: Option<Vec<String>>,
    pub target_id: Option<String>,
    pub components: Option<Vec<Component>>,
    pub guild_id: Option<String>,
}

/// An interaction that Discord sends to the endpoint.
#[derive(Debug)]
pub struct Interaction {
    pub id: String,
    pub application_id: String,
    pub interaction_type: InteractionType,
    pub data: Option<InteractionData>,
    pub guild_id: Option<String>,
    pub channel_id: Option<String>,
    pub member: Option<Member>,
    pub user: Option<User>,
    pub token: String,
    pub version: u8,
    pub message: Option<Message>,
    pub app_permissions: Option<String>,
    pub locale: Option<String>,
    pub guild_locale: Option<String>,
}

/// The payload of a reply to an interaction.
#[derive(Debug)]
pub struct InteractionResponseData {
    pub tts: Option<bool>,
    pub content: Option<String>,
    pub embeds: Option<Vec<Embed>>,
    pub allowed_mentions: Option<serde_json::Value>,
    pub flags: Option<u32>,
    pub components: Option<Vec<Component>>,
    pub attachments: Option<Vec<serde_json::Value>>,
    pub choices: Option<Vec<serde_json::Value>>,
    pub custom_id: Option<String>,
    pub title: Option<String>,
}

/// The message flag that shows a reply to the invoking user alone.
pub const EPHEMERAL_FLAG: u32 = 64;

impl InteractionResponseData {
    /// The reply payload that sets nothing.
    pub open spec fn is_blank(self) -> bool {
        &&& self.tts is None
        &&& self.content is None
        &&& self.embeds is None
        &&& self.allowed_mentions is None
        &&& self.flags is None
        &&& self.components is None
        &&& self.attachments is None
        &&& self.choices is None
        &&& self.custom_id is None
        &&& self.title is None
    }
}

impl Default for InteractionResponseData {
    fn default() -> (d: Self)
        ensures
            d.is_blank(),
    {
        InteractionResponseData {
            tts: None,
            content: None,
            embeds: None,
            allowed_mentions: None,
            flags: None,
            components: None,
            attachments: None,
            choices: None,
            custom_id: None,
            title: None,
        }
    }
}

/// A reply to an interaction.
#[derive(Debug)]
pub struct InteractionResponse {
    pub response_type: InteractionCallbackType,
    pub data: Option<InteractionResponseData>,
}

impl InteractionResponse {
    /// A reply that carries `content` as a message, with every other field of
    /// the payload unset and with exactly the given flags.
    pub open spec fn is_message_reply(self, content: Seq<char>, flags: Option<u32>) -> bool {
        &&& self.response_type == InteractionCallbackType::ChannelMessageWithSource
        &&& self.data matches Some(d)
        &&& d.content matches Some(c)
        &&& c@ == content
        &&& d.flags == flags
        &&& d.tts is None
        &&& d.embeds is None
        &&& d.allowed_mentions is None
        &&& d.components is None
        &&& d.attachments is None
        &&& d.choices is None
        &&& d.custom_id is None
        &&& d.title is None
    }

    /// The reply to a Ping.
    pub fn pong() -> (r: Self)
        ensures
            r.response_type == InteractionCallbackType::Pong,
            r.data is None,
    {
        InteractionResponse { response_type: InteractionCallbackType::Pong, data: None }
    }

    /// A reply that acknowledges now and sends the message later.
    pub fn deferred() -> (r: Self)
        ensures
            r.response_type == InteractionCallbackType::DeferredChannelMessageWithSource,
            r.data is None,
    {
        InteractionResponse {
            response_type: InteractionCallbackType::DeferredChannelMessageWithSource,
            data: None,
        }
    }

    /// A reply that posts `content` in the channel.
    pub fn message(content: String) -> (r: Self)
        ensures
            r.is_message_reply(content@, None),
    {
        let mut data = InteractionResponseData::default();
        data.content = Some(content);
        InteractionResponse {
            response_type: InteractionCallbackType::ChannelMessageWithSource,
            data: Some(data),
        }
    }

    /// A reply that posts `content` so that only the invoking user sees it.
    pub fn ephemeral_message(content: String) -> (r: Self)
        ensures
            r.is_message_reply(content@, Some(EPHEMERAL_FLAG)),
    {
        let mut data = InteractionResponseData::default();
        data.content = Some(content);
        data.flags = Some(EPHEMERAL_FLAG);
        InteractionResponse {
            response_type: InteractionCallbackType::ChannelMessageWithSource,
            data: Some(data),
        }
    }
}

} // verus!
