pub mod ed25519;
pub mod hex_codec;
pub mod types;
pub mod verification;

pub use types::{
    ApplicationCommandOption, ApplicationCommandType, ButtonStyle, Channel, Component,
    ComponentType, Embed, EmbedAuthor, EmbedField, EmbedFooter, EmbedImage, EmbedThumbnail,
    Interaction, InteractionCallbackType, InteractionData, InteractionResponse,
    InteractionResponseData, InteractionType, Member, Message, ResolvedData, SelectOption,
    TextInputStyle, User,
};
pub use verification::{verify_discord_signature, VerificationError};
