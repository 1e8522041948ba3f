use discord_interaction_handler::discord::{
    ApplicationCommandOption, ApplicationCommandType, ComponentType, Interaction, InteractionData,
    InteractionResponse, InteractionType,
};
use discord_interaction_handler::lambda_invoker::{
    autocomplete_function_name, command_function_name, component_function_name,
    modal_function_name,
};

fn empty_data() -> InteractionData {
    InteractionData {
        id: None,
        name: None,
        command_type: None,
        resolved: None,
        options: None,
        custom_id: None,
        component_type: None,
        values: None,
        target_id: None,
        components: None,
        guild_id: None,
    }
}

fn interaction(kind: InteractionType, data: Option<InteractionData>, in_guild: bool) -> Interaction {
    Interaction {
        id: "1234567890".to_string(),
        application_id: "0987654321".to_string(),
        interaction_type: kind,
        data,
        guild_id: if in_guild { Some("guild_123".to_string()) } else { None },
        channel_id: if in_guild { Some("channel_123".to_string()) } else { None },
        member: None,
        user: None,
        token: "test_token".to_string(),
        version: 1,
        message: None,
        app_permissions: None,
        locale: None,
        guild_locale: None,
    }
}

#[test]
fn test_ping_interaction_structure() {
    let ping_interaction = interaction(InteractionType::Ping, None, false);

    assert_eq!(ping_interaction.interaction_type.code(), 1);
    assert_eq!(ping_interaction.version, 1);
}

#[test]
fn test_application_command_structure() {
    let mut data = empty_data();
    data.id = Some("cmd_id".to_string());
    data.name = Some("test_command".to_string());
    data.command_type = Some(ApplicationCommandType::ChatInput);
    let command_interaction = interaction(InteractionType::ApplicationCommand, Some(data), true);

    assert_eq!(command_interaction.interaction_type.code(), 2);
    assert_eq!(
        command_interaction.data.as_ref().unwrap().name.as_deref(),
        Some("test_command")
    );
}

#[test]
fn test_message_component_structure() {
    let mut data = empty_data();
    data.custom_id = Some("button_click:arg1".to_string());
    data.component_type = Some(ComponentType::Button);
    let component_interaction = interaction(InteractionType::MessageComponent, Some(data), true);

    assert_eq!(component_interaction.interaction_type.code(), 3);
    assert_eq!(
        component_interaction.data.as_ref().unwrap().custom_id.as_deref(),
        Some("button_click:arg1")
    );
}

#[test]
fn test_modal_submit_structure() {
    let mut data = empty_data();
    data.custom_id = Some("modal_submit".to_string());
    data.components = Some(vec![]);
    let modal_interaction = interaction(InteractionType::ModalSubmit, Some(data), true);

    assert_eq!(modal_interaction.interaction_type.code(), 5);
    assert_eq!(
        modal_interaction.data.as_ref().unwrap().custom_id.as_deref(),
        Some("modal_submit")
    );
}

#[test]
fn test_autocomplete_structure() {
    let mut data = empty_data();
    data.id = Some("cmd_id".to_string());
    data.name = Some("search".to_string());
    data.command_type = Some(ApplicationCommandType::ChatInput);
    data.options = Some(vec![ApplicationCommandOption {
        name: "query".to_string(),
        option_type: 3,
        value: Some(serde_json::Value::String("test".to_string())),
        options: None,
        focused: Some(true),
    }]);
    let autocomplete_interaction =
        interaction(InteractionType::ApplicationCommandAutocomplete, Some(data), true);

    assert_eq!(autocomplete_interaction.interaction_type.code(), 4);
    assert_eq!(
        autocomplete_interaction.data.as_ref().unwrap().name.as_deref(),
        Some("search")
    );
}

#[test]
fn test_interaction_response_pong() {
    let response = InteractionResponse::pong();

    assert_eq!(response.response_type.code(), 1);
}

#[test]
fn test_interaction_response_message() {
    let response = InteractionResponse::message("Hello, World!".to_string());

    assert_eq!(response.response_type.code(), 4);
    assert_eq!(
        response.data.as_ref().unwrap().content.as_deref(),
        Some("Hello, World!")
    );
}

#[test]
fn test_interaction_response_ephemeral() {
    let response = InteractionResponse::ephemeral_message("This is ephemeral".to_string());

    assert_eq!(response.response_type.code(), 4);
    assert_eq!(response.data.as_ref().unwrap().flags, Some(64));
}

#[test]
fn test_lambda_function_naming_command() {
    let command_name = "mycommand";
    let expected = command_function_name(command_name);
    assert_eq!(expected, "discord-command-mycommand");
}

#[test]
fn test_lambda_function_naming_component() {
    let custom_id = "button_click:arg1:arg2";
    let expected = component_function_name(custom_id);
    assert_eq!(expected, "discord-component-button_click");
}

#[test]
fn test_lambda_function_naming_modal() {
    let custom_id = "user_info_modal";
    let expected = modal_function_name(custom_id);
    assert_eq!(expected, "discord-modal-user_info_modal");
}

#[test]
fn test_lambda_function_naming_autocomplete() {
    let command_name = "search";
    let expected = autocomplete_function_name(command_name);
    assert_eq!(expected, "discord-autocomplete-search");
}

#[test]
fn deferred_reply_has_no_payload() {
    let response = InteractionResponse::deferred();
    assert_eq!(response.response_type.code(), 5);
    assert!(response.data.is_none());
}

#[test]
fn message_reply_sets_content_alone() {
    let d = InteractionResponse::message("x".to_string()).data.unwrap();
    assert!(d.flags.is_none() && d.tts.is_none() && d.embeds.is_none() && d.title.is_none());
}

#[test]
fn discord_codes() {
    assert_eq!(InteractionType::ModalSubmit.code(), 5);
    assert_eq!(ComponentType::ChannelSelect.code(), 8);
    assert_eq!(
        discord_interaction_handler::discord::InteractionCallbackType::PremiumRequired.code(),
        10
    );
    assert_eq!(discord_interaction_handler::discord::ButtonStyle::Link.code(), 5);
    assert_eq!(discord_interaction_handler::discord::TextInputStyle::Paragraph.code(), 2);
    assert_eq!(ApplicationCommandType::Message.code(), 3);
}

#[test]
fn codes_read_back() {
    for code in 0u8..=12 {
        match InteractionType::from_code(code) {
            Some(t) => assert_eq!(t.code(), code),
            None => assert!(code == 0 || code > 5),
        }
    }
    assert_eq!(ComponentType::from_code(2), Some(ComponentType::Button));
    assert_eq!(
        discord_interaction_handler::discord::InteractionCallbackType::from_code(2),
        None
    );
}
