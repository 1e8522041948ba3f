use discord_interaction_handler::discord::{Interaction, InteractionData, InteractionType};
use discord_interaction_handler::lambda_invoker::{
    autocomplete_function_name, command_function_name, component_function_name,
    function_name_from_custom_id, lambda_route, modal_function_name, read_invocation_result,
    LambdaInvokerError, LambdaReply, LambdaRoute,
};

fn data(name: Option<&str>, custom_id: Option<&str>) -> InteractionData {
    InteractionData {
        id: None,
        name: name.map(|s| s.to_string()),
        command_type: None,
        resolved: None,
        options: None,
        custom_id: custom_id.map(|s| s.to_string()),
        component_type: None,
        values: None,
        target_id: None,
        components: None,
        guild_id: None,
    }
}

fn interaction(kind: InteractionType, data: Option<InteractionData>) -> Interaction {
    Interaction {
        id: "1234567890".to_string(),
        application_id: "0987654321".to_string(),
        interaction_type: kind,
        data,
        guild_id: None,
        channel_id: None,
        member: None,
        user: None,
        token: "test_token".to_string(),
        version: 1,
        message: None,
        app_permissions: None,
        locale: None,
        guild_locale: None,
    }
}

fn invoked(route: Result<LambdaRoute, LambdaInvokerError>) -> String {
    match route {
        Ok(LambdaRoute::Invoke(f)) => f,
        Ok(LambdaRoute::Reply(t)) => panic!("answered in place with {}", t),
        Err(e) => panic!("no route: {:?}", e),
    }
}

#[test]
fn test_extract_function_name_from_custom_id() {
    let custom_id = "my_button:arg1:arg2";
    let function_name = function_name_from_custom_id(custom_id);
    assert_eq!(function_name, "my_button");
}

#[test]
fn test_extract_function_name_simple() {
    let custom_id = "simple_button";
    let function_name = function_name_from_custom_id(custom_id);
    assert_eq!(function_name, "simple_button");
}

#[test]
fn custom_id_edge_cases() {
    assert_eq!(function_name_from_custom_id(""), "");
    assert_eq!(function_name_from_custom_id(":x"), "");
    assert_eq!(function_name_from_custom_id("a::b"), "a");
    assert_eq!(function_name_from_custom_id("héllo:wörld"), "héllo");
}

#[test]
fn arguments_do_not_change_the_function() {
    assert_eq!(
        component_function_name("approve:user123:request456"),
        component_function_name("approve")
    );
    assert_eq!(component_function_name("approve"), "discord-component-approve");
    assert_eq!(modal_function_name("user_info:step2"), "discord-modal-user_info");
}

#[test]
fn naming_functions_prefix_their_kind() {
    assert_eq!(command_function_name("ping"), "discord-command-ping");
    assert_eq!(autocomplete_function_name("search"), "discord-autocomplete-search");
}

#[test]
fn ping_is_answered_in_place() {
    match lambda_route(&interaction(InteractionType::Ping, None)) {
        Ok(LambdaRoute::Reply(t)) => assert_eq!(t, r#"{"type":1}"#),
        _ => panic!("a Ping invokes nothing"),
    }
}

#[test]
fn each_kind_reaches_its_function() {
    let cmd = interaction(InteractionType::ApplicationCommand, Some(data(Some("ping"), None)));
    assert_eq!(invoked(lambda_route(&cmd)), "discord-command-ping");
    let comp = interaction(
        InteractionType::MessageComponent,
        Some(data(None, Some("approve:user123:request456"))),
    );
    assert_eq!(invoked(lambda_route(&comp)), "discord-component-approve");
    let modal = interaction(InteractionType::ModalSubmit, Some(data(None, Some("user_info"))));
    assert_eq!(invoked(lambda_route(&modal)), "discord-modal-user_info");
    let auto = interaction(
        InteractionType::ApplicationCommandAutocomplete,
        Some(data(Some("search"), None)),
    );
    assert_eq!(invoked(lambda_route(&auto)), "discord-autocomplete-search");
}

#[test]
fn missing_names_are_errors() {
    let cmd = interaction(InteractionType::ApplicationCommand, None);
    assert!(matches!(lambda_route(&cmd), Err(LambdaInvokerError::NoCommandName)));
    let auto = interaction(InteractionType::ApplicationCommandAutocomplete, Some(data(None, Some("x"))));
    assert!(matches!(lambda_route(&auto), Err(LambdaInvokerError::NoCommandName)));
    let comp = interaction(InteractionType::MessageComponent, Some(data(Some("x"), None)));
    assert!(matches!(lambda_route(&comp), Err(LambdaInvokerError::NoCustomId)));
    let modal = interaction(InteractionType::ModalSubmit, None);
    assert!(matches!(lambda_route(&modal), Err(LambdaInvokerError::NoCustomId)));
}

#[test]
fn function_error_wins_over_payload() {
    let r = read_invocation_result(Some("Unhandled".to_string()), Some(b"{}".to_vec()));
    match r {
        Err(LambdaInvokerError::AwsSdkError(m)) => assert_eq!(m, "Lambda function error: Unhandled"),
        _ => panic!("expected the function's error"),
    }
}

#[test]
fn payloads_are_read_as_json() {
    assert!(matches!(read_invocation_result(None, None), Ok(LambdaReply::Empty)));
    match read_invocation_result(None, Some(br#"{ "a": 1, "b": [true, null] }"#.to_vec())) {
        Ok(LambdaReply::Payload(t)) => assert_eq!(t, r#"{"a":1,"b":[true,null]}"#),
        _ => panic!("expected the document back"),
    }
    assert!(matches!(
        read_invocation_result(None, Some(b"not json".to_vec())),
        Err(LambdaInvokerError::SerializationError(_))
    ));
}
