//! Which AWS Lambda function handles an interaction, and how the function's
//! reply is read.
//!
//! Commands go to `discord-command-<name>`, components to
//! `discord-component-<id>`, modals to `discord-modal-<id>` and autocomplete
//! requests to `discord-autocomplete-<name>`, where `<id>` is the part of the
//! custom ID before its first `:`; what follows the `:` are arguments that
//! travel with the interaction.

use crate::discord::types::{Interaction, InteractionType};
use crate::json::{json_document_accepted, json_reserialized, reserialize_json};
use vstd::prelude::*;
use vstd::string::{StringExecFns, StrSliceExecFns};

verus! {

/// Why no reply could be had from a Lambda function.
#[derive(Debug)]
pub enum LambdaInvokerError {
    /// The invocation failed, or the function reported an error.
    AwsSdkError(String),
    /// A payload could not be written or read as JSON.
    SerializationError(serde_json::Error),
    /// A command or autocomplete interaction carries no command name.
    NoCommandName,
    /// A component or modal interaction carries no custom ID.
    NoCustomId,
}

/// The part of a custom ID before its first `:`, or all of it.
pub open spec fn custom_id_base(id: Seq<char>) -> Seq<char>
    decreases id.len(),
{
    if id.len() == 0 {
        id
    } else if id[0] == ':' {
        Seq::empty()
    } else {
        seq![id[0]] + custom_id_base(id.drop_first())
    }
}

proof fn lemma_custom_id_base_prefix(id: Seq<char>, k: int)
    requires
        0 <= k <= id.len(),
        forall|j: int| 0 <= j < k ==> id[j] != ':',
        k == id.len() || id[k] == ':',
    ensures
        custom_id_base(id) == id.take(k),
    decreases id.len(),
{
    if id.len() == 0 {
        assert(id.take(k) =~= id);
    } else if id[0] == ':' {
        assert(id.take(k) =~= Seq::<char>::empty());
    } else {
        let rest = id.drop_first();
        assert forall|j: int| 0 <= j < k - 1 implies rest[j] != ':' by {
            assert(rest[j] == id[j + 1]);
        }
        if k < id.len() {
            assert(rest[k - 1] == id[k]);
        }
        lemma_custom_id_base_prefix(rest, k - 1);
        assert(id.take(k) =~= seq![id[0]] + rest.take(k - 1));
    }
}

/// A custom ID carries its arguments after a `:`: for a name without `:`,
/// the custom IDs `name` and `name:args` both stand for `name`, so they reach
/// the same function whatever the arguments.
pub proof fn law_custom_id_arguments_keep_the_function(name: Seq<char>, args: Seq<char>)
    requires
        !name.contains(':'),
    ensures
        custom_id_base(name + seq![':'] + args) == name,
        custom_id_base(name) == name,
{
    let id = name + seq![':'] + args;
    assert forall|j: int| 0 <= j < name.len() implies id[j] != ':' by {
        assert(id[j] == name[j]);
        if name[j] == ':' {
            assert(name.contains(':'));
        }
    }
    assert(id[name.len() as int] == ':');
    lemma_custom_id_base_prefix(id, name.len() as int);
    assert(id.take(name.len() as int) =~= name);
    assert forall|j: int| 0 <= j < name.len() implies name[j] != ':' by {
        if name[j] == ':' {
            assert(name.contains(':'));
        }
    }
    lemma_custom_id_base_prefix(name, name.len() as int);
    assert(name.take(name.len() as int) =~= name);
}

/// The name that a custom ID stands for is a prefix of it and holds no `:`.
pub proof fn law_custom_id_base_is_a_plain_prefix(id: Seq<char>)
    ensures
        custom_id_base(id).len() <= id.len(),
        id.take(custom_id_base(id).len() as int) == custom_id_base(id),
        !custom_id_base(id).contains(':'),
        custom_id_base(id).len() == id.len() || id[custom_id_base(id).len() as int] == ':',
    decreases id.len(),
{
    if id.len() == 0 {
        assert(id.take(0) =~= id);
    } else if id[0] == ':' {
        assert(id.take(0) =~= Seq::<char>::empty());
    } else {
        let rest = id.drop_first();
        law_custom_id_base_is_a_plain_prefix(rest);
        let b = custom_id_base(rest);
        assert(custom_id_base(id) == seq![id[0]] + b);
        assert(id.take(b.len() as int + 1) =~= seq![id[0]] + rest.take(b.len() as int));
        assert forall|j: int| 0 <= j < b.len() + 1 implies (seq![id[0]] + b)[j] != ':' by {
            if j > 0 {
                assert((seq![id[0]] + b)[j] == b[j - 1]);
                if b[j - 1] == ':' {
                    assert(b.contains(':'));
                }
            }
        }
    }
}

/// The part of a custom ID before its first `:`; the whole ID when it has none.
pub fn function_name_from_custom_id(custom_id: &str) -> (base: &str)
    ensures
        base@ == custom_id_base(custom_id@),
{
    let n = custom_id.unicode_len();
    let mut i: usize = 0;
    while i < n
        invariant
            i <= n,
            n == custom_id@.len(),
            forall|j: int| 0 <= j < i ==> custom_id@[j] != ':',
        ensures
            i <= n,
            n == custom_id@.len(),
            forall|j: int| 0 <= j < i ==> custom_id@[j] != ':',
            i == n || custom_id@[i as int] == ':',
        decreases n - i,
    {
        if custom_id.get_char(i) == ':' {
            break;
        }
        i = i + 1;
    }
    proof {
        lemma_custom_id_base_prefix(custom_id@, i as int);
    }
    custom_id.substring_char(0, i)
}

/// `prefix` followed by `name`.
fn prefixed(prefix: &str, name: &str) -> (s: String)
    ensures
        s@ == prefix@ + name@,
{
    prefix.to_string().concat(name)
}

/// The function for the application command `command_name`.
pub fn command_function_name(command_name: &str) -> (f: String)
    ensures
        f@ == "discord-command-"@ + command_name@,
{
    prefixed("discord-command-", command_name)
}

/// The function for the component with custom ID `custom_id`.
pub fn component_function_name(custom_id: &str) -> (f: String)
    ensures
        f@ == "discord-component-"@ + custom_id_base(custom_id@),
{
    prefixed("discord-component-", function_name_from_custom_id(custom_id))
}

/// The function for the modal with custom ID `custom_id`.
pub fn modal_function_name(custom_id: &str) -> (f: String)
    ensures
        f@ == "discord-modal-"@ + custom_id_base(custom_id@),
{
    prefixed("discord-modal-", function_name_from_custom_id(custom_id))
}

/// The function for autocompletion of the command `command_name`.
pub fn autocomplete_function_name(command_name: &str) -> (f: String)
    ensures
        f@ == "discord-autocomplete-"@ + command_name@,
{
    prefixed("discord-autocomplete-", command_name)
}

/// What is done with an interaction on the Lambda side.
pub enum LambdaRoute {
    /// Answered in place with this JSON document: no function is invoked.
    Reply(String),
    /// The function of this name is invoked with the interaction.
    Invoke(String),
}

/// The JSON that answers a Ping without an invocation.
pub open spec fn ping_reply_json() -> Seq<char> {
    "{\"type\":1}"@
}

/// The command name that an interaction carries.
pub open spec fn command_name_of(i: Interaction) -> Option<Seq<char>> {
    match i.data {
        Some(d) => match d.name {
            Some(n) => Some(n@),
            None => None,
        },
        None => None,
    }
}

/// The custom ID that an interaction carries.
pub open spec fn custom_id_of(i: Interaction) -> Option<Seq<char>> {
    match i.data {
        Some(d) => match d.custom_id {
            Some(c) => Some(c@),
            None => None,
        },
        None => None,
    }
}

/// The route of an interaction, with the function names as text.
pub enum RouteSpec {
    Reply(Seq<char>),
    Invoke(Seq<char>),
    MissingCommandName,
    MissingCustomId,
}

/// Where an interaction goes, by its type and by the name or custom ID it carries.
pub open spec fn route_of(i: Interaction) -> RouteSpec {
    match i.interaction_type {
        InteractionType::Ping => RouteSpec::Reply(ping_reply_json()),
        InteractionType::ApplicationCommand => match command_name_of(i) {
            Some(n) => RouteSpec::Invoke("discord-command-"@ + n),
            None => RouteSpec::MissingCommandName,
        },
        InteractionType::MessageComponent => match custom_id_of(i) {
            Some(c) => RouteSpec::Invoke("discord-component-"@ + custom_id_base(c)),
            None => RouteSpec::MissingCustomId,
        },
        InteractionType::ModalSubmit => match custom_id_of(i) {
            Some(c) => RouteSpec::Invoke("discord-modal-"@ + custom_id_base(c)),
            None => RouteSpec::MissingCustomId,
        },
        InteractionType::ApplicationCommandAutocomplete => match command_name_of(i) {
            Some(n) => RouteSpec::Invoke("discord-autocomplete-"@ + n),
            None => RouteSpec::MissingCommandName,
        },
    }
}

/// Every function that an interaction is sent to is one of the `discord-`
/// functions.
pub proof fn law_invoked_functions_are_discord_functions(i: Interaction)
    ensures
        route_of(i) matches RouteSpec::Invoke(f) ==> f.take(8) == "discord-"@,
{
    reveal_strlit("discord-");
    reveal_strlit("discord-command-");
    reveal_strlit("discord-component-");
    reveal_strlit("discord-modal-");
    reveal_strlit("discord-autocomplete-");
    if let RouteSpec::Invoke(f) = route_of(i) {
        assert(f.take(8) =~= "discord-"@);
    }
}

/// Whether `name` is `id` cut before its first `:`: a prefix of `id` that
/// holds no `:` and ends where `id` ends or where a `:` follows.
pub open spec fn cut_before_first_colon(id: Seq<char>, name: Seq<char>) -> bool {
    &&& name.len() <= id.len()
    &&& id.take(name.len() as int) == name
    &&& forall|j: int| 0 <= j < name.len() ==> name[j] != ':'
    &&& (name.len() == id.len() || id[name.len() as int] == ':')
}

/// Whether `f` is `prefix` followed by a name that is `id` cut before its
/// first `:`.
pub open spec fn names_custom_id_function(f: Seq<char>, prefix: Seq<char>, id: Seq<char>) -> bool {
    &&& f.len() >= prefix.len()
    &&& f.take(prefix.len() as int) == prefix
    &&& cut_before_first_colon(id, f.skip(prefix.len() as int))
}

/// Where a route that `lambda_route` gives sends each kind of interaction:
/// a Ping is answered in place with `{"type":1}`; a command or autocomplete
/// request goes to `discord-command-` or `discord-autocomplete-` followed by
/// the command's name; a component or a modal goes to `discord-component-`
/// or `discord-modal-` followed by its custom ID cut before the first `:`,
/// so the arguments after the `:` never reach the function's name. A missing
/// name or custom ID is the matching error.
pub proof fn law_route_names_the_function(
    i: Interaction,
    res: Result<LambdaRoute, LambdaInvokerError>,
)
    requires
        is_route(res, route_of(i)),
    ensures
        i.interaction_type == InteractionType::Ping ==> (res matches Ok(LambdaRoute::Reply(t))
            && t@ == "{\"type\":1}"@),
        i.interaction_type == InteractionType::ApplicationCommand ==> match command_name_of(i) {
            Some(n) => res matches Ok(LambdaRoute::Invoke(f)) && f@ == "discord-command-"@ + n,
            None => res matches Err(LambdaInvokerError::NoCommandName),
        },
        i.interaction_type == InteractionType::ApplicationCommandAutocomplete ==> match command_name_of(i) {
            Some(n) => res matches Ok(LambdaRoute::Invoke(f)) && f@ == "discord-autocomplete-"@ + n,
            None => res matches Err(LambdaInvokerError::NoCommandName),
        },
        i.interaction_type == InteractionType::MessageComponent ==> match custom_id_of(i) {
            Some(c) => res matches Ok(LambdaRoute::Invoke(f)) && names_custom_id_function(
                f@,
                "discord-component-"@,
                c,
            ),
            None => res matches Err(LambdaInvokerError::NoCustomId),
        },
        i.interaction_type == InteractionType::ModalSubmit ==> match custom_id_of(i) {
            Some(c) => res matches Ok(LambdaRoute::Invoke(f)) && names_custom_id_function(
                f@,
                "discord-modal-"@,
                c,
            ),
            None => res matches Err(LambdaInvokerError::NoCustomId),
        },
{
    if let Some(c) = custom_id_of(i) {
        law_custom_id_base_is_a_plain_prefix(c);
        let b = custom_id_base(c);
        assert forall|j: int| 0 <= j < b.len() implies b[j] != ':' by {
            if b[j] == ':' {
                assert(b.contains(':'));
            }
        }
        let pc = "discord-component-"@;
        let pm = "discord-modal-"@;
        assert((pc + b).take(pc.len() as int) =~= pc);
        assert((pc + b).skip(pc.len() as int) =~= b);
        assert((pm + b).take(pm.len() as int) =~= pm);
        assert((pm + b).skip(pm.len() as int) =~= b);
    }
}

/// Whether `res` is the route `r`.
pub open spec fn is_route(res: Result<LambdaRoute, LambdaInvokerError>, r: RouteSpec) -> bool {
    match r {
        RouteSpec::Reply(t) => res matches Ok(LambdaRoute::Reply(s)) && s@ == t,
        RouteSpec::Invoke(f) => res matches Ok(LambdaRoute::Invoke(s)) && s@ == f,
        RouteSpec::MissingCommandName => res matches Err(LambdaInvokerError::NoCommandName),
        RouteSpec::MissingCustomId => res matches Err(LambdaInvokerError::NoCustomId),
    }
}

fn command_name(interaction: &Interaction) -> (n: Option<&String>)
    ensures
        match n {
            Some(s) => command_name_of(*interaction) == Some(s@),
            None => command_name_of(*interaction) is None,
        },
{
    match &interaction.data {
        Some(d) => match &d.name {
            Some(s) => Some(s),
            None => None,
        },
        None => None,
    }
}

fn custom_id(interaction: &Interaction) -> (c: Option<&String>)
    ensures
        match c {
            Some(s) => custom_id_of(*interaction) == Some(s@),
            None => custom_id_of(*interaction) is None,
        },
{
    match &interaction.data {
        Some(d) => match &d.custom_id {
            Some(s) => Some(s),
            None => None,
        },
        None => None,
    }
}

/// Decides which Lambda function handles `interaction`, or answers it in
/// place when it is a Ping.
pub fn lambda_route(interaction: &Interaction) -> (res: Result<LambdaRoute, LambdaInvokerError>)
    ensures
        is_route(res, route_of(*interaction)),
{
    match interaction.interaction_type {
        InteractionType::Ping => Ok(LambdaRoute::Reply("{\"type\":1}".to_string())),
        InteractionType::ApplicationCommand => match command_name(interaction) {
            Some(n) => Ok(LambdaRoute::Invoke(command_function_name(n.as_str()))),
            None => Err(LambdaInvokerError::NoCommandName),
        },
        InteractionType::MessageComponent => match custom_id(interaction) {
            Some(c) => Ok(LambdaRoute::Invoke(component_function_name(c.as_str()))),
            None => Err(LambdaInvokerError::NoCustomId),
        },
        InteractionType::ModalSubmit => match custom_id(interaction) {
            Some(c) => Ok(LambdaRoute::Invoke(modal_function_name(c.as_str()))),
            None => Err(LambdaInvokerError::NoCustomId),
        },
        InteractionType::ApplicationCommandAutocomplete => match command_name(interaction) {
            Some(n) => Ok(LambdaRoute::Invoke(autocomplete_function_name(n.as_str()))),
            None => Err(LambdaInvokerError::NoCommandName),
        },
    }
}

/// What a Lambda function answered.
pub enum LambdaReply {
    /// The JSON text of the document that the function returned, as
    /// `serde_json` writes it back.
    Payload(String),
    /// The function returned no payload: the reply is JSON `null`.
    Empty,
}

/// Reads the result of an invocation: the error that the function reported,
/// if any, and its payload, if any.
pub fn read_invocation_result(function_error: Option<String>, payload: Option<Vec<u8>>) -> (res:
    Result<LambdaReply, LambdaInvokerError>)
    ensures
        match function_error {
            Some(fe) => res matches Err(LambdaInvokerError::AwsSdkError(m)) && m@
                == "Lambda function error: "@ + fe@,
            None => match payload {
                None => res matches Ok(LambdaReply::Empty),
                Some(p) => if json_document_accepted(p@) {
                    res matches Ok(LambdaReply::Payload(t)) && t@ == json_reserialized(p@)
                } else {
                    res matches Err(LambdaInvokerError::SerializationError(_))
                },
            },
        },
{
    match function_error {
        Some(fe) => Err(LambdaInvokerError::AwsSdkError(prefixed("Lambda function error: ", fe.as_str()))),
        None => match payload {
            None => Ok(LambdaReply::Empty),
            Some(p) => match reserialize_json(p.as_slice()) {
                Ok(t) => Ok(LambdaReply::Payload(t)),
                Err(e) => Err(LambdaInvokerError::SerializationError(e)),
            },
        },
    }
}

} // verus!
