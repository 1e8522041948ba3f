# discord_interaction_handler

The verified core of a Discord interaction endpoint meant to run on AWS Lambda.

- `src/discord/types.rs`: the Discord objects and the reply constructors.
- `src/discord/verification.rs`: Ed25519 request authentication, with the
  hexadecimal decoding (`src/discord/hex_codec.rs`) and the key and signature
  checks (`src/discord/ed25519.rs`) that it rests on.
- `src/lambda_invoker.rs`: which Lambda function handles an interaction, and
  how the function's reply is read.
- `src/handler.rs`: the decisions of the HTTP entry point, from authentication
  to the response.
- `src/json.rs`, `src/text.rs`: the JSON and text routines that the library
  calls.
- `app/`: the Lambda runtime, the AWS client, serde forms of the Discord
  objects and the orchestration of the entry point.
