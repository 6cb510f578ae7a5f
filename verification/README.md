# chat_service

A chat service: users register and sign in, receive a pair of JSON Web Tokens (access and
refresh), create rooms, post messages, and listen to a room's messages as server-sent events.

The library under `src/` holds the service's logic with Verus contracts:

- `text` – character-level helpers: ASCII words and joining, Unicode trimming, the `Bearer`
  prefix of an `Authorization` value, decimal numbers, JSON string escaping.
- `errors` – error responses (status code and message).
- `cors` – the CORS headers added to every response.
- `time` – timestamps and the `chrono` calls on them.
- `jwt` – token claims, their JSON, signing and reading tokens (`jsonwebtoken`), checking
  their expiry against a clock reading, token pairs.
- `auth`, `user` – sign-in and registration (`argon2` hashes).
- `room`, `message` – rooms, messages, and the steps of the message streams.
- `routes` – what the HTTP handlers decide once the database and the token have been read.
- `db`, `migration` – database address, creation, and the `message` table's schema.

`app/` is the Rocket server around it: HTTP routes, the database (sea-orm), the environment,
and serde copies of the library's types.
