# animus-transport-graphql

GraphQL transport backend for Animus. The library (`src/`, verified with
Verus) holds what the transport decides: the configuration and its
environment/start-request sources; for each GraphQL operation, the control
RPC it sends once the control session is open and what it answers for the
daemon's reply (including the projections of wire records onto GraphQL
records); the route table of the HTTP app and the bearer-token decision on
`/graphql`; the server-task bookkeeping of the backend; and the plugin
manifest. `app/` is the async-graphql schema, the axum server, the
control-socket client calls and the plugin entry point, all calling into the
library.
