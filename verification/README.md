# fc-platform (verified core)

The decision logic of the FlowCatalyst platform API, written in Verus: every
function in `src/` carries a contract and is proved against it.

- `oauth`, `pkce`, `redirect` — the OAuth2 authorization server: authorization
  requests, redirect-URI whitelisting with `*` host labels, code redemption,
  client authentication, refresh and client-credentials grants, userinfo and
  introspection answers, each grant's checks in order and the tokens it
  issues.
- `federation`, `id_token` — login through external OpenID Connect providers:
  domain checks, provider endpoints, authorization URLs, callback checks,
  ID-token key selection, the checks handed to the signature verification,
  the claims of a verified token, interaction logins, logout redirects.
- `process`, `process_api` — process documents: codes, create / update /
  archive rules and the sync from code or the API.
- `oauth_clients`, `provisioning` — OAuth client administration and the
  credentials provisioned for applications.
- `access`, `client`, `event_type`, `dispatch_pool`, `audit`, `openapi_spec` —
  client scoping and list filters of the admin and messaging APIs, event
  deduplication, and the dispatch jobs a create request makes.
- `laws` — properties that relate several functions.
- `text`, `encoding`, `errors` — string, encoding and error helpers.

The remaining modules hold the request and response records of the API.
Calls into `base64`, `sha2`, `urlencoding`, `rand`, `regex`, `serde_json`,
`chrono` and `jsonwebtoken` stand behind small trusted wrappers whose
contracts say what those crates do.

`app/` holds the JSON wire forms of the records (with `serde`) and the
conversions between JSON values and the bytes the library reads.
