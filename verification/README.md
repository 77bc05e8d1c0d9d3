# netease_music_api

A server that answers like the NetEase Cloud Music web API by forwarding each
request to the service. The library in `src/` is verified with Verus:

- `text`, `query`, `json`: decimal numbers, parsing, searching, splitting,
  query strings (through `urlqstring`) and JSON objects (through `serde_json`).
- `album`, `account`, `comment`, `dj`, `music`, `playlist`, `social`, `user`,
  `video`: for each endpoint, the call of the service that its query string
  asks for, or none where a parameter it needs is missing or malformed.
- `params`: typed parameters and the JSON text each is sent as.
- `user_agent`, `request`, `crypto`: the headers, target and text of a
  request, and the encryption of its body (through OpenSSL).
- `laws`: properties across these functions, such as numbers and query
  strings reading back as they were written.

`app/` holds the HTTP server (actix-web) and the HTTP client (reqwest).
