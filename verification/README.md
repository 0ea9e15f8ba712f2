# telex

A SIP (RFC 3261) server library: it reads requests, decides the answers,
and builds and writes the responses. The library under `src/` is verified
with Verus; `app/` holds the program around it (sockets, threads, logging).

Modules of the library:

- `text`, `number`, `unicode`: characters, trimming, decimal integers, and
  the Unicode data taken from outside code (case mapping, word characters).
- `header`, `header_map`, `method`, `status`, `error`: the vocabulary of SIP
  messages.
- `grammar`: the request line and header line forms.
- `parser`: reading a request step by step from the lines and bytes of a
  stream.
- `request`, `response`, `connection`: messages, the `Via` rewriting, and
  rendering to text.
- `handler`: what the server answers to each request.
