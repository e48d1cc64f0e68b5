# acme-distributor

A service that hands out TLS certificates to the machines that request them,
so that all certificates are acquired through one central server that keeps
the DNS and CA credentials. Certificates come from providers: acme.sh or
acme-lib (Let's Encrypt), a local certificate authority, or files on disk.
Clients fetch them over HTTP with a token, and renew when the server's
renewal hints say so.

## Layout

- `src/` is the library, verified with Verus. It holds the decisions of the
  service, each with a contract:
  - `issuance`: when a certificate is issued, renewed or deleted, which
    configuration serves a requested name, and the record stored for an
    issued certificate;
  - `routes`: what the HTTP endpoints answer, including whether a request
    is served from the stored certificate or by issuing one;
  - `auth`: token hashing, the token table, the client's address, address
    allow-lists and request authentication;
  - `challenge`: the store of ACME HTTP-01 challenge answers and their
    ten-minute lifetime;
  - `providers` and `ca`: command lines and environments for acme.sh, chain
    splitting, certificate expiry, and signing with a local CA (the subject,
    names and validity a leaf is signed with, and a check of the signed
    certificate against its key, the CA's key and its request);
  - `client`: the client's renewal rules and exit codes;
  - `certificate`, `config`, `types`, `error`: the data;
  - `strmap`, `text`, `json`, `domain`, `clock`: a string-keyed map that keeps
    insertion order, string helpers, and the calls into serde_json,
    glob-match and chrono.
  Public proof functions state the laws that hold across calls (what a
  challenge lookup gives after an insert, which certificates maintenance
  keeps, when the client renews).
- `app/` is the program around it: the Rocket server, the SQLite store,
  running acme.sh and acme-lib, file I/O, the YAML configuration and the
  client's command line and HTTP request.
- `tests/` exercises the library on concrete values.
