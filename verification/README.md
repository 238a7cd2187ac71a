# vss_config

Resolution of the VSS server's configuration, verified with Verus.

The server is configured by a TOML file and by environment variables. Each
PostgreSQL setting and the JWT RSA key may come from either; the environment
wins where it sets a variable. A required setting that neither gives, a
variable that cannot be read, or an address variable that names no socket
address is an error with a fixed message.

- `src/settings.rs`: the file's tables, the environment's lookups, the
  resolved configuration, and their models.
- `src/resolve.rs`: the model of resolution (`resolved`, `loaded`) and the
  verified code that computes it (`build_configuration`, `load_configuration`
  and their parts).
- `src/laws.rs`: properties of resolution proved for every file and every
  environment.
- `app/lib.rs`: reads the file and the environment, parses the TOML and the
  socket addresses, and hands the values to the library.
