# iface-ddns

Keeps Amazon Route53 A/AAAA records pointing at the current address of a
local network interface, read either from the interface itself or from a
web service queried through it.

- `src/` is the verified library: the configuration model, its defaults
  and checks (`config`), the choice of an interface address and the
  checks on a web answer (`resolve`), the reading of a Route53 listing and
  the decision to create, replace or leave a record (`dns`), the error
  type (`error`) and the text operations these need (`text`).
- `app/` is the daemon around it: command line, logging, file reading and
  TOML parsing, interface enumeration, HTTP and Route53 calls, retries
  and the update loop.
