# indy_cli

The ledger commands of the Indy command line, verified with Verus.

- `src/metadata.rs`: the metadata of a command (name, help, parameters).
- `src/ledger.rs`: the ledger commands: their metadata, the JSON data that
  the sending commands put on the ledger, and the reports that every
  command prints of the ledger's answer.
- `src/data.rs`: the data that the ledger answers with, and how it prints.
- `src/error.rs`: the Indy SDK's errors and their messages.
- `src/json.rs`: `serde_json`, as the commands use it.
- `src/text.rs`: decimal and `Debug` text.
- `app/`: the commands as the command line runs them: session, parameters,
  the calls into the Indy SDK, and the parsing of the ledger's replies.
