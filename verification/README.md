# llama_chat

The chat-template layer of a llama.cpp binding, split in two:

- `src/` is a Verus-verified library. It holds the chat data model
  (messages, tool calls, content parts, tools, template inputs and results,
  parse syntax, message diffs) and every decision taken at the C boundary:
  which strings can become C strings and where the first NUL byte stops the
  conversion, which numeric code stands for each enum variant, and how C
  strings that are null or not UTF-8 are read back. The C side's values are
  modelled as plain bytes (`Raw*` types), so each conversion has an exact
  contract. `laws.rs` proves that a message written to the C form and read
  back is unchanged, that format codes round-trip, and when a conversion
  succeeds.
- `app/` holds the calls into the C interface (`llama-cpp-sys-2`): it moves
  bytes in and out of C memory and hands them to the library.

Modules: `text` (C strings, NUL checks, UTF-8), `codes` (enums and their C
codes), `message`, `template`, `syntax`, `diff`, `error`, `laws`.
