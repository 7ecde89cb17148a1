# S3 Object-Lock (WORM) audit sink

An audit sink that stores every audit event as one immutable S3 object under
Object Lock.

- `src/` is the library, verified with Verus: the configuration rules and their
  defaults, object keys, the request made for each event, the meaning of every
  outcome, and the receipts. Its public proof functions, named `law_*`, state
  what holds of the library as a whole.
- `app/` wires the library to its host, to the JSON configuration and to S3.
- `tests/` runs the library on concrete values.

## Object layout

```
<prefix>events/<YYYY-MM-DD>/<event_id>.json
```

The date is the calendar day that the event's `occurred_at` begins with, or
`undated` where it begins with none; the event id is made safe for a key first.
So no text of an event adds a segment to its key. Each object carries the metadata
`mcpg-{event-id,action,outcome,sha256}`.

## Emitting an event

1. `S3WormAuditSink::begin_emit` takes the event and its serialized bytes and
   gives the `PutObject` request together with the hash of those bytes.
2. The caller sends the request.
3. `sink::finish_emit` takes the outcome and gives a receipt only if the write
   durably completed.

## What is trusted

`sha2::Sha256::digest`, `hex::encode`, `chrono::Utc::now` and `String::push` are
called through items whose contracts are believed without proof; each says what
it claims in its doc comment.
