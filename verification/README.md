# txio_api

The storage layer of the txio API, split in two:

- `src/` is a Verus-verified library holding every decision the MongoDB
  repositories make: the documents and errors as plain values (`model`,
  `error`), the index definitions and the ordered set-up of the OTP indexes
  (`indexes`), the OTP cooldown, the reading of the upsert reply and the
  removal of duplicate OTPs (`otp`), how lookups, deletions and updates turn
  the server's reply into a result (`outcome`), the RPC log queries
  (`queries`), the stable creation-time order of workspaces (`workspace`) and
  the admin route table (`routes`).
- `app/` holds the async repositories that talk to MongoDB through the
  driver, the serde forms of the documents, and the axum admin router.
