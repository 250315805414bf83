# dpab_appsanity

The distributor platform gateway of a Firebolt device: privacy settings and
user grants at the privacy settings service, permissions, account links,
behavioral metrics, the application catalog, and the cloud synchronisation and
monitoring of settings.

`src/` is the verified library. Each module holds the data and decisions of
one part of the gateway, with contracts checked by Verus:

- `config`, `defaults`: the gateway settings and their lookups.
- `gateway_state`: the state that the synchronisation listeners share, as a
  function from state and request to state and reply, with its laws.
- `privacy`, `privacy_service`: privacy settings, user grants and exclusions,
  the calls to the privacy settings service and the reading of its replies.
- `permission`: capability and method checks against the registered
  permissions, and the retry of the permission service.
- `account_link`, `xvp`: the requests of the session, playback and video services.
- `metrics`, `sift`: behavioral metrics in the collector's form, the send
  queue and the batches.
- `catalog`, `sync`, `sync_settings`, `resolver`, `storage`, `governance`:
  catalog polling, synchronisation settings and monitor decisions, request
  routing, secure storage requests, the opt-out channel.
- `json`, `text`, `text_map`, `urls`, `times`: text and map helpers, and the
  trusted calls into `serde_json`, `url` and `chrono`.

`app/` holds what the library leaves to its caller: parsing JSON into library
values, the HTTP calls, the gateway state task, files and timers.
