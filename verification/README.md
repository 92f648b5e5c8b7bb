# astrid-capsule-registry

The LLM provider registry of a capsule system, verified with Verus.

The registry discovers which LLM provider capsules are loaded, keeps the list of
providers and the active model in the capsule's key-value store, answers queries
about them over IPC, and lets the user switch models with `/models`.

| Topic | |
|---|---|
| `registry.v1.get_providers` | query: the provider list |
| `registry.v1.get_active_model` | query: the active provider |
| `registry.v1.set_active_model` | command: make a model active, by its ID |
| `registry.v1.active_model_changed` | event: a provider has become the active one |
| `registry.v1.response.*` | responses |

## Layout

`src/` holds the registry's logic, all of it verified.

- `json`: JSON documents. Text is read and written by `serde_json`, behind trusted
  functions with stated contracts; everything else is proved.
- `text`: words and decimal numbers.
- `provider`, `codec`, `storage`: provider entries, the stored state, and their JSON
  form.
- `discovery`: what the provider capsules' answers describe.
- `envelope`: what arriving messages ask for.
- `notice`: what the registry publishes.
- `handlers`: what the registry does about each request.
- `registry`: the run as a machine. The host performs `Registry::action` and hands
  what came of it to `Registry::step`.
- `logs`: what the registry logs.
- `laws`, `run_laws`, `trace_laws`, `reply_laws`: what holds of the registry as a
  whole, of each step of a run, of whole runs, and of the responses to an envelope.

`app/` is the capsule around it: it performs the actions with `astrid-sdk`, reads the
stored state with `serde`, and logs.
