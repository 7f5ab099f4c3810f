# Headmaster

Headmaster is a Kubernetes operator that runs headscale servers and puts
Services and Ingresses on their tailnets through Tailscale proxies.

- `src/` is the verified library, proved with
  [Verus](https://github.com/verus-lang/verus): how Services and instances are
  reconciled, what the resources of a userspace proxy hold, and what it serves
  and forwards. It says, from the replies so far, what to do next.
- `app/` talks to the Kubernetes API and to headscale. Each of its loops hands
  the replies to a function of the library and does what that asks for. Its
  trait `Platform` stands for what is neither decided nor built here: labels and
  owners of child objects, the StatefulSet of a kernel proxy, the child
  resources of an instance, and the upkeep of its ACL policy, its SCIM
  deployment, its API key and its status.
- `tests/` runs the library on concrete values.

## The library

| Module | What it decides |
| --- | --- |
| `names` | names of the resources of a proxy |
| `annotations` | the config annotation and which deployment it means |
| `auth_key` | making and rotating pre-auth keys |
| `support` | connecting to headscale, moving proxies, taking them down |
| `resources`, `workload` | the resources of a proxy |
| `serve`, `forwards` | what a proxy serves |
| `provision`, `external_service`, `expose` | the reconciliation of Services |
| `headscale_instance`, `instance` | the reconciliation of instances |
| `dns` | in-cluster DNS for tailnet egress |
| `objects`, `json`, `textmap`, `text`, `sort`, `step`, `error`, `context` | data that the others share |

A reconciliation is a function from what is known to a step: notices to publish
and one action. What is known is a record with a field for each reply; an action
asks for a field that is not filled yet, so every run comes to an end.
