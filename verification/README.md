# common

A notification service for Harbor image scans. Harbor posts a webhook when an
artifact is pushed, pulled or scanned; the service reports findings to a WeChat
work group robot and, for finished scans, files a GitHub issue that the message
links to. It also checks the settings of the Trivy scanner service.

Layout:

- `src/` is the verified library (Verus):
  - `webhook.rs`: the push handler as a step function from stage and answer
    to next stage and request, the message and issue texts;
  - `pkg/github/issues.rs`: GitHub request addresses and headers, the paged
    issue listing, and the store of known issue titles that keeps a finding
    from being filed twice;
  - `pkg/etc/checker.rs`: the settings check as a step function over file
    system answers, with a proof that a run ends in the stated verdict;
  - `pkg/http/request.rs`: whether an outgoing request's method and address
    can be used, checked before anything is sent;
  - `pkg/etc/config.rs`, `pkg/etc/errors.rs`, `config.rs`, `pkg/model/`: the
    settings and the message formats;
  - `text.rs`: decimal text.
- `app/` is the server: Rocket routes, HTTP clients, serde copies of the data
  types, file system access, Kubernetes restarts and the Trivy report format.
- `tests/` runs the library on concrete values.
