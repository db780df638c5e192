# Kubernetes device plugin for PKCS#11 devices

A Kubernetes device plugin that gives pods access to HSMs. `p11-kit` forwards PKCS#11 calls
through a Unix socket across the container boundary.

`src/` is the verified library (Verus): what the plugin decides and answers, on plain values.

| module         | what it holds |
|----------------|---------------|
| `device_id`    | UUIDs, their texts, and the calls into the `uuid` crate |
| `messages`     | the messages of the device plugin protocol and their views |
| `naming`       | resource names, socket paths and device files |
| `state`        | the configuration and the state of an HSM type |
| `plugin`       | the answers to the kubelet's calls |
| `watch`        | the stream of device lists |
| `registration` | when and with what to register at the kubelet |
| `supervisor`   | keeping the PKCS#11 server running |
| `serving`      | taking turns at serving the HSM types |
| `uds`          | connectors to Unix domain sockets |

`app/` is the program around it: configuration file, sockets, processes and gRPC. `tests/` runs the
library.

## Example configuration

```yaml
p11_kit_binary: /usr/bin/p11-kit
hsm_types:
  - name: test
    tokens:
      - "pkcs11:model=YubiKey%20YK5"
    max_clients: 10
    provider: /usr/lib/x86_64-linux-gnu/libykcs11.so
```

Kubernetes knows this HSM type as `hsm.as207960.net/test` and may give it to ten pods at once. A pod
that has it finds the `p11-kit` server at `/dev/pkcs11-test`, and the environment variable
`P11_KIT_SERVER_ADDRESS` says so to `p11-kit-client.so`.
