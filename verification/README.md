# manini

A reverse proxy for a service on ECS that is started when a request arrives and
stopped when no request has come for a while. While the service starts, a browser
is shown a page that asks it to wait; every other request waits for the service.
WebSocket connections are passed through.

## Layout

- `src/` is the library. It makes every decision and is verified with Verus. It
  performs no input or output: each procedure takes the event that answers its last
  action, and returns the next action.
  - `ecs_service_scaler` is the worker that starts and stops the service, and the
    requests that wait for it; `ecs` reads what ECS and EC2 answer.
  - `proxy_service` is the course of a request; `headers`, `uri`, `address` and
    `text` are what it is made of.
  - `service_scaler` is a smaller scaler that only knows an address or none.
  - `scaler_laws` and `proxy_laws` state what holds of every run.
- `app/` is the program: the command line, the listener, the calls of ECS and EC2,
  and the HTTP client.
- `tests/` runs the library on concrete values.

## Usage

```
manini --cluster your-cluster --service your-service --target-port 3000
```

| Argument | Environment | Meaning |
| --- | --- | --- |
| `--cluster` | `MANINI_CLUSTER` | The cluster; the default cluster if it is left out |
| `--service` | `MANINI_SERVICE` | The service |
| `--target-port` | `MANINI_TARGET_PORT` | The port of the container |
| `--public-ip` | `MANINI_PUBLIC_IP` | Reach the service at its public address |
| `--scale_down_period` | `MANINI_SCALE_DOWN_PERIOD` | Seconds without a request until the service is stopped, 300 by default |
| `--bind` | `MANINI_BIND` | The address to listen on, 0.0.0.0:3000 by default |

The tasks of the service need the network mode `awsvpc` and a health check.
