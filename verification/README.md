# domain

The domain model of a user-account and authorization service, verified with
Verus.

- `user`: users, their e-mail addresses, passwords, roles and states, the
  life cycle of an account (verification, suspension, deactivation and their
  undoing), the events each change records, and the factory and uniqueness
  checks for new users.
- `auth`: the authorization policies for actions on users and the service
  that applies them.
- `shared`: domain events and the transactional outbox: outbox events, their
  delivery status with retries, and how stored events are rebuilt.
- `infrastructure`: time-ordered identifiers (version 7 UUIDs), Argon2
  password hashing, the backoff decision for failed deliveries, and the
  tracker that collects the events of a unit of work.
- `relay`: the decisions of the worker that relays outbox events.
- `time`, `text`, `entity`: instants in UTC, string comparison, and identity
  of entities.

`app/` holds what stays outside the verified library: the system clock,
conversions to and from `chrono`, `uuid` and `opentelemetry` types, the JSON
form of domain events, the floating-point backoff calculator and the relay
worker's loop on `tokio`.
