# lyra-vega-dbus

Typed client of the `org.lyraos.Vega1` D-Bus contract served by `vegad`.

- `src/` is the verified library (Verus): the records each interface
  exchanges and their wire rows, the interfaces' errors with the catalog
  entry of each message and how its detail fills in, the
  client operations as traits, the wire contract of every interface with
  its introspection XML, and the decisions of the software session: which
  unique owner it binds to, in which order a subscription is set up, when a
  call may go ahead, which signals reach an event stream, and how the
  stream ends and bounds the wait for a transaction.
- `app/` holds the zbus side: proxies, connections, signal subscriptions,
  the awaiting loops, which hand what the bus answers to the library, and
  the gettext lookup of the messages' catalog entries.
- `tests/` exercises the library on concrete values.
