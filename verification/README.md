# congestion

Congestion controllers for a datagram transport, verified with Verus.

- `src/bbr2`: BBR version 2. The controller counts what is sent, acknowledged and lost, and
  decides when recovery begins and ends. The bandwidth estimate, the filter for early
  acknowledgements and the path model are traits.
- `src/copa`: Copa, with its three filters over round-trip times.
- `src/sprout`: Sprout, which forecasts the window from the rate of delivery.
- `src/scalar.rs`: the fractional arithmetic that the controllers compute with.
- `src/time.rs`: spans and points of time.
- `app`: the controllers behind the interface of a transport, on the system's clock and with
  double-precision arithmetic.

Each `laws.rs` states what holds over several calls or over all states.
