# wayle

The decision logic of the wayle desktop shell, written in Verus and proved
against its contracts.

- `src/` holds the verified library: the IWD Wi-Fi model (connection states,
  security types, signal buckets, the station's monitoring and connect state
  machine with its staged passphrases, the ordered network list, the
  service's station tracking), the network list and active
  connection cards, the bar's Wi-Fi and Mullvad modules, audio stream and
  device icons, the tray menu's layout and keyboard navigation, the surface
  coordinator and scrim, dropdown placement and registry, and notification
  cards.
- `tests/` exercises the library on concrete values.
- `app/` is the unverified shell around it: the IWD connect flow, refreshes
  and property monitor over the system bus (driving the library's state),
  D-Bus replies turned into plain values, error display text, clock reads and the pixel arithmetic that needs
  floating point.
