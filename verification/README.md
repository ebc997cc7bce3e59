# mx002

A driver for the Bosto T608 graphics tablet on Linux, with its decisions
verified in Verus.

- Pen: position (turned by half a turn), pressure, touch, proximity.
- Stylus `+` pastes (Ctrl+V), stylus `-` undoes (Ctrl+Z), once per press.
- The scroll wheel scrolls, one notch per detent.

## Layout

- `src/` is the library. It does no I/O: it turns packets into lists of
  emissions, and says at each step of a USB exchange what to do next.
  - `packet`: the readings inside a raw packet.
  - `model`: what a packet calls for, as mathematics.
  - `dispatcher`: the code that computes it, proved against `model`.
  - `laws`: what follows for users of the driver: one notch per press, modifiers
    held around a notch, nothing emitted that is not advertised, and so on.
  - `history`: what holds over any series of packets and refusals: "in range" and
    "touches" go down and up in turn, and nothing is ever emitted that was not
    advertised at the start.
  - `outbox`: how far a round of emissions gets when a device refuses one.
  - `setup`, `attributes`: what the virtual devices advertise.
  - `usb`, `physical_device`, `session`: finding, claiming and reading the
    tablet, and starting over when it goes away.
  - `debug`: a packet's bytes as text.
- `app/` performs the I/O, through `evdev` and `rusb`.
- `tests/` runs the library on concrete packets.

A packet is handled in two steps. `DeviceDispatcher::preview` says what it
emits; the caller emits that, and notes how many emissions the devices took.
`DeviceDispatcher::dispatch`, with an outbox that takes as many, then brings the
driver's memory up to date. The pulse of a barrel button comes first and does not
depend on the clock, so the clock can be read once it is out.

The only code that is believed rather than proved is in `attributes`: six
functions around `evdev::AttributeSet`.

The orientation is fixed in the source: by the two lines of
`raw_pen_abs_to_pen_abs_events` in `dispatcher` that set `x` and `y`, and by
`rotated` in `model`, which the contracts apply to both axes. To leave the tablet
unturned, change those. To flip one axis alone, or to turn the tablet by a
quarter, change also the places that apply `rotated`: `pen_run` and
`memory_after_pen` in `model`, and the contract of that function. In each case
the laws on positions, in `laws`, have to follow.

Set `MX002_DEBUG=1` to have the first bytes of every packet printed.
