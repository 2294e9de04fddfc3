# lumibaer

Controller for a WS28xx LED strip driven over SPI and steered by MQTT.

- `src/` is the verified library: the strip's pixel buffer and its SPI
  encoding (`strip`), colours (`color`), text parsing (`text`), the state
  machines of the animations the program runs (`animation`), the switching of
  animations and the delivery of messages between frames (`scheduler`), and
  the routing of MQTT messages (`mqtt`).
- `src/rainbow_fade.rs` and `src/rainbow_chase.rs` hold variants of the fade
  and the chase that count hues in whole degrees; the program does not run
  them. The fade and chase it runs keep their hue in floating point and live in
  `app/`.
- `app/` is the program around it: the MQTT client, the SPI writer, the frame
  loop, the `Animation` trait over the shared strip, and everything computed in
  floating point (brightness, colour-wheel hues).
- `tests/` exercises the library on concrete values.
