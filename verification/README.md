# liana_gui

The decisions behind the screens of the Liana wallet installer, verified with
Verus: for each screen, which parts appear, which buttons can be pressed and
the texts that depend on the installer's state.

- `src/duration.rs`: a timelock in blocks as years, months, days, hours and minutes.
- `src/text.rs`: decimal and hexadecimal rendering, and the parsing of a block count.
- `src/network.rs`: the networks of the picker and their names.
- `src/threshold.rs`: the threshold picker of a spending path.
- `src/hw.rs`: signing devices and how a device list shows each of them.
- `src/screens/`: one function per installer screen, returning what it shows.
- `src/message.rs`: the messages of the wallet application's panels.
- `app/`: the screens drawn with iced, from what `src/` decides.
