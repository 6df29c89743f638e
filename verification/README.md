# jamodio

The agent of a networked music studio. It runs on the musician's machine, takes the sound of an
instrument and a voice from the audio interface, passes it through a plugin, sends it to the other
musicians and plays what they send. The page of the studio drives it over a WebSocket on the
loopback interface.

`src/` is the library: what the agent decides, with contracts that Verus proves. `app/` is the
program around it: sockets, threads, processes, files, JSON and arithmetic on samples.

| module of `src/` | what it holds |
| --- | --- |
| `access`, `connection`, `relaunch` | who may connect, who is served, how the agent leaves |
| `messages`, `dispatch`, `media_text` | the messages of the page and what becomes of each |
| `pipeline`, `capture_start`, `audio_open` | the session: devices, streams, plugin, recording |
| `liveness`, `perfstats` | supervision of the driver, measurements of a second |
| `stages`, `frames`, `channels`, `midi` | the way of a block from the device to the network |
| `recv_io`, `recv_activity`, `decode` | the way of a packet from the network to the mixer |
| `plugin`, `plugin_control`, `au_host` | the plugin slot and the native host's answers |
| `plugin_scan` | the scan in processes that may crash, and its cache |
| `asio_lab` | the bench for ASIO drivers |
| `timer_precision`, `tray_promote` | what only Windows asks for |
| `clock`, `float_bits`, `keyed`, `option_text`, `text` | what the others are built on |

Numbers with a fraction pass through the library as their bits; latencies are counted in samples.
