# cp-probe

The decisions of a host transparency agent: what a reading from the operating system means, which
signal reports it, and how honest a sample is about what it could not see. The library is written in
Verus and makes no OS calls; `app/` is the Windows process around it.

| | Signal | Module |
|---|---|---|
| S1 | Running processes | `process` |
| S2 | Code signature | `signature` |
| S3 | Microphone owner | `audio` |
| S5 | Capture-excluded windows | `affinity` |
| S6 | Foreground window | `foreground` |

`scan` puts one sample together from the readings of all probes, `capability` one coverage report,
and `serve` answers the supervisor's commands. `envelope`, `detail` and `coverage` are the message
types, each with a view that its contracts speak of and a JSON value that it is on the wire.

What is proved of all inputs stands beside what it is about, in functions whose names begin with
`law_`. Among them: no signal is of tier 1; a hash or a signer needs a readable image; a sample is
complete exactly when every probe ran; a probe that failed never reads as full coverage; a session on
a playback endpoint never claims the microphone; every command gets an answer with its id.

What the library takes on trust: `chrono` for the clock and for the text of a date, `uuid` for the
text of an identifier, `sha2` and `hmac` for digests, and three functions of the standard library.
Each stands behind one small function whose comment says what is claimed of it.

`app/` walks windows, processes, audio sessions and images through Win32 and COM, and hands the
library what each call gave. It enumerates audio sessions and never opens a capture stream. `extras/deny_capture_apis.sh`
fails if the name of a capture entry point appears in `src/` or `app/`.
