#!/bin/sh
# Fails if an entry point that acquires an audio capture stream is named in src/ or app/.
#
# Enumerating audio sessions does not trip the Windows microphone consent prompt; opening a capture
# stream does. A crude search, deliberately: it catches the one mistake whose cost is paid in front
# of a candidate. Comment lines describe what must not be called and are skipped.

cd "$(dirname "$0")/.." || exit 2

denied='IAudioClient|IAudioCaptureClient|ActivateAudioInterfaceAsync|waveInOpen|waveInStart'
denied="$denied|MediaCapture|AudioRecord|CaptureDevice"

findings=$(grep -rnE --include='*.rs' "$denied" src app | grep -vE '^[^:]*:[0-9]+:[[:space:]]*//')
if [ -n "$findings" ]; then
    echo "A capture entry point is named; sessions are enumerated, never opened:" >&2
    echo "$findings" >&2
    exit 1
fi
