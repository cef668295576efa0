# Soundboard TUI

A terminal soundboard for Linux. It sends sounds to a PipeWire virtual microphone, so that people
in a voice call hear them, and can play them through the local output too.

- `src/` is the library: the sound library, the audio setup, playback, the picker, the editor, the
  keys and what the screens show. It is verified with Verus. Work that it cannot do itself (files,
  processes, sockets, the terminal) it asks for: as requests of a run (an import, the installation
  or removal of the managed mix, playing a sound), or as the `Action` that a key leads to. What came
  of the work is handed back to it.
- `app/` is the program around it: the terminal, the event loop, the layout of the screens, files,
  processes and sockets.
- `tests/` runs the library.

## The library

| Module | What it holds |
| --- | --- |
| `text`, `order`, `path`, `json`, `failure`, `key` | texts, sorting, paths, JSON documents, failures, keys |
| `audio`, `command` | PipeWire's nodes and diagnostics, the managed configuration, commands |
| `mix` | installing and removing the managed mix |
| `library` | sounds, settings, what is stored of them, imports and deletions |
| `player`, `playback` | mpv's commands and replies, playing a sound |
| `picker`, `editor`, `setup` | the picker for files, the editor of metadata, the audio setup |
| `app`, `pads`, `dialog`, `wizard`, `controls` | the state of the soundboard and what the keys do |
| `screen`, `board` | what is shown |
