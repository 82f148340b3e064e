# discord_voice

The logic of a Discord gateway connection that reconnects by itself and that voice channels hang
off, verified with [Verus](https://github.com/verus-lang/verus).

The library in `src/` decides and touches neither sockets nor the ends of channels: an operation
returns what is to be done next, and a further method takes what came of it.

| module | what it holds |
| --- | --- |
| `poll`, `error`, `model`, `session` | plain types |
| `state_update_sink` | a sink that folds items into a state and passes on the latest version |
| `channel` | the making of bounded channels with `futures::sync::mpsc` |
| `voice_internal` | the state of a voice channel, and the notices that change it |
| `voice_commands` | how commands of voice channels get to the gateway |
| `reconnector` | a connection that is put up again whenever it is lost |
| `connection` | the connection as a whole |
| `connection_laws` | what holds of connections in every state |

Functions named `law_*` are theorems about the library as a whole.

`app/` runs the library on `futures` 0.1: it polls what the library asks for and reports back.
A gateway connection is anything that its `Connector` can set up.
