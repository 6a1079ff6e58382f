# wasm_audio

The verified core of a small system of WebAssembly audio plugins and their hosts.

`src/` is the library, proved with Verus:

- `text`: character-level `replace` (same results as `str::replace`) and text equality.
- `plugin`: parameter descriptions and the commands a parameter change sends to an engine.
- `sin`, `mul`, `tone`, `reverb`, `techno`: each plugin's parameter state, which keys set
  which parameter, what it offers its host, and (reverb, techno) the engine code made from
  a template.
- `blocks`: cutting a buffer into the 128-sample blocks an engine renders.
- `host`: frame counts, stereo layout of an output buffer, and decoding the parameter
  descriptions a plugin returns.

Samples and parameter values are single-precision numbers; the library keeps their bit
patterns and never computes with them. `app/` holds what computes on them (the plugins'
rendering, with glicol for reverb and techno) and the hosts, which run plugins with
wasmtime and play them with cpal.
