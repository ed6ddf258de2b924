# nefoxide

Verified core of a macOS RAW developer for Nikon NEF files that renders through
Nikon's public Image SDK.

- `src/` (Verus): the SDK call protocol as step functions (library and session
  opening in the validated order, error attribution, closing), the C-string and
  fixed path fields handed to the SDK, re-applying the Picture Control,
  raw-development parameter gating and
  reading, the rendering steps (size check, whole-image request, 16-bit to
  8-bit sample narrowing), the repository and ICC profile paths, the NX-like
  JPEG export through `mozjpeg-rs` (file head stated byte for byte), the
  comparison tool's decoding through `image` and its pixel statistics, command-line parsing and all message
  texts.
- `app/`: the command-line program. It performs the `Nkfl_Entry` calls the
  library asks for (bindings generated with bindgen from the locally supplied
  `lib/NikonSDK/Include/Nkfl_Interface.h`, named by `NEFOXIDE_NKFL_BINDINGS` at
  build time), finds the repository from its manifest directory or from
  `NEFOXIDE_REPO_ROOT` set at build time, reads and writes files, and prints
  the floating-point averages.
- `tests/`: scenarios for every public function, including an exhaustive check
  of the integer orange-ish test against the single-precision formula.
