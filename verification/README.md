# video_rs

The core of a video encoding library built on FFmpeg, written in Verus and
proved against its contracts.

`src/` is the verified library:

- `lib.rs`: FourCC tags (`mktag`) and the laws of their byte layout.
- `license.rs`: the FFmpeg library table and the "major.minor.micro"
  rendering of packed versions.
- `time.rs`: rationals and timestamps, their exact sum and difference, and
  their order.
- `subtitle.rs`: subtitle formats and cues, the data of subtitle packets
  (the mov_text length prefix) and the setup of subtitle streams.
- `tx3g.rs`: the tx3g sample description of mov_text tracks.
- `options.rs`: reader, codec and muxer option presets, as ordered
  assignments of an FFmpeg dictionary, and the dictionary they make (the last
  assignment to a key wins; keys ignore ASCII case).
- `encode.rs`: the encoder builder, encoder settings and presets, the
  parameters of the codec, and the encoder's bookkeeping: which frames it
  accepts, when the header and the trailer are written, which frames become
  keyframes, how long the codec is drained, and the subtitle packets with
  fillers for the gaps between subtitles.
- `bytes.rs`, `error.rs`: big-endian byte helpers and the encoder's errors.

`app/` holds the FFmpeg side: it opens outputs, scales and encodes frames and
muxes packets, doing what the verified core decides. It needs the system FFmpeg
libraries to build.
