# sepserde

Serialisation of IEEE 2030.5 (Smart Energy Profile 2.0) resources to XML,
verified with Verus.

- `src/ser.rs`: the serializer that models write through, over the event
  writer of `xml_no_std`, with the IEEE 2030.5 default formatting (indented,
  no XML declaration). The serializer's flags and start name are specified
  exactly; writing only ever appends to the text.
- `src/bytes_ser.rs`: the same serializer over a byte sink and the event
  writer of `xml-rs`, with plain formatting and a declaration by default.
- `src/emitter_options.rs`: the emitter options as plain values, the
  defaults of `EmitterConfig::new`, and the options each serializer asks for.
- `src/hex_binary.rs`: the `HexBinary8/16/32/64` types, written as zero-padded
  upper-case hexadecimal text of a fixed width and read back from hexadecimal
  text through `bitflags`' hex parser. The round trip and the canonical form
  are proved.

Models implement `YaSerialize` (one trait per serializer), whose
`serialize_spec` names the outcome of `serialize` on a given serializer. Each
serialise function states the serializer it hands the model and passes the
model's outcome on unchanged.
