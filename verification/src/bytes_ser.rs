//! Serialisation of a model to XML bytes, written into a byte vector by the
//! event writer of `xml-rs`.

use vstd::prelude::*;
use vstd::std_specs::convert::IntoSpec;

pub use xml;
use xml::writer::XmlEvent;
use xml::{EmitterConfig, EventWriter};

use crate::emitter_options::{
    configured_options, default_emitter_options, inner_options, EmitterOptions,
};

verus! {

#[verifier::external_type_specification]
#[verifier::external_body]
#[verifier::reject_recursive_types(W)]
pub struct ExByteEventWriter<W>(EventWriter<W>);

#[verifier::external_type_specification]
#[verifier::external_body]
pub struct ExByteEmitterConfig(EmitterConfig);

#[verifier::external_type_specification]
#[verifier::external_body]
pub struct ExByteXmlEvent<'a>(XmlEvent<'a>);

#[verifier::external_type_specification]
#[verifier::external_body]
pub struct ExByteEmitterError(xml::writer::Error);

/// The bytes that an xml-rs `EventWriter` over a byte vector holds in its sink.
pub uninterp spec fn written_bytes(writer: EventWriter<Vec<u8>>) -> Seq<u8>;

/// The options that an xml-rs `EventWriter` over a byte vector was made with.
pub uninterp spec fn byte_writer_options(writer: EventWriter<Vec<u8>>) -> EmitterOptions;

/// The public fields of an xml-rs `EmitterConfig`.
pub uninterp spec fn byte_emitter_options(config: EmitterConfig) -> EmitterOptions;

/// The writer that `EventWriter::new_with_config` makes from a sink holding
/// these bytes and a config with these options: the sink kept, and an emitter
/// that has written nothing.
pub uninterp spec fn fresh_byte_writer(sink: Seq<u8>, options: EmitterOptions) -> EventWriter<
    Vec<u8>,
>;

/// What `EventWriter::write` over a byte vector does with an event: whether it
/// is accepted, and the writer afterwards.
pub uninterp spec fn byte_event_written(writer: EventWriter<Vec<u8>>, event: XmlEvent) -> (
    bool,
    EventWriter<Vec<u8>>,
);

/// `EmitterConfig::new` of xml-rs: the default options, one constant per field.
#[verifier::external_body]
fn emitter_config_new() -> (r: EmitterConfig)
    ensures
        byte_emitter_options(r) == default_emitter_options(),
{
    EmitterConfig::new()
}

/// `EmitterConfig::cdata_to_characters` of xml-rs: assigns that field and
/// keeps the others.
#[verifier::external_body]
fn emitter_cdata_to_characters(config: EmitterConfig, value: bool) -> (r: EmitterConfig)
    ensures
        byte_emitter_options(r) == (EmitterOptions {
            cdata_to_characters: value,
            ..byte_emitter_options(config)
        }),
{
    config.cdata_to_characters(value)
}

/// `EmitterConfig::perform_indent` of xml-rs: assigns that field and keeps the
/// others.
#[verifier::external_body]
fn emitter_perform_indent(config: EmitterConfig, value: bool) -> (r: EmitterConfig)
    ensures
        byte_emitter_options(r) == (EmitterOptions {
            perform_indent: value,
            ..byte_emitter_options(config)
        }),
{
    config.perform_indent(value)
}

/// `EmitterConfig::write_document_declaration` of xml-rs: assigns that field
/// and keeps the others.
#[verifier::external_body]
fn emitter_write_document_declaration(config: EmitterConfig, value: bool) -> (r: EmitterConfig)
    ensures
        byte_emitter_options(r) == (EmitterOptions {
            write_document_declaration: value,
            ..byte_emitter_options(config)
        }),
{
    config.write_document_declaration(value)
}

/// `EmitterConfig::indent_string` of xml-rs: assigns the indent text (the
/// string, turned into a `Cow`) and keeps the other fields.
#[verifier::external_body]
fn emitter_indent_string(config: EmitterConfig, value: String) -> (r: EmitterConfig)
    ensures
        byte_emitter_options(r) == (EmitterOptions {
            indent_string: value@,
            ..byte_emitter_options(config)
        }),
{
    config.indent_string(value)
}

/// `EventWriter::new_with_config` of xml-rs: a writer that keeps `sink` as it
/// is, to append to it, and whose emitter keeps the given options and has
/// written nothing; it depends on the sink's bytes and the config's fields.
#[verifier::external_body]
fn event_writer_new_with_config(sink: Vec<u8>, config: EmitterConfig) -> (r: EventWriter<Vec<u8>>)
    ensures
        r == fresh_byte_writer(sink@, byte_emitter_options(config)),
        written_bytes(r) == sink@,
        byte_writer_options(r) == byte_emitter_options(config),
{
    EventWriter::new_with_config(sink, config)
}

/// `EventWriter::into_inner` of xml-rs: the sink, with everything written to it.
#[verifier::external_body]
fn event_writer_into_inner(writer: EventWriter<Vec<u8>>) -> (r: Vec<u8>)
    ensures
        r@ == written_bytes(writer),
{
    writer.into_inner()
}

/// `EventWriter::write` of xml-rs: emits one event by appending to the sink (a
/// byte vector is only ever appended to) and never changes the options.
/// Whether the event is accepted, and the writer afterwards, are
/// `byte_event_written` of the writer and the event: they depend on nothing
/// else.
#[verifier::external_body]
fn event_writer_write<'a>(writer: &mut EventWriter<Vec<u8>>, event: XmlEvent<'a>) -> (r: Result<
    (),
    xml::writer::Error,
>)
    ensures
        (r is Ok, *final(writer)) == byte_event_written(*old(writer), event),
        written_bytes(*old(writer)).is_prefix_of(written_bytes(*final(writer))),
        byte_writer_options(*final(writer)) == byte_writer_options(*old(writer)),
{
    writer.write(event)
}

/// `String::from_utf8` of std: the text that the bytes encode, where they are
/// UTF-8, and `None` where they are not.
#[verifier::external_body]
fn utf8_text(bytes: Vec<u8>) -> (r: Option<String>)
    ensures
        r is Some <==> vstd::utf8::valid_utf8(bytes@),
        r matches Some(s) ==> s@ == vstd::utf8::decode_utf8(bytes@),
{
    match String::from_utf8(bytes) {
        Ok(s) => Some(s),
        Err(_) => None,
    }
}

/// A model that writes itself as XML events through a [`Serializer`].
pub trait YaSerialize {
    /// The name of the model's type, as used in `xsi:type` attributes.
    fn name() -> &'static str;

    /// What writing `self` through a serializer in the state `before` gives:
    /// the outcome, and the serializer afterwards. Outside verified code it is
    /// defined by running `serialize` on `before`.
    spec fn serialize_spec(&self, before: Serializer) -> (Result<(), String>, Serializer);

    /// Writes the model through `writer`; `Err` carries the reason it could
    /// not. The outcome and the serializer afterwards are those of
    /// `serialize_spec` for the serializer handed over.
    fn serialize(&self, writer: &mut Serializer) -> (r: Result<(), String>)
        ensures
            (r, *final(writer)) == self.serialize_spec(*old(writer)),
    ;
}

/// Formatting options of the XML text.
pub struct Config {
    /// Whether nested elements are put on lines of their own and indented.
    pub perform_indent: bool,
    /// Whether the text opens with an XML declaration.
    pub write_document_declaration: bool,
    /// The text of one level of indentation, where the writer's default is not wanted.
    pub indent_string: Option<String>,
}

impl Default for Config {
    /// Plain XML: not indented, with a declaration, with the writer's own
    /// indentation.
    fn default() -> (c: Self)
        ensures
            !c.perform_indent,
            c.write_document_declaration,
            c.indent_string is None,
    {
        Config { perform_indent: false, write_document_declaration: true, indent_string: None }
    }
}

/// The text of an optional string.
pub open spec fn opt_text(o: Option<String>) -> Option<Seq<char>> {
    match o {
        Some(s) => Some(s@),
        None => None,
    }
}

/// The emitter options of a serializer made from `config`.
pub open spec fn config_options(config: Config) -> EmitterOptions {
    configured_options(
        config.perform_indent,
        config.write_document_declaration,
        opt_text(config.indent_string),
    )
}

/// The emitter options of the plain formatting of `Config::default`: not
/// indented, with a declaration, with the default indent text.
pub open spec fn default_config_options() -> EmitterOptions {
    configured_options(false, true, None)
}

/// A result of bytes as plain values.
pub open spec fn result_bytes(r: Result<Vec<u8>, String>) -> Result<Seq<u8>, Seq<char>> {
    match r {
        Ok(b) => Ok(b@),
        Err(m) => Err(m@),
    }
}

/// A result of text as plain values.
pub open spec fn result_text(r: Result<String, String>) -> Result<Seq<char>, Seq<char>> {
    match r {
        Ok(s) => Ok(s@),
        Err(m) => Err(m@),
    }
}

/// The text of bytes: what they encode where they are UTF-8, and otherwise the
/// message `Found invalid UTF-8`.
pub open spec fn text_of_bytes(bytes: Seq<u8>) -> Result<Seq<char>, Seq<char>> {
    if vstd::utf8::valid_utf8(bytes) {
        Ok(vstd::utf8::decode_utf8(bytes))
    } else {
        Err("Found invalid UTF-8"@)
    }
}

/// A serialisation result turned into text, errors passed on unchanged.
pub open spec fn as_text(r: Result<Seq<u8>, Seq<char>>) -> Result<Seq<char>, Seq<char>> {
    match r {
        Ok(b) => text_of_bytes(b),
        Err(msg) => Err(msg),
    }
}

/// What serialising `model` through the serializer `start` gives: the sink of
/// the serializer afterwards where the model succeeds, its message where not.
pub open spec fn serialized_by<T: YaSerialize>(model: T, start: Serializer) -> Result<
    Seq<u8>,
    Seq<char>,
> {
    let outcome = model.serialize_spec(start);
    match outcome.0 {
        Ok(_) => Ok(outcome.1.bytes()),
        Err(msg) => Err(msg@),
    }
}

/// Law: the formatting of a `Config` equal to `Config::default` is that of
/// `to_string`, so serialising with it gives what `to_string` gives.
pub proof fn default_config_is_to_string_formatting<T: YaSerialize>(
    model: T,
    sink: Seq<u8>,
    config: Config,
)
    requires
        !config.perform_indent,
        config.write_document_declaration,
        config.indent_string is None,
    ensures
        config_options(config) == default_config_options(),
        serialized_by(model, Serializer::fresh(false, sink, config_options(config)))
            == serialized_by(model, Serializer::fresh(false, sink, default_config_options())),
{
}

/// Law: a serializer made from a config writes with the formatting the
/// config asks for, each setting on its own: indentation as
/// `perform_indent`, a declaration as `write_document_declaration` (whatever
/// the indentation), the given indent text or else two spaces, and CDATA
/// always turned into character data; the other options are the emitter's
/// defaults.
pub proof fn config_options_follow_the_config(c: Config)
    ensures
        config_options(c).perform_indent == c.perform_indent,
        config_options(c).write_document_declaration == c.write_document_declaration,
        config_options(c).cdata_to_characters,
        c.indent_string matches Some(t) ==> config_options(c).indent_string == t@,
        c.indent_string is None ==> config_options(c).indent_string == seq![' ', ' '],
        config_options(c).line_separator == seq!['\n'],
        config_options(c).perform_escaping,
        config_options(c).normalize_empty_elements,
        config_options(c).keep_element_names_stack,
        config_options(c).autopad_comments,
        config_options(c).pad_self_closing,
{
}

/// Law: the formatting of `to_string` is not indented, with a declaration, with the
/// default indent text of two spaces, CDATA turned into character data, and
/// the emitter's defaults otherwise.
pub proof fn default_formatting()
    ensures
        !default_config_options().perform_indent,
        default_config_options().write_document_declaration,
        default_config_options().cdata_to_characters,
        default_config_options().indent_string == seq![' ', ' '],
        default_config_options().line_separator == seq!['\n'],
        default_config_options().perform_escaping,
        default_config_options().normalize_empty_elements,
        default_config_options().keep_element_names_stack,
        default_config_options().autopad_comments,
        default_config_options().pad_self_closing,
{
}

/// Law: a serializer for inner content writes no declaration, does not
/// indent (so sibling elements follow each other with nothing between), and
/// keeps CDATA sections; the other options are the emitter's defaults.
pub proof fn inner_options_are_plain()
    ensures
        !inner_options().perform_indent,
        !inner_options().write_document_declaration,
        !inner_options().cdata_to_characters,
        inner_options().indent_string == seq![' ', ' '],
        inner_options().line_separator == seq!['\n'],
        inner_options().perform_escaping,
        inner_options().normalize_empty_elements,
        inner_options().keep_element_names_stack,
        inner_options().autopad_comments,
        inner_options().pad_self_closing,
{
}

/// The writer that models serialise through, with the state that nested
/// models consult.
pub struct Serializer {
    writer: EventWriter<Vec<u8>>,
    skip_start_end: bool,
    generic: bool,
    start_event_name: Option<String>,
}

impl Serializer {
    /// Whether the model should leave out its own start and end element.
    pub closed spec fn skips_start_end(&self) -> bool {
        self.skip_start_end
    }

    /// Whether a generic model is being written.
    pub closed spec fn is_generic(&self) -> bool {
        self.generic
    }

    /// The element name that a nested model should start with, if any.
    pub closed spec fn start_name(&self) -> Option<Seq<char>> {
        opt_text(self.start_event_name)
    }

    /// The event writer, with its options and the bytes written so far.
    pub closed spec fn output(&self) -> EventWriter<Vec<u8>> {
        self.writer
    }

    /// The bytes of the sink so far.
    pub closed spec fn bytes(&self) -> Seq<u8> {
        written_bytes(self.writer)
    }

    /// The options that the writer emits with.
    pub closed spec fn options(&self) -> EmitterOptions {
        byte_writer_options(self.writer)
    }

    /// A serializer in its initial state over `writer`: no flag set, no start
    /// name, and the writer's sink and options.
    pub open spec fn is_fresh_over(&self, writer: EventWriter<Vec<u8>>) -> bool {
        &&& self.output() == writer
        &&& self.bytes() == written_bytes(writer)
        &&& self.options() == byte_writer_options(writer)
        &&& !self.skips_start_end()
        &&& !self.is_generic()
        &&& self.start_name() is None
    }

    /// The serializer over a fresh writer with a sink holding `sink` and with
    /// `options`, with the skip flag as given, not generic, and no start name.
    pub closed spec fn fresh(skip: bool, sink: Seq<u8>, options: EmitterOptions) -> Serializer {
        Serializer {
            writer: fresh_byte_writer(sink, options),
            skip_start_end: skip,
            generic: false,
            start_event_name: None,
        }
    }

    /// A serializer whose sink holds `sink`, that writes with `options`, with
    /// the skip flag as given, not generic, and no start name.
    pub open spec fn starts_with(&self, skip: bool, sink: Seq<u8>, options: EmitterOptions) -> bool {
        &&& self.skips_start_end() == skip
        &&& !self.is_generic()
        &&& self.start_name() is None
        &&& self.bytes() == sink
        &&& self.options() == options
    }

    /// A serializer over `writer`, with no flag set and no start name.
    pub fn new(writer: EventWriter<Vec<u8>>) -> (s: Self)
        ensures
            s.is_fresh_over(writer),
    {
        Serializer { writer, generic: false, skip_start_end: false, start_event_name: None }
    }

    /// A serializer that appends to `writer`, whose emitter turns CDATA into
    /// character data and follows the indentation, declaration and indent
    /// text of `config`.
    pub fn new_from_writer(writer: Vec<u8>, config: &Config) -> (s: Self)
        ensures
            s == Serializer::fresh(false, writer@, config_options(*config)),
            s.starts_with(false, writer@, config_options(*config)),            s.options().perform_indent == config.perform_indent,
            s.options().write_document_declaration == config.write_document_declaration,
            s.options().cdata_to_characters,
            config.indent_string matches Some(t) ==> s.options().indent_string == t@,
            config.indent_string is None ==> s.options().indent_string == seq![' ', ' '],
            s.options().line_separator == seq!['\n'],
            s.options().perform_escaping,
            s.options().normalize_empty_elements,
            s.options().keep_element_names_stack,
            s.options().autopad_comments,
            s.options().pad_self_closing,
    {
        let emitter_config = emitter_config_new();
        let emitter_config = emitter_cdata_to_characters(emitter_config, true);
        let emitter_config = emitter_perform_indent(emitter_config, config.perform_indent);
        let mut emitter_config = emitter_write_document_declaration(
            emitter_config,
            config.write_document_declaration,
        );
        if let Some(indent_string_value) = &config.indent_string {
            emitter_config = emitter_indent_string(emitter_config, indent_string_value.clone());
        }
        Self::new(event_writer_new_with_config(writer, emitter_config))
    }

    /// A serializer for content inside a document, appending to `writer`: its
    /// emitter writes no declaration and otherwise keeps the default options.
    pub fn new_for_inner(writer: Vec<u8>) -> (s: Self)
        ensures
            s == Serializer::fresh(false, writer@, inner_options()),
            s.starts_with(false, writer@, inner_options()),            !s.options().perform_indent,
            !s.options().write_document_declaration,
            !s.options().cdata_to_characters,
            s.options().indent_string == seq![' ', ' '],
            s.options().line_separator == seq!['\n'],
            s.options().perform_escaping,
            s.options().normalize_empty_elements,
            s.options().keep_element_names_stack,
            s.options().autopad_comments,
            s.options().pad_self_closing,
    {
        let config = emitter_write_document_declaration(emitter_config_new(), false);
        Self::new(event_writer_new_with_config(writer, config))
    }

    /// The sink, with the bytes written.
    pub fn into_inner(self) -> (r: Vec<u8>)
        ensures
            r@ == self.bytes(),
    {
        event_writer_into_inner(self.writer)
    }

    /// Whether the model should leave out its own start and end element.
    pub fn skip_start_end(&self) -> (r: bool)
        ensures
            r == self.skips_start_end(),
    {
        self.skip_start_end
    }

    /// Whether a generic model is being written.
    pub fn generic(&self) -> (r: bool)
        ensures
            r == self.is_generic(),
    {
        self.generic
    }

    /// Sets whether the model should leave out its own start and end element.
    pub fn set_skip_start_end(&mut self, state: bool)
        ensures
            final(self).skips_start_end() == state,
            final(self).is_generic() == old(self).is_generic(),
            final(self).start_name() == old(self).start_name(),
            final(self).output() == old(self).output(),
            final(self).bytes() == old(self).bytes(),
            final(self).options() == old(self).options(),
    {
        self.skip_start_end = state;
    }

    /// The element name that a nested model should start with, if any.
    pub fn get_start_event_name(&self) -> (r: Option<String>)
        ensures
            opt_text(r) == self.start_name(),
    {
        match &self.start_event_name {
            Some(name) => Some(name.clone()),
            None => None,
        }
    }

    /// Sets the element name that a nested model should start with.
    pub fn set_start_event_name(&mut self, name: Option<String>)
        ensures
            final(self).start_name() == opt_text(name),
            final(self).skips_start_end() == old(self).skips_start_end(),
            final(self).is_generic() == old(self).is_generic(),
            final(self).output() == old(self).output(),
            final(self).bytes() == old(self).bytes(),
            final(self).options() == old(self).options(),
    {
        self.start_event_name = name;
    }

    /// Sets whether a generic model is being written.
    pub fn set_generic(&mut self, state: bool)
        ensures
            final(self).is_generic() == state,
            final(self).skips_start_end() == old(self).skips_start_end(),
            final(self).start_name() == old(self).start_name(),
            final(self).output() == old(self).output(),
            final(self).bytes() == old(self).bytes(),
            final(self).options() == old(self).options(),
    {
        self.generic = state;
    }

    /// Writes one XML event after the bytes written so far: the writer does
    /// with the event what `byte_event_written` says; the flags, the start
    /// name and the options stay as they were.
    pub fn write<'a, E: Into<XmlEvent<'a>>>(&mut self, event: E) -> (r: Result<
        (),
        xml::writer::Error,
    >)
        ensures
            E::obeys_into_spec() ==> (r is Ok, final(self).output()) == byte_event_written(
                old(self).output(),
                event.into_spec(),
            ),
            old(self).bytes().is_prefix_of(final(self).bytes()),
            final(self).options() == old(self).options(),
            final(self).skips_start_end() == old(self).skips_start_end(),
            final(self).is_generic() == old(self).is_generic(),
            final(self).start_name() == old(self).start_name(),
    {
        let ev: XmlEvent<'a> = event.into();
        event_writer_write(&mut self.writer, ev)
    }
}

/// What a serialisation gives, from what the model reported: the sink where it
/// succeeded, and its message unchanged where it failed.
pub fn finish(outcome: Result<(), String>, serializer: Serializer) -> (r: Result<Vec<u8>, String>)
    ensures
        r is Ok <==> outcome is Ok,
        r matches Ok(bytes) ==> bytes@ == serializer.bytes(),
        outcome matches Err(msg) ==> r == Err::<Vec<u8>, String>(msg),
{
    match outcome {
        Ok(()) => Ok(serializer.into_inner()),
        Err(msg) => Err(msg),
    }
}

/// The text of serialised bytes: the text they encode where they are UTF-8,
/// and otherwise the message `Found invalid UTF-8`.
pub fn into_text(bytes: Vec<u8>) -> (r: Result<String, String>)
    ensures
        r is Ok <==> vstd::utf8::valid_utf8(bytes@),
        r matches Ok(s) ==> s@ == vstd::utf8::decode_utf8(bytes@),
        r matches Err(msg) ==> msg@ == "Found invalid UTF-8"@,
        result_text(r) == text_of_bytes(bytes@),
{
    match utf8_text(bytes) {
        Some(s) => Ok(s),
        None => Err(String::from_str("Found invalid UTF-8")),
    }
}

/// Serialises `model` as plain XML with a declaration (`Config::default`):
/// what the model makes of a fresh serializer over an empty sink, as text.
pub fn to_string<T: YaSerialize>(model: &T) -> (r: Result<String, String>)
    ensures
        Serializer::fresh(false, Seq::<u8>::empty(), default_config_options())
            .starts_with(false, Seq::<u8>::empty(), default_config_options()),
        result_text(r) == as_text(serialized_by(
            *model,
            Serializer::fresh(false, Seq::<u8>::empty(), default_config_options()),
        )),
{
    let config = Config::default();
    assert(config_options(config) == default_config_options());
    let bytes = serialize_with_writer(model, Vec::new(), &config)?;
    into_text(bytes)
}

/// Serialises `model` with the formatting of `config`, as text.
pub fn to_string_with_config<T: YaSerialize>(model: &T, config: &Config) -> (r: Result<
    String,
    String,
>)
    ensures
        Serializer::fresh(false, Seq::<u8>::empty(), config_options(*config))
            .starts_with(false, Seq::<u8>::empty(), config_options(*config)),
        result_text(r) == as_text(serialized_by(
            *model,
            Serializer::fresh(false, Seq::<u8>::empty(), config_options(*config)),
        )),
{
    let bytes = serialize_with_writer(model, Vec::new(), config)?;
    into_text(bytes)
}

/// Serialises `model` through a fresh serializer that appends to `writer`,
/// made from `config`, and gives the sink back: the model is handed a
/// serializer whose sink holds `writer`, with no flag set, no start name and
/// the options of `config`, and its outcome is passed on.
pub fn serialize_with_writer<T: YaSerialize>(
    model: &T,
    writer: Vec<u8>,
    config: &Config,
) -> (r: Result<Vec<u8>, String>)
    ensures
        Serializer::fresh(false, writer@, config_options(*config))
            .starts_with(false, writer@, config_options(*config)),
        result_bytes(r) == serialized_by(
            *model,
            Serializer::fresh(false, writer@, config_options(*config)),
        ),
{
    let ghost sink = writer@;
    let mut serializer = Serializer::new_from_writer(writer, config);
    let ghost s0 = serializer;
    let outcome = model.serialize(&mut serializer);
    let r = finish(outcome, serializer);
    assert(s0 == Serializer::fresh(false, sink, config_options(*config)));
    r
}

/// Serialises the content of `model`, without its own start and end element,
/// as text.
pub fn to_string_content<T: YaSerialize>(model: &T) -> (r: Result<String, String>)
    ensures
        Serializer::fresh(true, Seq::<u8>::empty(), inner_options())
            .starts_with(true, Seq::<u8>::empty(), inner_options()),
        result_text(r) == as_text(serialized_by(
            *model,
            Serializer::fresh(true, Seq::<u8>::empty(), inner_options()),
        )),
{
    let bytes = serialize_with_writer_content(model, Vec::new())?;
    into_text(bytes)
}

/// Serialises the content of `model` through a serializer for inner content,
/// appending to `writer`, that tells the model to leave out its own start and
/// end element: the model is handed a serializer whose sink holds `writer`,
/// with the skip flag set, not generic, no start name and the inner options,
/// and its outcome is passed on.
pub fn serialize_with_writer_content<T: YaSerialize>(model: &T, writer: Vec<u8>) -> (r: Result<
    Vec<u8>,
    String,
>)
    ensures
        Serializer::fresh(true, writer@, inner_options())
            .starts_with(true, writer@, inner_options()),
        result_bytes(r) == serialized_by(*model, Serializer::fresh(true, writer@, inner_options())),
{
    let ghost sink = writer@;
    let mut serializer = Serializer::new_for_inner(writer);
    serializer.set_skip_start_end(true);
    let ghost s0 = serializer;
    let outcome = model.serialize(&mut serializer);
    let r = finish(outcome, serializer);
    assert(s0 == Serializer::fresh(true, sink, inner_options()));
    r
}

} // verus!
