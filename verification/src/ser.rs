//! Serialisation of a model to XML text, written into a `String` by the
//! event writer of `xml_no_std`.

use vstd::prelude::*;
use vstd::std_specs::convert::IntoSpec;

pub use xml_no_std as xml;
use xml_no_std::writer::XmlEvent;
use xml_no_std::{EmitterConfig, EventWriter};

use crate::emitter_options::{
    configured_options, default_emitter_options, inner_options, EmitterOptions,
};

verus! {

#[verifier::external_type_specification]
#[verifier::external_body]
pub struct ExEventWriter(EventWriter);

#[verifier::external_type_specification]
#[verifier::external_body]
pub struct ExEmitterConfig(EmitterConfig);

#[verifier::external_type_specification]
#[verifier::external_body]
pub struct ExXmlEvent<'a>(XmlEvent<'a>);

#[verifier::external_type_specification]
#[verifier::external_body]
pub struct ExEmitterError(xml_no_std::writer::Error);

/// The text that an xml_no_std `EventWriter` holds in its output string.
pub uninterp spec fn written_text(writer: EventWriter) -> Seq<char>;

/// The options that an xml_no_std `EventWriter` was made with.
pub uninterp spec fn writer_options(writer: EventWriter) -> EmitterOptions;

/// The public fields of an xml_no_std `EmitterConfig`.
pub uninterp spec fn emitter_options(config: EmitterConfig) -> EmitterOptions;

/// The writer that `EventWriter::new_with_config` makes from a config with
/// these options: an empty output string and an emitter that has written
/// nothing.
pub uninterp spec fn fresh_writer(options: EmitterOptions) -> EventWriter;

/// What `EventWriter::write` does with an event: whether it is accepted, and
/// the writer afterwards.
pub uninterp spec fn event_written(writer: EventWriter, event: XmlEvent) -> (bool, EventWriter);

/// `EmitterConfig::new` of xml_no_std: the default options, one constant per
/// field.
#[verifier::external_body]
fn emitter_config_new() -> (r: EmitterConfig)
    ensures
        emitter_options(r) == default_emitter_options(),
{
    EmitterConfig::new()
}

/// `EmitterConfig::cdata_to_characters` of xml_no_std: assigns that field and
/// keeps the others.
#[verifier::external_body]
fn emitter_cdata_to_characters(config: EmitterConfig, value: bool) -> (r: EmitterConfig)
    ensures
        emitter_options(r) == (EmitterOptions {
            cdata_to_characters: value,
            ..emitter_options(config)
        }),
{
    config.cdata_to_characters(value)
}

/// `EmitterConfig::perform_indent` of xml_no_std: assigns that field and keeps
/// the others.
#[verifier::external_body]
fn emitter_perform_indent(config: EmitterConfig, value: bool) -> (r: EmitterConfig)
    ensures
        emitter_options(r) == (EmitterOptions { perform_indent: value, ..emitter_options(config) }),
{
    config.perform_indent(value)
}

/// `EmitterConfig::write_document_declaration` of xml_no_std: assigns that
/// field and keeps the others.
#[verifier::external_body]
fn emitter_write_document_declaration(config: EmitterConfig, value: bool) -> (r: EmitterConfig)
    ensures
        emitter_options(r) == (EmitterOptions {
            write_document_declaration: value,
            ..emitter_options(config)
        }),
{
    config.write_document_declaration(value)
}

/// `EmitterConfig::indent_string` of xml_no_std: assigns the indent text (the
/// string, turned into a `Cow`) and keeps the other fields.
#[verifier::external_body]
fn emitter_indent_string(config: EmitterConfig, value: String) -> (r: EmitterConfig)
    ensures
        emitter_options(r) == (EmitterOptions { indent_string: value@, ..emitter_options(config) }),
{
    config.indent_string(value)
}

/// `EventWriter::new_with_config` of xml_no_std: a writer whose output string
/// starts empty (`String::new()`), whose emitter keeps the given options and
/// has written nothing; it depends on the config's fields alone.
#[verifier::external_body]
fn event_writer_new_with_config(config: EmitterConfig) -> (r: EventWriter)
    ensures
        r == fresh_writer(emitter_options(config)),
        written_text(r) == Seq::<char>::empty(),
        writer_options(r) == emitter_options(config),
{
    EventWriter::new_with_config(config)
}

/// `EventWriter::into_inner` of xml_no_std: the output string, holding the
/// text written so far.
#[verifier::external_body]
fn event_writer_into_inner(writer: EventWriter) -> (r: String)
    ensures
        r@ == written_text(writer),
{
    writer.into_inner()
}

/// `EventWriter::write` of xml_no_std: emits one event by appending to the
/// output string, which the emitter never shortens, and never changes the
/// options. Whether the event is accepted, and the writer afterwards, are
/// `event_written` of the writer and the event: they depend on nothing else.
#[verifier::external_body]
fn event_writer_write<'a>(writer: &mut EventWriter, event: XmlEvent<'a>) -> (r: Result<
    (),
    xml_no_std::writer::Error,
>)
    ensures
        (r is Ok, *final(writer)) == event_written(*old(writer), event),
        written_text(*old(writer)).is_prefix_of(written_text(*final(writer))),
        writer_options(*final(writer)) == writer_options(*old(writer)),
{
    writer.write(event)
}

/// A model that writes itself as XML events through a [`Serializer`].
pub trait YaSerialize {
    /// The name of the model's type, as used in `xsi:type` attributes.
    fn name() -> &'static str;

    /// What writing `self` through a serializer in the state `before` gives:
    /// the outcome, and the serializer afterwards. Outside verified code it is
    /// defined by running `serialize` on `before`.
    spec fn serialize_spec(&self, before: Serializer) -> (Result<(), String>, Serializer);

    /// Writes the model through `writer`; `Err` carries the reason it could
    /// not. The outcome and the serializer afterwards are those of
    /// `serialize_spec` for the serializer handed over.
    fn serialize(&self, writer: &mut Serializer) -> (r: Result<(), String>)
        ensures
            (r, *final(writer)) == self.serialize_spec(*old(writer)),
    ;
}

/// Formatting options of the XML text.
pub struct Config {
    /// Whether nested elements are put on lines of their own and indented.
    pub perform_indent: bool,
    /// Whether the text opens with an XML declaration.
    pub write_document_declaration: bool,
    /// The text of one level of indentation, where the writer's default is not wanted.
    pub indent_string: Option<String>,
}

impl Default for Config {
    /// The IEEE 2030.5 formatting: indented, without a declaration, with the
    /// writer's own indentation.
    fn default() -> (c: Self)
        ensures
            c.perform_indent,
            !c.write_document_declaration,
            c.indent_string is None,
    {
        Config { perform_indent: true, write_document_declaration: false, indent_string: None }
    }
}

/// The text of an optional string.
pub open spec fn opt_text(o: Option<String>) -> Option<Seq<char>> {
    match o {
        Some(s) => Some(s@),
        None => None,
    }
}

/// The emitter options of a serializer made from `config`.
pub open spec fn config_options(config: Config) -> EmitterOptions {
    configured_options(
        config.perform_indent,
        config.write_document_declaration,
        opt_text(config.indent_string),
    )
}

/// The emitter options of the IEEE 2030.5 formatting of `Config::default`:
/// indented, without a declaration, with the default indent text.
pub open spec fn default_config_options() -> EmitterOptions {
    configured_options(true, false, None)
}

/// A result as text.
pub open spec fn result_text(r: Result<String, String>) -> Result<Seq<char>, Seq<char>> {
    match r {
        Ok(s) => Ok(s@),
        Err(m) => Err(m@),
    }
}

/// What serialising `model` through the serializer `start` gives: the text of
/// the serializer afterwards where the model succeeds, its message where not.
pub open spec fn serialized_by<T: YaSerialize>(model: T, start: Serializer) -> Result<
    Seq<char>,
    Seq<char>,
> {
    let outcome = model.serialize_spec(start);
    match outcome.0 {
        Ok(_) => Ok(outcome.1.text()),
        Err(msg) => Err(msg@),
    }
}

/// Law: the formatting of a `Config` equal to `Config::default` is that of
/// `to_string`, so serialising with it gives what `to_string` gives.
pub proof fn default_config_is_to_string_formatting<T: YaSerialize>(model: T, config: Config)
    requires
        config.perform_indent,
        !config.write_document_declaration,
        config.indent_string is None,
    ensures
        config_options(config) == default_config_options(),
        serialized_by(model, Serializer::fresh(false, config_options(config))) == serialized_by(
            model,
            Serializer::fresh(false, default_config_options()),
        ),
{
}

/// Law: a serializer made from a config writes with the formatting the
/// config asks for, each setting on its own: indentation as
/// `perform_indent`, a declaration as `write_document_declaration` (whatever
/// the indentation), the given indent text or else two spaces, and CDATA
/// always turned into character data; the other options are the emitter's
/// defaults.
pub proof fn config_options_follow_the_config(c: Config)
    ensures
        config_options(c).perform_indent == c.perform_indent,
        config_options(c).write_document_declaration == c.write_document_declaration,
        config_options(c).cdata_to_characters,
        c.indent_string matches Some(t) ==> config_options(c).indent_string == t@,
        c.indent_string is None ==> config_options(c).indent_string == seq![' ', ' '],
        config_options(c).line_separator == seq!['\n'],
        config_options(c).perform_escaping,
        config_options(c).normalize_empty_elements,
        config_options(c).keep_element_names_stack,
        config_options(c).autopad_comments,
        config_options(c).pad_self_closing,
{
}

/// Law: the formatting of `to_string` is indented, without a declaration, with the
/// default indent text of two spaces, CDATA turned into character data, and
/// the emitter's defaults otherwise.
pub proof fn default_formatting()
    ensures
        default_config_options().perform_indent,
        !default_config_options().write_document_declaration,
        default_config_options().cdata_to_characters,
        default_config_options().indent_string == seq![' ', ' '],
        default_config_options().line_separator == seq!['\n'],
        default_config_options().perform_escaping,
        default_config_options().normalize_empty_elements,
        default_config_options().keep_element_names_stack,
        default_config_options().autopad_comments,
        default_config_options().pad_self_closing,
{
}

/// Law: a serializer for inner content writes no declaration, does not
/// indent (so sibling elements follow each other with nothing between), and
/// keeps CDATA sections; the other options are the emitter's defaults.
pub proof fn inner_options_are_plain()
    ensures
        !inner_options().perform_indent,
        !inner_options().write_document_declaration,
        !inner_options().cdata_to_characters,
        inner_options().indent_string == seq![' ', ' '],
        inner_options().line_separator == seq!['\n'],
        inner_options().perform_escaping,
        inner_options().normalize_empty_elements,
        inner_options().keep_element_names_stack,
        inner_options().autopad_comments,
        inner_options().pad_self_closing,
{
}

/// The writer that models serialise through, with the state that nested
/// models consult.
pub struct Serializer {
    writer: EventWriter,
    skip_start_end: bool,
    generic: bool,
    start_event_name: Option<String>,
}

impl Serializer {
    /// Whether the model should leave out its own start and end element.
    pub closed spec fn skips_start_end(&self) -> bool {
        self.skip_start_end
    }

    /// Whether a generic model is being written.
    pub closed spec fn is_generic(&self) -> bool {
        self.generic
    }

    /// The element name that a nested model should start with, if any.
    pub closed spec fn start_name(&self) -> Option<Seq<char>> {
        opt_text(self.start_event_name)
    }

    /// The event writer, with its options and the text written so far.
    pub closed spec fn output(&self) -> EventWriter {
        self.writer
    }

    /// The text written so far.
    pub closed spec fn text(&self) -> Seq<char> {
        written_text(self.writer)
    }

    /// The options that the writer emits with.
    pub closed spec fn options(&self) -> EmitterOptions {
        writer_options(self.writer)
    }

    /// A serializer in its initial state over `writer`: no flag set, no start
    /// name, and the writer's text and options.
    pub open spec fn is_fresh_over(&self, writer: EventWriter) -> bool {
        &&& self.output() == writer
        &&& self.text() == written_text(writer)
        &&& self.options() == writer_options(writer)
        &&& !self.skips_start_end()
        &&& !self.is_generic()
        &&& self.start_name() is None
    }

    /// The serializer over a fresh writer with `options`, with the skip flag as
    /// given, not generic, and no start name.
    pub closed spec fn fresh(skip: bool, options: EmitterOptions) -> Serializer {
        Serializer {
            writer: fresh_writer(options),
            skip_start_end: skip,
            generic: false,
            start_event_name: None,
        }
    }

    /// A serializer with nothing written yet that writes with `options`, with
    /// the skip flag as given, not generic, and no start name.
    pub open spec fn starts_with(&self, skip: bool, options: EmitterOptions) -> bool {
        &&& self.skips_start_end() == skip
        &&& !self.is_generic()
        &&& self.start_name() is None
        &&& self.text() == Seq::<char>::empty()
        &&& self.options() == options
    }

    /// A serializer over `writer`, with no flag set and no start name.
    pub fn new(writer: EventWriter) -> (s: Self)
        ensures
            s.is_fresh_over(writer),
    {
        Serializer { writer, generic: false, skip_start_end: false, start_event_name: None }
    }

    /// A serializer whose writer turns CDATA into character data and follows
    /// the indentation, declaration and indent text of `config`.
    pub fn new_from_writer(config: &Config) -> (s: Self)
        ensures
            s == Serializer::fresh(false, config_options(*config)),
            s.starts_with(false, config_options(*config)),            s.options().perform_indent == config.perform_indent,
            s.options().write_document_declaration == config.write_document_declaration,
            s.options().cdata_to_characters,
            config.indent_string matches Some(t) ==> s.options().indent_string == t@,
            config.indent_string is None ==> s.options().indent_string == seq![' ', ' '],
            s.options().line_separator == seq!['\n'],
            s.options().perform_escaping,
            s.options().normalize_empty_elements,
            s.options().keep_element_names_stack,
            s.options().autopad_comments,
            s.options().pad_self_closing,
    {
        let emitter_config = emitter_config_new();
        let emitter_config = emitter_cdata_to_characters(emitter_config, true);
        let emitter_config = emitter_perform_indent(emitter_config, config.perform_indent);
        let mut emitter_config = emitter_write_document_declaration(
            emitter_config,
            config.write_document_declaration,
        );
        if let Some(indent_string_value) = &config.indent_string {
            emitter_config = emitter_indent_string(emitter_config, indent_string_value.clone());
        }
        Self::new(event_writer_new_with_config(emitter_config))
    }

    /// A serializer for content inside a document: its writer writes no
    /// declaration and otherwise keeps the default options.
    pub fn new_for_inner() -> (s: Self)
        ensures
            s == Serializer::fresh(false, inner_options()),
            s.starts_with(false, inner_options()),            !s.options().perform_indent,
            !s.options().write_document_declaration,
            !s.options().cdata_to_characters,
            s.options().indent_string == seq![' ', ' '],
            s.options().line_separator == seq!['\n'],
            s.options().perform_escaping,
            s.options().normalize_empty_elements,
            s.options().keep_element_names_stack,
            s.options().autopad_comments,
            s.options().pad_self_closing,
    {
        let config = emitter_write_document_declaration(emitter_config_new(), false);
        Self::new(event_writer_new_with_config(config))
    }

    /// The text written.
    pub fn into_inner(self) -> (r: String)
        ensures
            r@ == self.text(),
    {
        event_writer_into_inner(self.writer)
    }

    /// Whether the model should leave out its own start and end element.
    pub fn skip_start_end(&self) -> (r: bool)
        ensures
            r == self.skips_start_end(),
    {
        self.skip_start_end
    }

    /// Whether a generic model is being written.
    pub fn generic(&self) -> (r: bool)
        ensures
            r == self.is_generic(),
    {
        self.generic
    }

    /// Sets whether the model should leave out its own start and end element.
    pub fn set_skip_start_end(&mut self, state: bool)
        ensures
            final(self).skips_start_end() == state,
            final(self).is_generic() == old(self).is_generic(),
            final(self).start_name() == old(self).start_name(),
            final(self).output() == old(self).output(),
            final(self).text() == old(self).text(),
            final(self).options() == old(self).options(),
    {
        self.skip_start_end = state;
    }

    /// The element name that a nested model should start with, if any.
    pub fn get_start_event_name(&self) -> (r: Option<String>)
        ensures
            opt_text(r) == self.start_name(),
    {
        match &self.start_event_name {
            Some(name) => Some(name.clone()),
            None => None,
        }
    }

    /// Sets the element name that a nested model should start with.
    pub fn set_start_event_name(&mut self, name: Option<String>)
        ensures
            final(self).start_name() == opt_text(name),
            final(self).skips_start_end() == old(self).skips_start_end(),
            final(self).is_generic() == old(self).is_generic(),
            final(self).output() == old(self).output(),
            final(self).text() == old(self).text(),
            final(self).options() == old(self).options(),
    {
        self.start_event_name = name;
    }

    /// Sets whether a generic model is being written.
    pub fn set_generic(&mut self, state: bool)
        ensures
            final(self).is_generic() == state,
            final(self).skips_start_end() == old(self).skips_start_end(),
            final(self).start_name() == old(self).start_name(),
            final(self).output() == old(self).output(),
            final(self).text() == old(self).text(),
            final(self).options() == old(self).options(),
    {
        self.generic = state;
    }

    /// Writes one XML event after the text written so far: the writer does
    /// with the event what `event_written` says; the flags, the start name and
    /// the options stay as they were.
    pub fn write<'a, E: Into<XmlEvent<'a>>>(&mut self, event: E) -> (r: Result<
        (),
        xml_no_std::writer::Error,
    >)
        ensures
            E::obeys_into_spec() ==> (r is Ok, final(self).output()) == event_written(
                old(self).output(),
                event.into_spec(),
            ),
            old(self).text().is_prefix_of(final(self).text()),
            final(self).options() == old(self).options(),
            final(self).skips_start_end() == old(self).skips_start_end(),
            final(self).is_generic() == old(self).is_generic(),
            final(self).start_name() == old(self).start_name(),
    {
        let ev: XmlEvent<'a> = event.into();
        event_writer_write(&mut self.writer, ev)
    }
}

/// What a serialisation gives, from what the model reported: the text written
/// where it succeeded, and its message unchanged where it failed.
pub fn finish(outcome: Result<(), String>, serializer: Serializer) -> (r: Result<String, String>)
    ensures
        r is Ok <==> outcome is Ok,
        r matches Ok(text) ==> text@ == serializer.text(),
        outcome matches Err(msg) ==> r == Err::<String, String>(msg),
{
    match outcome {
        Ok(()) => Ok(serializer.into_inner()),
        Err(msg) => Err(msg),
    }
}

/// Serialises `model` with the IEEE 2030.5 formatting of `Config::default`:
/// what the model makes of a fresh serializer that indents and writes no
/// declaration.
pub fn to_string<T: YaSerialize>(model: &T) -> (r: Result<String, String>)
    ensures
        Serializer::fresh(false, default_config_options())
            .starts_with(false, default_config_options()),
        result_text(r) == serialized_by(*model, Serializer::fresh(false, default_config_options())),
{
    let config = Config::default();
    assert(config_options(config) == default_config_options());
    let data = serialize_with_writer(model, &config)?;
    Ok(data)
}

/// Serialises `model` with the formatting of `config`.
pub fn to_string_with_config<T: YaSerialize>(model: &T, config: &Config) -> (r: Result<
    String,
    String,
>)
    ensures
        Serializer::fresh(false, config_options(*config))
            .starts_with(false, config_options(*config)),
        result_text(r) == serialized_by(*model, Serializer::fresh(false, config_options(*config))),
{
    let data = serialize_with_writer(model, config)?;
    Ok(data)
}

/// Serialises `model` through a fresh serializer made from `config`: the
/// model is handed a serializer with nothing written, no flag set, no start
/// name and the options of `config`, and its outcome is passed on.
pub fn serialize_with_writer<T: YaSerialize>(model: &T, config: &Config) -> (r: Result<
    String,
    String,
>)
    ensures
        Serializer::fresh(false, config_options(*config))
            .starts_with(false, config_options(*config)),
        result_text(r) == serialized_by(*model, Serializer::fresh(false, config_options(*config))),
{
    let mut serializer = Serializer::new_from_writer(config);
    let ghost s0 = serializer;
    let outcome = model.serialize(&mut serializer);
    let r = finish(outcome, serializer);
    assert(s0 == Serializer::fresh(false, config_options(*config)));
    r
}

/// Serialises the content of `model`, without its own start and end element.
pub fn to_string_content<T: YaSerialize>(model: &T) -> (r: Result<String, String>)
    ensures
        Serializer::fresh(true, inner_options()).starts_with(true, inner_options()),
        result_text(r) == serialized_by(*model, Serializer::fresh(true, inner_options())),
{
    let data = serialize_with_writer_content(model)?;
    Ok(data)
}

/// Serialises the content of `model` through a serializer for inner content
/// that tells the model to leave out its own start and end element: the model
/// is handed a serializer with nothing written, the skip flag set, not
/// generic, no start name and the inner options, and its outcome is passed on.
pub fn serialize_with_writer_content<T: YaSerialize>(model: &T) -> (r: Result<String, String>)
    ensures
        Serializer::fresh(true, inner_options()).starts_with(true, inner_options()),
        result_text(r) == serialized_by(*model, Serializer::fresh(true, inner_options())),
{
    let mut serializer = Serializer::new_for_inner();
    serializer.set_skip_start_end(true);
    let ghost s0 = serializer;
    let outcome = model.serialize(&mut serializer);
    let r = finish(outcome, serializer);
    assert(s0 == Serializer::fresh(true, inner_options()));
    r
}

} // verus!
