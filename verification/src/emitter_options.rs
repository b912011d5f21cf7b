//! The options of an XML event writer as plain values, and the options that
//! the serializers of this crate ask for.

use vstd::prelude::*;

verus! {

/// The options of an XML emitter: the public fields of `EmitterConfig`, the
/// same in `xml_no_std` and in `xml-rs`, with each text as its characters.
pub ghost struct EmitterOptions {
    /// The text written between lines of formatted output.
    pub line_separator: Seq<char>,
    /// The text written for one level of indentation.
    pub indent_string: Seq<char>,
    /// Whether nested elements are put on lines of their own and indented.
    pub perform_indent: bool,
    /// Whether characters that XML reserves are escaped.
    pub perform_escaping: bool,
    /// Whether a declaration is written before the root element.
    pub write_document_declaration: bool,
    /// Whether an element without content is written as an empty element.
    pub normalize_empty_elements: bool,
    /// Whether CDATA sections are written as escaped character data.
    pub cdata_to_characters: bool,
    /// Whether the names of open elements are kept for end elements.
    pub keep_element_names_stack: bool,
    /// Whether comments get a space after `<!--` and before `-->`.
    pub autopad_comments: bool,
    /// Whether an empty element is closed with ` />` rather than `/>`.
    pub pad_self_closing: bool,
}

/// The options of `EmitterConfig::new`.
pub open spec fn default_emitter_options() -> EmitterOptions {
    EmitterOptions {
        line_separator: seq!['\n'],
        indent_string: seq![' ', ' '],
        perform_indent: false,
        perform_escaping: true,
        write_document_declaration: true,
        normalize_empty_elements: true,
        cdata_to_characters: false,
        keep_element_names_stack: true,
        autopad_comments: true,
        pad_self_closing: true,
    }
}

/// The options that a serializer made from formatting settings writes with:
/// CDATA as character data, the indentation and declaration asked for, the
/// indent text given (or the default one), and the defaults otherwise.
pub open spec fn configured_options(
    perform_indent: bool,
    write_document_declaration: bool,
    indent_string: Option<Seq<char>>,
) -> EmitterOptions {
    EmitterOptions {
        cdata_to_characters: true,
        perform_indent: perform_indent,
        write_document_declaration: write_document_declaration,
        indent_string: match indent_string {
            Some(t) => t,
            None => default_emitter_options().indent_string,
        },
        ..default_emitter_options()
    }
}

/// The options that a serializer for inner content writes with: the defaults,
/// without a declaration (so without indentation, and with CDATA kept).
pub open spec fn inner_options() -> EmitterOptions {
    EmitterOptions { write_document_declaration: false, ..default_emitter_options() }
}

} // verus!
