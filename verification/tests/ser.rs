//! The IEEE 2030.5 serializer: its default formatting, its state, and how a
//! model's outcome is passed on.

use sepserde::ser::xml::writer::XmlEvent;
use sepserde::ser::{
    finish, serialize_with_writer, to_string, to_string_content, to_string_with_config, Config,
    Serializer, YaSerialize,
};

struct Reading {
    value: u32,
}

impl YaSerialize for Reading {
    fn name() -> &'static str {
        "Reading"
    }

    fn serialize_spec(&self, before: Serializer) -> (Result<(), String>, Serializer) {
        let mut after = before;
        let outcome = self.serialize(&mut after);
        (outcome, after)
    }

    fn serialize(&self, writer: &mut Serializer) -> Result<(), String> {
        let skip = writer.skip_start_end();
        if !skip {
            writer.write(XmlEvent::start_element("Reading")).map_err(|e| e.to_string())?;
        }
        writer.write(XmlEvent::start_element("value")).map_err(|e| e.to_string())?;
        let text = self.value.to_string();
        writer.write(XmlEvent::characters(&text)).map_err(|e| e.to_string())?;
        writer.write(XmlEvent::end_element()).map_err(|e| e.to_string())?;
        if !skip {
            writer.write(XmlEvent::end_element()).map_err(|e| e.to_string())?;
        }
        Ok(())
    }
}

struct Failing;

impl YaSerialize for Failing {
    fn name() -> &'static str {
        "Failing"
    }

    fn serialize_spec(&self, before: Serializer) -> (Result<(), String>, Serializer) {
        let mut after = before;
        let outcome = self.serialize(&mut after);
        (outcome, after)
    }

    fn serialize(&self, _writer: &mut Serializer) -> Result<(), String> {
        Err("no such reading".to_string())
    }
}

#[test]
fn default_config_is_indented_without_declaration() {
    let config = Config::default();
    assert!(config.perform_indent);
    assert!(!config.write_document_declaration);
    assert!(config.indent_string.is_none());
}

#[test]
fn to_string_indents_and_leaves_out_the_declaration() {
    let out = to_string(&Reading { value: 5 }).unwrap();
    assert_eq!(out, "<Reading>\n  <value>5</value>\n</Reading>");
}

#[test]
fn config_controls_layout() {
    let flat = Config {
        perform_indent: false,
        write_document_declaration: false,
        indent_string: None,
    };
    assert_eq!(
        to_string_with_config(&Reading { value: 7 }, &flat).unwrap(),
        "<Reading><value>7</value></Reading>"
    );
    let tabbed = Config {
        perform_indent: true,
        write_document_declaration: false,
        indent_string: Some("\t".to_string()),
    };
    assert_eq!(
        serialize_with_writer(&Reading { value: 7 }, &tabbed).unwrap(),
        "<Reading>\n\t<value>7</value>\n</Reading>"
    );
}

#[test]
fn content_skips_the_outer_element() {
    assert_eq!(to_string_content(&Reading { value: 3 }).unwrap(), "<value>3</value>");
}

#[test]
fn errors_of_the_model_are_passed_on() {
    assert_eq!(to_string(&Failing), Err("no such reading".to_string()));
    assert_eq!(to_string_content(&Failing), Err("no such reading".to_string()));
    let fresh = Serializer::new_for_inner();
    assert_eq!(finish(Err("stop".to_string()), fresh), Err("stop".to_string()));
    let fresh = Serializer::new_for_inner();
    assert_eq!(finish(Ok(()), fresh), Ok(String::new()));
}

#[test]
fn serializer_state_setters_and_getters() {
    let mut s = Serializer::new_for_inner();
    assert!(!s.skip_start_end());
    assert!(!s.generic());
    assert_eq!(s.get_start_event_name(), None);
    s.set_skip_start_end(true);
    s.set_generic(true);
    s.set_start_event_name(Some("Name".to_string()));
    assert!(s.skip_start_end());
    assert!(s.generic());
    assert_eq!(s.get_start_event_name(), Some("Name".to_string()));
    s.set_generic(false);
    assert!(s.skip_start_end());
    assert!(!s.generic());
    assert_eq!(s.into_inner(), "");
}

#[test]
fn writes_only_extend_the_text() {
    let mut s = Serializer::new_for_inner();
    s.set_generic(true);
    s.write(XmlEvent::start_element("a")).unwrap();
    s.write(XmlEvent::characters("x < y")).unwrap();
    s.write(XmlEvent::end_element()).unwrap();
    assert!(s.generic());
    assert_eq!(s.into_inner(), "<a>x &lt; y</a>");
}

#[test]
fn a_stray_end_element_is_refused() {
    let mut s = Serializer::new_for_inner();
    assert!(s.write(XmlEvent::end_element()).is_err());
    assert_eq!(s.into_inner(), "");
}

struct Nested {
    cdata: &'static str,
}

impl YaSerialize for Nested {
    fn name() -> &'static str {
        "Nested"
    }

    fn serialize_spec(&self, before: Serializer) -> (Result<(), String>, Serializer) {
        let mut after = before;
        let outcome = self.serialize(&mut after);
        (outcome, after)
    }

    fn serialize(&self, writer: &mut Serializer) -> Result<(), String> {
        let skip = writer.skip_start_end();
        if !skip {
            writer.write(XmlEvent::start_element("a")).map_err(|e| e.to_string())?;
        }
        writer.write(XmlEvent::start_element("b")).map_err(|e| e.to_string())?;
        writer.write(XmlEvent::cdata(self.cdata)).map_err(|e| e.to_string())?;
        writer.write(XmlEvent::end_element()).map_err(|e| e.to_string())?;
        if !skip {
            writer.write(XmlEvent::end_element()).map_err(|e| e.to_string())?;
        }
        Ok(())
    }
}

#[test]
fn cdata_is_written_as_characters_by_configured_serializers() {
    let flat = Config {
        perform_indent: false,
        write_document_declaration: false,
        indent_string: None,
    };
    assert_eq!(
        to_string_with_config(&Nested { cdata: "x<y" }, &flat).unwrap(),
        "<a><b>x&lt;y</b></a>"
    );
}

#[test]
fn content_serializer_keeps_cdata_and_adds_no_declaration_or_indentation() {
    assert_eq!(
        to_string_content(&Nested { cdata: "x<y" }).unwrap(),
        "<b><![CDATA[x<y]]></b>"
    );
}

#[test]
fn declaration_appears_exactly_when_asked_for() {
    let with = Config {
        perform_indent: false,
        write_document_declaration: true,
        indent_string: None,
    };
    let out = to_string_with_config(&Reading { value: 1 }, &with).unwrap();
    assert!(out.starts_with("<?xml"));
    assert!(out.ends_with("<Reading><value>1</value></Reading>"));
    let without = Config {
        perform_indent: false,
        write_document_declaration: false,
        indent_string: None,
    };
    assert!(!to_string_with_config(&Reading { value: 1 }, &without).unwrap().starts_with("<?xml"));
}

#[test]
fn indent_text_matters_only_with_indentation() {
    let a = Config {
        perform_indent: false,
        write_document_declaration: false,
        indent_string: Some("\t".to_string()),
    };
    let b = Config {
        perform_indent: false,
        write_document_declaration: false,
        indent_string: None,
    };
    assert_eq!(
        to_string_with_config(&Nested { cdata: "z" }, &a),
        to_string_with_config(&Nested { cdata: "z" }, &b)
    );
    let tab = Config {
        perform_indent: true,
        write_document_declaration: false,
        indent_string: Some("\t".to_string()),
    };
    assert_eq!(
        to_string_with_config(&Nested { cdata: "z" }, &tab).unwrap(),
        "<a>\n\t<b>z</b>\n</a>"
    );
}

#[test]
fn to_string_matches_the_default_config() {
    let model = Nested { cdata: "q" };
    assert_eq!(to_string(&model), serialize_with_writer(&model, &Config::default()));
    assert_eq!(to_string(&model).unwrap(), "<a>\n  <b>q</b>\n</a>");
}
