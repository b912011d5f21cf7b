//! Enumerations are written as the number of their variant, in elements and
//! in attributes; the models implement `YaSerialize` by hand.

use sepserde::bytes_ser::{to_string, to_string_content, Serializer, YaSerialize};
use xml::writer::XmlEvent;

#[derive(Debug, PartialEq)]
pub enum Color {
    White,
    Black,
}

impl Default for Color {
    fn default() -> Color {
        Color::White
    }
}

impl Color {
    fn number(&self) -> &'static str {
        match self {
            Color::White => "0",
            Color::Black => "1",
        }
    }
}

impl YaSerialize for Color {
    fn name() -> &'static str {
        "Color"
    }

    fn serialize_spec(&self, before: Serializer) -> (Result<(), String>, Serializer) {
        let mut after = before;
        let outcome = self.serialize(&mut after);
        (outcome, after)
    }

    fn serialize(&self, writer: &mut Serializer) -> Result<(), String> {
        let name = writer.get_start_event_name().unwrap_or_else(|| "color".to_string());
        writer.set_start_event_name(None);
        let skip = writer.skip_start_end();
        if !skip {
            writer.write(XmlEvent::start_element(name.as_str())).map_err(|e| e.to_string())?;
        }
        writer.write(XmlEvent::characters(self.number())).map_err(|e| e.to_string())?;
        if !skip {
            writer.write(XmlEvent::end_element()).map_err(|e| e.to_string())?;
        }
        Ok(())
    }
}

#[derive(Debug, PartialEq)]
pub struct XmlStruct {
    color: Color,
}

impl YaSerialize for XmlStruct {
    fn name() -> &'static str {
        "XmlStruct"
    }

    fn serialize_spec(&self, before: Serializer) -> (Result<(), String>, Serializer) {
        let mut after = before;
        let outcome = self.serialize(&mut after);
        (outcome, after)
    }

    fn serialize(&self, writer: &mut Serializer) -> Result<(), String> {
        let skip = writer.skip_start_end();
        if !skip {
            writer.write(XmlEvent::start_element("base")).map_err(|e| e.to_string())?;
        }
        writer.set_skip_start_end(false);
        writer.set_start_event_name(Some("color".to_string()));
        self.color.serialize(writer)?;
        if !skip {
            writer.write(XmlEvent::end_element()).map_err(|e| e.to_string())?;
        }
        Ok(())
    }
}

#[derive(Debug, PartialEq)]
pub struct AttributeStruct {
    color: Color,
}

impl YaSerialize for AttributeStruct {
    fn name() -> &'static str {
        "AttributeStruct"
    }

    fn serialize_spec(&self, before: Serializer) -> (Result<(), String>, Serializer) {
        let mut after = before;
        let outcome = self.serialize(&mut after);
        (outcome, after)
    }

    fn serialize(&self, writer: &mut Serializer) -> Result<(), String> {
        let value = self.color.number();
        writer
            .write(XmlEvent::start_element("base").attr("color", value))
            .map_err(|e| e.to_string())?;
        writer.write(XmlEvent::end_element()).map_err(|e| e.to_string())?;
        Ok(())
    }
}

#[derive(Debug, PartialEq)]
pub enum PinkColor {
    Pink,
}

impl Default for PinkColor {
    fn default() -> PinkColor {
        PinkColor::Pink
    }
}

#[derive(Debug, PartialEq)]
pub struct PinkStruct {
    color: PinkColor,
}

impl YaSerialize for PinkStruct {
    fn name() -> &'static str {
        "PinkStruct"
    }

    fn serialize_spec(&self, before: Serializer) -> (Result<(), String>, Serializer) {
        let mut after = before;
        let outcome = self.serialize(&mut after);
        (outcome, after)
    }

    fn serialize(&self, writer: &mut Serializer) -> Result<(), String> {
        let value = match self.color {
            PinkColor::Pink => "0",
        };
        writer
            .write(XmlEvent::start_element("base").attr("color", value))
            .map_err(|e| e.to_string())?;
        writer.write(XmlEvent::end_element()).map_err(|e| e.to_string())?;
        Ok(())
    }
}

struct Failing;

impl YaSerialize for Failing {
    fn name() -> &'static str {
        "Failing"
    }

    fn serialize_spec(&self, before: Serializer) -> (Result<(), String>, Serializer) {
        let mut after = before;
        let outcome = self.serialize(&mut after);
        (outcome, after)
    }

    fn serialize(&self, _writer: &mut Serializer) -> Result<(), String> {
        Err("cannot serialise".to_string())
    }
}

const DECLARATION: &str = r#"<?xml version="1.0" encoding="UTF-8"?>"#;

#[test]
fn basic_enum() {
    assert_eq!(Color::default(), Color::White);

    let model = XmlStruct {
        color: Color::Black,
    };

    let content = "<base><color>1</color></base>";
    assert_eq!(to_string(&model), Ok(format!("{}{}", DECLARATION, content)));
}

#[test]
fn attribute_enum() {
    let model = PinkStruct { color: PinkColor::Pink };

    let content = r#"<base color="0" />"#;
    assert_eq!(to_string(&model), Ok(format!("{}{}", DECLARATION, content)));
}

#[test]
fn attribute_enum_of_two_variants() {
    let model = AttributeStruct { color: Color::White };
    let content = r#"<base color="0" />"#;
    assert_eq!(to_string(&model), Ok(format!("{}{}", DECLARATION, content)));
    let model = AttributeStruct { color: Color::Black };
    let content = r#"<base color="1" />"#;
    assert_eq!(to_string(&model), Ok(format!("{}{}", DECLARATION, content)));
}

#[test]
fn content_leaves_out_the_outer_element() {
    let model = XmlStruct {
        color: Color::Black,
    };
    assert_eq!(to_string_content(&model), Ok("<color>1</color>".to_string()));
}

#[test]
fn model_error_is_passed_on() {
    assert_eq!(to_string(&Failing), Err("cannot serialise".to_string()));
    assert_eq!(to_string_content(&Failing), Err("cannot serialise".to_string()));
}
