//! Choosing how to print content.
//!
//! Building a printer is a pure decision — which of the three formats to use
//! over which content and writer — and is verified here.  The serialisation
//! and the writing themselves are transport work and happen outside the
//! library, on the concrete printer this module hands out.

use vstd::prelude::*;

verus! {

/// Supported output formats
#[derive(Clone, Copy, Debug, PartialEq, Eq, Structural)]
pub enum Format {
    Json,
    Yaml,
    Text,
}

/// Prints its content serialised as JSON.
pub struct JsonPrinter<T, W> {
    pub content: T,
    pub writer: W,
}

/// Prints its content with debug formatting.
pub struct TextPrinter<T, W> {
    pub content: T,
    pub writer: W,
}

/// Prints its content serialised as YAML.
pub struct YamlPrinter<T, W> {
    pub content: T,
    pub writer: W,
}

/// A built printer: the format choice resolved into one concrete printer.
pub enum Printer<T, W> {
    Json(JsonPrinter<T, W>),
    Text(TextPrinter<T, W>),
    Yaml(YamlPrinter<T, W>),
}

/// Builds a printer over some content and a writer.
pub struct PrinterBuilder<T, W> {
    pub format: Format,
    pub content: T,
    pub writer: W,
}

impl<T, W> PrinterBuilder<T, W> {
    /// Starts a builder; the default format is plain text.
    pub fn new(content: T, writer: W) -> (r: Self)
        ensures
            r.format == Format::Text,
            r.content == content,
            r.writer == writer,
    {
        PrinterBuilder { format: Format::Text, content, writer }
    }

    /// Sets the printer format
    pub fn with_format(self, format: Format) -> (r: Self)
        ensures
            r.format == format,
            r.content == self.content,
            r.writer == self.writer,
    {
        PrinterBuilder { format, content: self.content, writer: self.writer }
    }

    /// Builds the printer with the given configuration
    pub fn build(self) -> (r: Printer<T, W>)
        ensures
            match self.format {
                Format::Json => r == Printer::<T, W>::Json(
                    JsonPrinter { content: self.content, writer: self.writer },
                ),
                Format::Text => r == Printer::<T, W>::Text(
                    TextPrinter { content: self.content, writer: self.writer },
                ),
                Format::Yaml => r == Printer::<T, W>::Yaml(
                    YamlPrinter { content: self.content, writer: self.writer },
                ),
            },
    {
        match self.format {
            Format::Json => Printer::Json(JsonPrinter { content: self.content, writer: self.writer }),
            Format::Text => Printer::Text(TextPrinter { content: self.content, writer: self.writer }),
            Format::Yaml => Printer::Yaml(YamlPrinter { content: self.content, writer: self.writer }),
        }
    }
}

} // verus!
