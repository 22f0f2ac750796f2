//! Accumulates tagged lines into one delimited JSDoc comment block.

use vstd::prelude::*;
use vstd::string::StringExecFns;

verus! {

/// The tag that opens a tagged line inside a comment block.
pub enum JSDocTag {
    Typedef,
    Property,
}

/// The text that a tag contributes to its line, including the trailing space.
pub open spec fn spec_tag_text(tag: JSDocTag) -> Seq<char> {
    match tag {
        JSDocTag::Typedef => "@typedef "@,
        JSDocTag::Property => "@property "@,
    }
}

/// Accumulates a comment block line by line. The view of a builder is the
/// text gathered so far, which always starts with the opening delimiter line.
/// `build` consumes the builder, so the closing delimiter can be appended at
/// most once.
#[derive(Debug)]
pub struct JSDocBuilder {
    doc: String,
}

impl View for JSDocBuilder {
    type V = Seq<char>;

    closed spec fn view(&self) -> Seq<char> {
        self.doc@
    }
}

impl JSDocBuilder {
    /// Starts a block: the gathered text is the opening delimiter line.
    pub fn new() -> (r: JSDocBuilder)
        ensures
            r@ == "/**\n"@,
    {
        JSDocBuilder { doc: String::from_str("/**\n") }
    }

    /// Appends one plain line, prefixed by the line leader.
    pub fn add_line(&mut self, line: &str)
        ensures
            final(self)@ == old(self)@ + " * "@ + line@ + "\n"@,
    {
        self.doc.append(" * ");
        self.doc.append(line);
        self.doc.append("\n");
    }

    /// Appends one tagged line: line leader, the tag's text, then the line.
    pub fn add_tag_line(&mut self, tag: JSDocTag, line: &str)
        ensures
            final(self)@ == old(self)@ + " * "@ + spec_tag_text(tag) + line@ + "\n"@,
    {
        self.doc.append(" * ");
        match tag {
            JSDocTag::Typedef => self.doc.append("@typedef "),
            JSDocTag::Property => self.doc.append("@property "),
        }
        self.doc.append(line);
        self.doc.append("\n");
    }

    /// Closes the block and returns it. Consumes the builder, so the closing
    /// delimiter cannot be appended twice.
    pub fn build(self) -> (r: String)
        ensures
            r@ == self@ + " */\n"@,
    {
        let mut doc = self.doc;
        doc.append(" */\n");
        doc
    }
}

} // verus!
