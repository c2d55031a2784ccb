//! The settings a document may hold: the key each is written under and the
//! kind of value it takes.

use vstd::prelude::*;
use crate::document::Node;

verus! {

/// A kind of value that a setting may take.
#[derive(Debug, Clone, Copy, PartialEq, Eq, Structural)]
pub enum Kind {
    String,
    Boolean,
    Table,
}

/// A setting. The first seven stand at the top of a document; `Regular`,
/// `Italic` and `Bold` stand inside the `fonts` table.
#[derive(Debug, Clone, Copy, PartialEq, Eq, Structural)]
pub enum Field {
    Path,
    OutputDir,
    Layout,
    Inline,
    Theme,
    DarkTheme,
    Fonts,
    Regular,
    Italic,
    Bold,
}

impl Kind {
    /// Whether a value that stands for `node` is of this kind.
    pub open spec fn admits(self, node: Node) -> bool {
        match self {
            Kind::String => node is Text,
            Kind::Boolean => node is Flag,
            Kind::Table => node is Table,
        }
    }
}

impl Kind {
    /// The word for this kind.
    pub open spec fn name_text(self) -> Seq<char> {
        match self {
            Kind::String => "string"@,
            Kind::Boolean => "boolean"@,
            Kind::Table => "table"@,
        }
    }

    /// The word for this kind.
    pub fn name(self) -> (name: &'static str)
        ensures
            name@ == self.name_text(),
    {
        match self {
            Kind::String => "string",
            Kind::Boolean => "boolean",
            Kind::Table => "table",
        }
    }
}

impl Field {
    /// The key this setting is written under, in lower case with hyphens.
    pub open spec fn key_text(self) -> Seq<char> {
        match self {
            Field::Path => "path"@,
            Field::OutputDir => "output-dir"@,
            Field::Layout => "layout"@,
            Field::Inline => "inline"@,
            Field::Theme => "theme"@,
            Field::DarkTheme => "dark-theme"@,
            Field::Fonts => "fonts"@,
            Field::Regular => "regular"@,
            Field::Italic => "italic"@,
            Field::Bold => "bold"@,
        }
    }

    /// The kind of value this setting takes. A path is written as a string.
    pub open spec fn kind_of(self) -> Kind {
        match self {
            Field::Inline => Kind::Boolean,
            Field::Fonts => Kind::Table,
            _ => Kind::String,
        }
    }

    /// The key this setting is written under.
    pub fn key(self) -> (key: &'static str)
        ensures
            key@ == self.key_text(),
    {
        match self {
            Field::Path => "path",
            Field::OutputDir => "output-dir",
            Field::Layout => "layout",
            Field::Inline => "inline",
            Field::Theme => "theme",
            Field::DarkTheme => "dark-theme",
            Field::Fonts => "fonts",
            Field::Regular => "regular",
            Field::Italic => "italic",
            Field::Bold => "bold",
        }
    }

    /// The kind of value this setting takes.
    pub fn kind(self) -> (kind: Kind)
        ensures
            kind == self.kind_of(),
    {
        match self {
            Field::Inline => Kind::Boolean,
            Field::Fonts => Kind::Table,
            _ => Kind::String,
        }
    }
}

/// The keys of any two different settings differ.
pub proof fn lemma_keys_apart()
    ensures
        forall|a: Field, b: Field| a != b ==> #[trigger] a.key_text() != #[trigger] b.key_text(),
{
    assert forall|a: Field, b: Field| a != b implies #[trigger] a.key_text()
        != #[trigger] b.key_text() by {
        lemma_keys_differ(a, b);
    }
}

/// No two settings share a key.
pub proof fn lemma_keys_differ(a: Field, b: Field)
    ensures
        a.key_text() == b.key_text() <==> a == b,
{
    reveal_strlit("path");
    reveal_strlit("output-dir");
    reveal_strlit("layout");
    reveal_strlit("inline");
    reveal_strlit("theme");
    reveal_strlit("dark-theme");
    reveal_strlit("fonts");
    reveal_strlit("regular");
    reveal_strlit("italic");
    reveal_strlit("bold");
    if a != b && a.key_text().len() == b.key_text().len() {
        assert(a.key_text()[0] != b.key_text()[0] || a.key_text()[1] != b.key_text()[1]);
    }
}

} // verus!
