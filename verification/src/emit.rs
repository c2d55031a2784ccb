//! Writing settings back as a document.

use vstd::prelude::*;
use crate::accept::accepted;
use crate::config::{Config, ConfigView, Fonts, FontsView};
use crate::document::{Item, Node, Table};
use crate::error::ConfigError;
use crate::schema::{lemma_keys_apart, Field};

verus! {

/// `doc`, with `field` bound to the string `text` where there is one.
pub open spec fn with_text(
    doc: Map<Seq<char>, Node>,
    field: Field,
    text: Option<Seq<char>>,
) -> Map<Seq<char>, Node> {
    match text {
        Some(text) => doc.insert(field.key_text(), Node::Text(text)),
        None => doc,
    }
}

/// The `fonts` table that a font family is written as.
pub open spec fn faces_of(fonts: FontsView) -> Map<Seq<char>, Node> {
    Map::<Seq<char>, Node>::empty().insert(
        Field::Regular.key_text(),
        Node::Text(fonts.regular),
    ).insert(Field::Italic.key_text(), Node::Text(fonts.italic)).insert(
        Field::Bold.key_text(),
        Node::Text(fonts.bold),
    )
}

/// `doc`, with `fonts` bound to the table of a font family where there is one.
pub open spec fn with_fonts(
    doc: Map<Seq<char>, Node>,
    fonts: Option<FontsView>,
) -> Map<Seq<char>, Node> {
    match fonts {
        Some(fonts) => doc.insert(Field::Fonts.key_text(), Node::Table(faces_of(fonts))),
        None => doc,
    }
}

/// The document that settings are written as: `path`, `output-dir` and
/// `inline` always, each of the others where the settings hold it.
pub open spec fn document_of(config: ConfigView) -> Map<Seq<char>, Node> {
    let always = Map::<Seq<char>, Node>::empty().insert(
        Field::Path.key_text(),
        Node::Text(config.path),
    ).insert(Field::OutputDir.key_text(), Node::Text(config.output_dir)).insert(
        Field::Inline.key_text(),
        Node::Flag(config.inline),
    );
    with_fonts(
        with_text(
            with_text(with_text(always, Field::Layout, config.layout), Field::Theme, config.theme),
            Field::DarkTheme,
            config.dark_theme,
        ),
        config.fonts,
    )
}

/// Binds `field` to a copy of `text` where there is one.
fn put_text(table: &mut Table, field: Field, text: &Option<String>)
    ensures
        final(table)@ == with_text(old(table)@, field, crate::config::text_of(*text)),
{
    match text {
        Some(text) => table.insert(field.key().to_owned(), Item::String(text.clone())),
        None => {},
    }
}

/// The `fonts` table of a font family.
fn faces_table(fonts: &Fonts) -> (table: Table)
    ensures
        table@ == faces_of(fonts@),
{
    let mut table = Table::new();
    table.insert(Field::Regular.key().to_owned(), Item::String(fonts.regular.clone()));
    table.insert(Field::Italic.key().to_owned(), Item::String(fonts.italic.clone()));
    table.insert(Field::Bold.key().to_owned(), Item::String(fonts.bold.clone()));
    table
}

/// Writes settings as a document, from which the same settings are read back.
pub fn to_document(config: &Config) -> (table: Table)
    ensures
        table@ == document_of(config@),
        accepted(table@) == Ok::<ConfigView, ConfigError>(config@),
{
    proof {
        lemma_round_trip(config@);
    }
    let mut table = Table::new();
    table.insert(Field::Path.key().to_owned(), Item::String(config.path.clone()));
    table.insert(Field::OutputDir.key().to_owned(), Item::String(config.output_dir.clone()));
    table.insert(Field::Inline.key().to_owned(), Item::Boolean(config.inline));
    put_text(&mut table, Field::Layout, &config.layout);
    put_text(&mut table, Field::Theme, &config.theme);
    put_text(&mut table, Field::DarkTheme, &config.dark_theme);
    match &config.fonts {
        Some(fonts) => table.insert(Field::Fonts.key().to_owned(), Item::Table(faces_table(fonts))),
        None => {},
    }
    table
}

/// Settings written as a document and read back are the same settings.
pub proof fn lemma_round_trip(config: ConfigView)
    ensures
        accepted(document_of(config)) == Ok::<ConfigView, ConfigError>(config),
{
    lemma_keys_apart();
    let doc = document_of(config);
    match config.fonts {
        Some(fonts) => {
            let faces = faces_of(fonts);
            assert(doc[Field::Fonts.key_text()] == Node::Table(faces));
            assert(crate::accept::faces_fault(faces) is None);
        },
        None => {},
    }
    assert(crate::accept::fault(doc) is None);
    assert(crate::accept::settings(doc) == config);
}

} // verus!
