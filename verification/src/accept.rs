//! Reading the settings out of a document.
//!
//! A document is accepted whole or turned down for one fault. The settings at
//! the top are looked at first, in the order `path`, `output-dir`, `layout`,
//! `inline`, `theme`, `dark-theme`; then the `fonts` table, where a face that
//! is missing counts before a face of the wrong kind. Keys that name no
//! setting are passed over.

use vstd::prelude::*;
use crate::config::{Config, ConfigView, Fonts, FontsView};
use crate::document::{Item, Node, Table};
use crate::error::ConfigError;
use crate::schema::{lemma_keys_apart, Field, Kind};

verus! {

/// `field` is given in `doc`, with a value of another kind than it takes.
pub open spec fn mistyped(doc: Map<Seq<char>, Node>, field: Field) -> bool {
    doc.contains_key(field.key_text()) && !field.kind_of().admits(doc[field.key_text()])
}

/// The fault of giving `field` a value of the wrong kind.
pub open spec fn mismatch(field: Field) -> ConfigError {
    ConfigError::TypeMismatch { field, expected: field.kind_of() }
}

/// The first fault among the three faces of a `fonts` table, if it has one.
pub open spec fn faces_fault(faces: Map<Seq<char>, Node>) -> Option<ConfigError> {
    if !faces.contains_key(Field::Regular.key_text()) {
        Some(ConfigError::MissingField { field: Field::Regular })
    } else if !faces.contains_key(Field::Italic.key_text()) {
        Some(ConfigError::MissingField { field: Field::Italic })
    } else if !faces.contains_key(Field::Bold.key_text()) {
        Some(ConfigError::MissingField { field: Field::Bold })
    } else if mistyped(faces, Field::Regular) {
        Some(mismatch(Field::Regular))
    } else if mistyped(faces, Field::Italic) {
        Some(mismatch(Field::Italic))
    } else if mistyped(faces, Field::Bold) {
        Some(mismatch(Field::Bold))
    } else {
        None
    }
}

/// The fault of what `doc` gives for `fonts`, if it has one.
pub open spec fn fonts_fault(doc: Map<Seq<char>, Node>) -> Option<ConfigError> {
    if !doc.contains_key(Field::Fonts.key_text()) {
        None
    } else {
        match doc[Field::Fonts.key_text()] {
            Node::Table(faces) => faces_fault(faces),
            _ => Some(mismatch(Field::Fonts)),
        }
    }
}

/// The fault that `doc` is turned down for, if it has one.
pub open spec fn fault(doc: Map<Seq<char>, Node>) -> Option<ConfigError> {
    if mistyped(doc, Field::Path) {
        Some(mismatch(Field::Path))
    } else if mistyped(doc, Field::OutputDir) {
        Some(mismatch(Field::OutputDir))
    } else if mistyped(doc, Field::Layout) {
        Some(mismatch(Field::Layout))
    } else if mistyped(doc, Field::Inline) {
        Some(mismatch(Field::Inline))
    } else if mistyped(doc, Field::Theme) {
        Some(mismatch(Field::Theme))
    } else if mistyped(doc, Field::DarkTheme) {
        Some(mismatch(Field::DarkTheme))
    } else {
        fonts_fault(doc)
    }
}

/// The string that `doc` gives for `field`, if it gives one.
pub open spec fn text_given(doc: Map<Seq<char>, Node>, field: Field) -> Option<Seq<char>> {
    if doc.contains_key(field.key_text()) {
        match doc[field.key_text()] {
            Node::Text(text) => Some(text),
            _ => None,
        }
    } else {
        None
    }
}

/// The boolean that `doc` gives for `field`, if it gives one.
pub open spec fn flag_given(doc: Map<Seq<char>, Node>, field: Field) -> Option<bool> {
    if doc.contains_key(field.key_text()) {
        match doc[field.key_text()] {
            Node::Flag(flag) => Some(flag),
            _ => None,
        }
    } else {
        None
    }
}

/// The font family that a `fonts` table gives, if it gives all three faces
/// as strings.
pub open spec fn family(faces: Map<Seq<char>, Node>) -> Option<FontsView> {
    match (
        text_given(faces, Field::Regular),
        text_given(faces, Field::Italic),
        text_given(faces, Field::Bold),
    ) {
        (Some(regular), Some(italic), Some(bold)) => Some(FontsView { regular, italic, bold }),
        _ => None,
    }
}

/// The font family that `doc` gives, if it gives a whole one.
pub open spec fn fonts_given(doc: Map<Seq<char>, Node>) -> Option<FontsView> {
    if doc.contains_key(Field::Fonts.key_text()) {
        match doc[Field::Fonts.key_text()] {
            Node::Table(faces) => family(faces),
            _ => None,
        }
    } else {
        None
    }
}

/// The settings that a document without fault stands for: what it gives,
/// and for what it leaves out the fallback, or nothing where there is none.
pub open spec fn settings(doc: Map<Seq<char>, Node>) -> ConfigView {
    ConfigView {
        path: match text_given(doc, Field::Path) {
            Some(text) => text,
            None => crate::default::d2(),
        },
        output_dir: match text_given(doc, Field::OutputDir) {
            Some(text) => text,
            None => crate::default::d2(),
        },
        layout: text_given(doc, Field::Layout),
        inline: match flag_given(doc, Field::Inline) {
            Some(flag) => flag,
            None => true,
        },
        fonts: fonts_given(doc),
        theme: text_given(doc, Field::Theme),
        dark_theme: text_given(doc, Field::DarkTheme),
    }
}

/// An outcome, with the settings in it taken for what they stand for.
pub open spec fn viewed(outcome: Result<Config, ConfigError>) -> Result<ConfigView, ConfigError> {
    match outcome {
        Ok(config) => Ok(config@),
        Err(error) => Err(error),
    }
}

/// What comes of reading `doc`: its fault if it has one, else its settings.
pub open spec fn accepted(doc: Map<Seq<char>, Node>) -> Result<ConfigView, ConfigError> {
    match fault(doc) {
        Some(error) => Err(error),
        None => Ok(settings(doc)),
    }
}

/// The string given for `field`, nothing where `table` has no such key, or
/// the fault of a value that is no string.
fn string_of(table: &Table, field: Field) -> (found: Result<Option<String>, ConfigError>)
    requires
        field.kind_of() == Kind::String,
    ensures
        match found {
            Ok(text) => {
                &&& !mistyped(table@, field)
                &&& crate::config::text_of(text) == text_given(table@, field)
                &&& text is Some <==> table@.contains_key(field.key_text())
            },
            Err(error) => mistyped(table@, field) && error == mismatch(field),
        },
{
    match table.get(field.key()) {
        None => Ok(None),
        Some(Item::String(text)) => Ok(Some(text.clone())),
        Some(_) => Err(ConfigError::TypeMismatch { field, expected: field.kind() }),
    }
}

/// The boolean given for `field`, nothing where `table` has no such key, or
/// the fault of a value that is no boolean.
fn boolean_of(table: &Table, field: Field) -> (found: Result<Option<bool>, ConfigError>)
    requires
        field.kind_of() == Kind::Boolean,
    ensures
        match found {
            Ok(flag) => !mistyped(table@, field) && flag == flag_given(table@, field),
            Err(error) => mistyped(table@, field) && error == mismatch(field),
        },
{
    match table.get(field.key()) {
        None => Ok(None),
        Some(Item::Boolean(flag)) => Ok(Some(*flag)),
        Some(_) => Err(ConfigError::TypeMismatch { field, expected: field.kind() }),
    }
}

/// The font family of a `fonts` table, or the first fault among its faces.
fn faces_of(faces: &Table) -> (found: Result<Fonts, ConfigError>)
    ensures
        match found {
            Ok(fonts) => faces_fault(faces@) is None && family(faces@) == Some(fonts@),
            Err(error) => faces_fault(faces@) == Some(error),
        },
{
    if faces.get(Field::Regular.key()).is_none() {
        return Err(ConfigError::MissingField { field: Field::Regular });
    }
    if faces.get(Field::Italic.key()).is_none() {
        return Err(ConfigError::MissingField { field: Field::Italic });
    }
    if faces.get(Field::Bold.key()).is_none() {
        return Err(ConfigError::MissingField { field: Field::Bold });
    }
    let regular = match string_of(faces, Field::Regular) {
        Ok(Some(text)) => text,
        Ok(None) => return Err(ConfigError::MissingField { field: Field::Regular }),
        Err(error) => return Err(error),
    };
    let italic = match string_of(faces, Field::Italic) {
        Ok(Some(text)) => text,
        Ok(None) => return Err(ConfigError::MissingField { field: Field::Italic }),
        Err(error) => return Err(error),
    };
    let bold = match string_of(faces, Field::Bold) {
        Ok(Some(text)) => text,
        Ok(None) => return Err(ConfigError::MissingField { field: Field::Bold }),
        Err(error) => return Err(error),
    };
    Ok(Fonts { regular, italic, bold })
}

/// The font family that `table` gives, nothing where it has no `fonts` key,
/// or the fault of what it gives.
fn fonts_of(table: &Table) -> (found: Result<Option<Fonts>, ConfigError>)
    ensures
        match found {
            Ok(fonts) => {
                &&& fonts_fault(table@) is None
                &&& crate::config::fonts_of(fonts) == fonts_given(table@)
            },
            Err(error) => fonts_fault(table@) == Some(error),
        },
{
    match table.get(Field::Fonts.key()) {
        None => Ok(None),
        Some(Item::Table(faces)) => match faces_of(faces) {
            Ok(fonts) => Ok(Some(fonts)),
            Err(error) => Err(error),
        },
        Some(_) => Err(ConfigError::TypeMismatch { field: Field::Fonts, expected: Kind::Table }),
    }
}

/// Reads the settings out of a document.
///
/// Returns the fault of the document if it has one, and otherwise settings
/// that hold every value the document gives and the fallback for each it
/// leaves out.
pub fn accept(table: &Table) -> (outcome: Result<Config, ConfigError>)
    ensures
        viewed(outcome) == accepted(table@),
{
    let path = match string_of(table, Field::Path) {
        Ok(Some(text)) => text,
        Ok(None) => crate::default::bin_path(),
        Err(error) => return Err(error),
    };
    let output_dir = match string_of(table, Field::OutputDir) {
        Ok(Some(text)) => text,
        Ok(None) => crate::default::output_dir(),
        Err(error) => return Err(error),
    };
    let layout = match string_of(table, Field::Layout) {
        Ok(text) => text,
        Err(error) => return Err(error),
    };
    let inline = match boolean_of(table, Field::Inline) {
        Ok(Some(flag)) => flag,
        Ok(None) => crate::default::inline(),
        Err(error) => return Err(error),
    };
    let theme = match string_of(table, Field::Theme) {
        Ok(text) => text,
        Err(error) => return Err(error),
    };
    let dark_theme = match string_of(table, Field::DarkTheme) {
        Ok(text) => text,
        Err(error) => return Err(error),
    };
    let fonts = match fonts_of(table) {
        Ok(fonts) => fonts,
        Err(error) => return Err(error),
    };
    Ok(Config { path, output_dir, layout, inline, fonts, theme, dark_theme })
}

/// Whether `field` stands at the top of a document and takes a string or a
/// boolean: every setting but `fonts` and the three faces inside it.
pub open spec fn plain(field: Field) -> bool {
    field == Field::Path || field == Field::OutputDir || field == Field::Layout || field
        == Field::Inline || field == Field::Theme || field == Field::DarkTheme
}

/// The place of a plain setting in the order in which they are looked at.
pub open spec fn rank(field: Field) -> int {
    match field {
        Field::Path => 0,
        Field::OutputDir => 1,
        Field::Layout => 2,
        Field::Inline => 3,
        Field::Theme => 4,
        _ => 5,
    }
}

/// No plain setting of `doc` has a value of the wrong kind.
pub open spec fn plain_settings_fit(doc: Map<Seq<char>, Node>) -> bool {
    forall|field: Field| plain(field) ==> !mistyped(doc, field)
}

/// The empty document is accepted, and stands for the fallback of every
/// setting that has one and for nothing else.
pub proof fn lemma_empty_document()
    ensures
        accepted(Map::<Seq<char>, Node>::empty()) == Ok::<ConfigView, ConfigError>(
            crate::config::default_view(),
        ),
{
}

/// A document that gives nothing but some of `path`, `output-dir` and
/// `inline`, each with a value of its kind, is accepted: what it gives is
/// taken as given, what it leaves out takes its fallback, and the settings
/// without fallback are absent.
pub proof fn lemma_defaults_fill_in(doc: Map<Seq<char>, Node>)
    requires
        forall|key: Seq<char>|
            doc.contains_key(key) ==> key == Field::Path.key_text() || key
                == Field::OutputDir.key_text() || key == Field::Inline.key_text(),
        !mistyped(doc, Field::Path),
        !mistyped(doc, Field::OutputDir),
        !mistyped(doc, Field::Inline),
    ensures
        accepted(doc) == Ok::<ConfigView, ConfigError>(
            ConfigView {
                path: if doc.contains_key(Field::Path.key_text()) {
                    doc[Field::Path.key_text()]->Text_0
                } else {
                    crate::default::d2()
                },
                output_dir: if doc.contains_key(Field::OutputDir.key_text()) {
                    doc[Field::OutputDir.key_text()]->Text_0
                } else {
                    crate::default::d2()
                },
                layout: None,
                inline: if doc.contains_key(Field::Inline.key_text()) {
                    doc[Field::Inline.key_text()]->Flag_0
                } else {
                    true
                },
                fonts: None,
                theme: None,
                dark_theme: None,
            },
        ),
{
    lemma_keys_apart();
}

/// The order in which two different keys are bound makes no difference to what
/// comes of reading the document.
pub proof fn lemma_order_is_irrelevant(
    doc: Map<Seq<char>, Node>,
    first: Seq<char>,
    first_node: Node,
    second: Seq<char>,
    second_node: Node,
)
    requires
        first != second,
    ensures
        accepted(doc.insert(first, first_node).insert(second, second_node)) == accepted(
            doc.insert(second, second_node).insert(first, first_node),
        ),
{
    assert(doc.insert(first, first_node).insert(second, second_node) =~= doc.insert(
        second,
        second_node,
    ).insert(first, first_node));
}

/// A key that names no setting at the top of a document is passed over.
pub proof fn lemma_unknown_key_is_ignored(doc: Map<Seq<char>, Node>, key: Seq<char>, node: Node)
    requires
        forall|field: Field| (plain(field) || field == Field::Fonts) ==> key != field.key_text(),
    ensures
        accepted(doc.insert(key, node)) == accepted(doc),
{
    assert(plain(Field::Path) && plain(Field::OutputDir) && plain(Field::Layout) && plain(
        Field::Inline,
    ) && plain(Field::Theme) && plain(Field::DarkTheme));
}

/// A plain setting with a value of the wrong kind has the document turned
/// down, and the fault names it, when no plain setting looked at before it
/// has a value of the wrong kind too.
pub proof fn lemma_wrong_kind_is_named(doc: Map<Seq<char>, Node>, field: Field)
    requires
        plain(field),
        mistyped(doc, field),
        forall|earlier: Field|
            plain(earlier) && rank(earlier) < rank(field) ==> !mistyped(doc, earlier),
    ensures
        accepted(doc) == Err::<ConfigView, ConfigError>(
            ConfigError::TypeMismatch { field, expected: field.kind_of() },
        ),
{
    assert(plain(Field::Path) && plain(Field::OutputDir) && plain(Field::Layout) && plain(
        Field::Inline,
    ) && plain(Field::Theme) && plain(Field::DarkTheme));
}

/// A value of the wrong kind for any plain setting has the document turned
/// down for a type mismatch, whatever else the document holds.
pub proof fn lemma_wrong_kind_is_refused(doc: Map<Seq<char>, Node>, field: Field)
    requires
        plain(field),
        mistyped(doc, field),
    ensures
        accepted(doc) is Err,
        accepted(doc)->Err_0 is TypeMismatch,
        mistyped(doc, accepted(doc)->Err_0->TypeMismatch_field),
{
}

/// A `fonts` table that lacks one of its three faces has the document turned
/// down for a missing field, and the fault names a face that is missing,
/// where the plain settings are of their kinds.
pub proof fn lemma_partial_fonts_are_refused(doc: Map<Seq<char>, Node>)
    requires
        plain_settings_fit(doc),
        doc.contains_key(Field::Fonts.key_text()),
        doc[Field::Fonts.key_text()] is Table,
        !doc[Field::Fonts.key_text()]->Table_0.contains_key(Field::Regular.key_text())
            || !doc[Field::Fonts.key_text()]->Table_0.contains_key(Field::Italic.key_text())
            || !doc[Field::Fonts.key_text()]->Table_0.contains_key(Field::Bold.key_text()),
    ensures
        accepted(doc) is Err,
        accepted(doc)->Err_0 is MissingField,
        !doc[Field::Fonts.key_text()]->Table_0.contains_key(
            accepted(doc)->Err_0->MissingField_field.key_text(),
        ),
{
    assert(plain(Field::Path) && plain(Field::OutputDir) && plain(Field::Layout) && plain(
        Field::Inline,
    ) && plain(Field::Theme) && plain(Field::DarkTheme));
}

/// A `fonts` table that gives each of its three faces as a string is read as
/// a font family of those three, where the plain settings are of their kinds.
pub proof fn lemma_whole_fonts_are_read(
    doc: Map<Seq<char>, Node>,
    regular: Seq<char>,
    italic: Seq<char>,
    bold: Seq<char>,
)
    requires
        plain_settings_fit(doc),
        doc.contains_key(Field::Fonts.key_text()),
        doc[Field::Fonts.key_text()] is Table,
        ({
            let faces = doc[Field::Fonts.key_text()]->Table_0;
            &&& faces.contains_key(Field::Regular.key_text())
            &&& faces.contains_key(Field::Italic.key_text())
            &&& faces.contains_key(Field::Bold.key_text())
            &&& faces[Field::Regular.key_text()] == Node::Text(regular)
            &&& faces[Field::Italic.key_text()] == Node::Text(italic)
            &&& faces[Field::Bold.key_text()] == Node::Text(bold)
        }),
    ensures
        accepted(doc) is Ok,
        accepted(doc)->Ok_0.fonts == Some(FontsView { regular, italic, bold }),
{
    assert(plain(Field::Path) && plain(Field::OutputDir) && plain(Field::Layout) && plain(
        Field::Inline,
    ) && plain(Field::Theme) && plain(Field::DarkTheme));
}

} // verus!
