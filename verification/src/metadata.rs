//! The package's name, version and authors, as the license text shows them.

use vstd::prelude::*;
use crate::document::{as_array, section, section_entries, table_entries, table_get, value_array, value_text, value_to_text};
use crate::error::LicenseError;
use crate::text::{dequote_str, dequoted, join_authors, joined_authors};

verus! {

/// What the license text says of the package. `authors` is one display
/// string, never a list.
#[derive(Debug)]
pub struct PackageInfo {
    pub name: String,
    pub version: String,
    pub authors: String,
}

/// What stands for a field that the manifest does not give.
pub open spec fn unknown() -> Seq<char> {
    "Unknown"@
}

/// A scalar field as shown: its text without the quotes, or the default.
pub open spec fn shown_text(text: Option<Seq<char>>) -> Seq<char> {
    match text {
        Some(t) => dequoted(t),
        None => unknown(),
    }
}

/// The authors as shown: the joined names, or the default.
pub open spec fn shown_authors(names: Option<Seq<Seq<char>>>) -> Seq<char> {
    match names {
        Some(n) => joined_authors(n),
        None => unknown(),
    }
}

/// The text of the value under `key`, if the table has that key and the
/// value has a text.
pub open spec fn field_text(entries: Map<Seq<char>, toml::Value>, key: Seq<char>) -> Option<
    Seq<char>,
> {
    if entries.contains_key(key) {
        value_text(entries[key])
    } else {
        None
    }
}

/// Whether each of `items` has a text.
pub open spec fn all_have_text(items: Seq<toml::Value>) -> bool {
    forall|i: int| 0 <= i < items.len() ==> value_text(#[trigger] items[i]) is Some
}

/// The texts of the items of `value`, if it is there, is an array, and each
/// of its items has a text.
pub open spec fn item_texts(value: Option<toml::Value>) -> Option<Seq<Seq<char>>> {
    match value {
        Some(v) => match value_array(v) {
            Some(items) => if all_have_text(items) {
                Some(items.map_values(|item: toml::Value| value_text(item).unwrap()))
            } else {
                None
            },
            None => None,
        },
        None => None,
    }
}

/// The value under `key`, if the table has that key.
pub open spec fn field_value(entries: Map<Seq<char>, toml::Value>, key: Seq<char>) -> Option<
    toml::Value,
> {
    if entries.contains_key(key) {
        Some(entries[key])
    } else {
        None
    }
}

/// Shows a scalar field: strips the quotes of its text, or gives
/// `"Unknown"` where the field is absent.
pub fn show_text(text: Option<String>) -> (r: String)
    ensures
        r@ == shown_text(
            match text {
                Some(t) => Some(t@),
                None => None,
            },
        ),
{
    match text {
        Some(t) => dequote_str(t),
        None => "Unknown".to_owned(),
    }
}

/// Shows the authors: joins their names, or gives `"Unknown"` where there is
/// no list of them.
pub fn show_authors(names: Option<Vec<String>>) -> (r: String)
    ensures
        r@ == shown_authors(
            match names {
                Some(n) => Some(n.deep_view()),
                None => None,
            },
        ),
{
    match names {
        Some(n) => join_authors(&n),
        None => "Unknown".to_owned(),
    }
}

impl PackageInfo {
    /// Builds the metadata from the texts found in the manifest. Each field
    /// depends on its own input alone: an absent one becomes `"Unknown"`
    /// whatever the others are.
    pub fn from_fields(
        name: Option<String>,
        version: Option<String>,
        authors: Option<Vec<String>>,
    ) -> (r: PackageInfo)
        ensures
            r.name@ == shown_text(
                match name {
                    Some(t) => Some(t@),
                    None => None,
                },
            ),
            r.version@ == shown_text(
                match version {
                    Some(t) => Some(t@),
                    None => None,
                },
            ),
            r.authors@ == shown_authors(
                match authors {
                    Some(n) => Some(n.deep_view()),
                    None => None,
                },
            ),
    {
        PackageInfo {
            name: show_text(name),
            version: show_text(version),
            authors: show_authors(authors),
        }
    }
}

/// The texts of the items of an array value; `None` where the value is
/// absent or no array, or where one of the items has no text.
pub fn author_texts(author_vec: Option<toml::Value>) -> (r: Option<Vec<String>>)
    ensures
        match r {
            Some(names) => item_texts(author_vec) == Some(names.deep_view()),
            None => item_texts(author_vec) is None,
        },
{
    match author_vec {
        Some(value) => match as_array(&value) {
            Some(items) => {
                let mut names: Vec<String> = Vec::new();
                let mut i: usize = 0;
                while i < items.len()
                    invariant
                        i <= items.len(),
                        names.len() == i,
                        author_vec == Some(value),
                        value_array(value) == Some(items@),
                        forall|j: int|
                            0 <= j < i ==> value_text(#[trigger] items@[j]) == Some(names@[j]@),
                    decreases items.len() - i,
                {
                    match value_to_text(&items[i]) {
                        Some(text) => names.push(text),
                        None => {
                            assert(value_text(items@[i as int]) is None);
                            assert(!all_have_text(items@));
                            return None;
                        },
                    }
                    i += 1;
                }
                proof {
                    assert(all_have_text(items@));
                    assert forall|j: int| 0 <= j < names.len() implies names.deep_view()[j]
                        == value_text(items@[j]).unwrap() by {
                        assert(value_text(items@[j]) == Some(names@[j]@));
                    }
                    assert(names.deep_view() =~= items@.map_values(
                        |item: toml::Value| value_text(item).unwrap(),
                    ));
                }
                Some(names)
            },
            None => None,
        },
        None => None,
    }
}

/// Formats the authors of a package into one display string: `"Unknown"`
/// where the value is absent or no array.
pub fn format_authors(author_vec: Option<toml::Value>) -> (r: String)
    ensures
        r@ == shown_authors(item_texts(author_vec)),
{
    show_authors(author_texts(author_vec))
}

/// The text of the value under `key` in `table`.
fn text_under(table: &toml::map::Map<String, toml::Value>, key: &str) -> (r: Option<String>)
    ensures
        match r {
            Some(t) => field_text(table_entries(*table), key@) == Some(t@),
            None => field_text(table_entries(*table), key@) is None,
        },
{
    match table_get(table, key) {
        Some(value) => value_to_text(&value),
        None => None,
    }
}

/// Reads name, version and authors out of the `package` table of a parsed
/// manifest. A document whose `package` entry is missing or is no table is
/// malformed.
pub fn extract_package_info(document: &toml::Value) -> (r: Result<PackageInfo, LicenseError>)
    ensures
        match r {
            Ok(info) => match section_entries(*document, "package"@) {
                Some(package) => {
                    &&& info.name@ == shown_text(field_text(package, "name"@))
                    &&& info.version@ == shown_text(field_text(package, "version"@))
                    &&& info.authors@ == shown_authors(
                        item_texts(field_value(package, "authors"@)),
                    )
                },
                None => false,
            },
            Err(e) => e == LicenseError::MalformedManifest && section_entries(
                *document,
                "package"@,
            ) is None,
        },
{
    match section(document, "package") {
        Some(package) => {
            let name = text_under(&package, "name");
            let version = text_under(&package, "version");
            let authors = author_texts(table_get(&package, "authors"));
            Ok(PackageInfo::from_fields(name, version, authors))
        },
        None => Err(LicenseError::MalformedManifest),
    }
}

/// A field that the `package` table lacks is shown as `"Unknown"`, whatever
/// the table holds under the other keys; so are authors that are no array,
/// and a field whose value has no text. Any other field is shown as its text
/// without the quotes.
pub proof fn lemma_absent_field_is_unknown(package: Map<Seq<char>, toml::Value>, key: Seq<char>)
    ensures
        !package.contains_key(key) ==> shown_text(field_text(package, key)) == unknown(),
        !package.contains_key(key) ==> shown_authors(item_texts(field_value(package, key)))
            == unknown(),
        package.contains_key(key) && value_array(package[key]) is None ==> shown_authors(
            item_texts(field_value(package, key)),
        ) == unknown(),
        package.contains_key(key) && value_text(package[key]) is None ==> shown_text(
            field_text(package, key),
        ) == unknown(),
        package.contains_key(key) && value_text(package[key]) is Some ==> shown_text(
            field_text(package, key),
        ) == dequoted(value_text(package[key]).unwrap()),
{
}

} // verus!
