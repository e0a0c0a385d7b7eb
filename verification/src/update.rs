//! Rewriting the manifest so that it names the generated license file.

use vstd::prelude::*;
use crate::document::{as_table, entries_value, parsed_document, pretty_document, read_to_toml, section, section_entries, table_insert, table_into_value, table_remove, text_into_value, text_value, to_pretty_text, value_entries};
use crate::error::LicenseError;

verus! {

/// The `package` table after the update: without `license`, and with
/// `license-file` set to the file's name.
pub open spec fn updated_package(
    package: Map<Seq<char>, toml::Value>,
    filename: Seq<char>,
) -> Map<Seq<char>, toml::Value> {
    package.remove("license"@).insert("license-file"@, text_value(filename))
}

/// The document after the update: as before, but for its `package` table.
/// `None` where the document has no `package` table.
pub open spec fn updated_document(document: toml::Value, filename: Seq<char>) -> Option<
    toml::Value,
> {
    match (value_entries(document), section_entries(document, "package"@)) {
        (Some(top), Some(package)) => Some(
            entries_value(
                top.insert("package"@, entries_value(updated_package(package, filename))),
            ),
        ),
        _ => None,
    }
}

/// The manifest's new text: `Err` with the reason where there is none.
pub open spec fn updated_manifest(manifest: Seq<char>, filename: Seq<char>) -> Result<
    Seq<char>,
    LicenseError,
> {
    match parsed_document(manifest) {
        None => Err(LicenseError::ManifestParseError),
        Some(document) => match updated_document(document, filename) {
            None => Err(LicenseError::MalformedManifest),
            Some(updated) => match pretty_document(updated) {
                None => Err(LicenseError::SerializationError),
                Some(text) => Ok(text),
            },
        },
    }
}

/// Drops `license` from the `package` table of a document and sets its
/// `license-file` to `filename`. Fails where the document has no `package`
/// table.
pub fn update_document(document: toml::Value, filename: &str) -> (r: Result<
    toml::Value,
    LicenseError,
>)
    ensures
        match r {
            Ok(updated) => {
                &&& updated_document(document, filename@) == Some(updated)
                &&& section_entries(document, "package"@) is Some
                &&& section_entries(updated, "package"@) == Some(
                    updated_package(section_entries(document, "package"@).unwrap(), filename@),
                )
                &&& value_entries(document) is Some
                &&& value_entries(updated) is Some
                &&& value_entries(updated).unwrap().dom() == value_entries(
                    document,
                ).unwrap().dom()
                &&& forall|key: Seq<char>|
                    key != "package"@ && #[trigger] value_entries(document).unwrap().contains_key(
                        key,
                    ) ==> value_entries(updated).unwrap()[key] == value_entries(
                        document,
                    ).unwrap()[key]
            },
            Err(e) => e == LicenseError::MalformedManifest && updated_document(
                document,
                filename@,
            ) is None,
        },
{
    match section(&document, "package") {
        Some(package) => match as_table(&document) {
            Some(top) => {
                let mut package = package;
                let mut top = top;
                table_remove(&mut package, "license");
                table_insert(&mut package, "license-file", text_into_value(filename));
                table_insert(&mut top, "package", table_into_value(package));
                let updated = table_into_value(top);
                proof {
                    let before = value_entries(document).unwrap();
                    let after = value_entries(updated).unwrap();
                    assert(before.contains_key("package"@));
                    assert(after.dom() =~= before.dom());
                }
                Ok(updated)
            },
            None => Err(LicenseError::MalformedManifest),
        },
        None => Err(LicenseError::MalformedManifest),
    }
}

/// Prints a document as text in the pretty style.
pub fn print_document(document: &toml::Value) -> (r: Result<String, LicenseError>)
    ensures
        match r {
            Ok(text) => pretty_document(*document) == Some(text@),
            Err(e) => e == LicenseError::SerializationError && pretty_document(*document) is None,
        },
{
    match to_pretty_text(document) {
        Ok(text) => Ok(text),
        Err(_) => Err(LicenseError::SerializationError),
    }
}

/// Turns the text of a manifest into the text of the updated manifest: the
/// document is parsed, updated and printed again in the pretty style.
pub fn update_license_info(manifest: &str, filename: &str) -> (r: Result<String, LicenseError>)
    ensures
        match r {
            Ok(text) => updated_manifest(manifest@, filename@) == Ok::<Seq<char>, LicenseError>(
                text@,
            ),
            Err(e) => updated_manifest(manifest@, filename@) == Err::<Seq<char>, LicenseError>(e),
        },
{
    let document = read_to_toml(manifest)?;
    let updated = update_document(document, filename)?;
    print_document(&updated)
}

/// After the update the `package` table has no `license`, and its
/// `license-file` is the string value with the file's name, whatever the
/// table held before. Every other key keeps its value.
pub proof fn lemma_updated_package(package: Map<Seq<char>, toml::Value>, filename: Seq<char>)
    ensures
        !updated_package(package, filename).contains_key("license"@),
        updated_package(package, filename).contains_key("license-file"@),
        updated_package(package, filename)["license-file"@] == text_value(filename),
        forall|key: Seq<char>|
            key != "license"@ && key != "license-file"@ ==> (#[trigger] updated_package(
                package,
                filename,
            ).contains_key(key) <==> package.contains_key(key)) && (package.contains_key(key)
                ==> updated_package(package, filename)[key] == package[key]),
{
    reveal_strlit("license");
    reveal_strlit("license-file");
    assert("license"@.len() != "license-file"@.len());
}

/// Updating twice with the same file name changes nothing more.
pub proof fn lemma_update_idempotent(package: Map<Seq<char>, toml::Value>, filename: Seq<char>)
    ensures
        updated_package(updated_package(package, filename), filename) == updated_package(
            package,
            filename,
        ),
{
    lemma_updated_package(package, filename);
    assert(updated_package(updated_package(package, filename), filename) =~= updated_package(
        package,
        filename,
    ));
}

} // verus!
