//! The package manifest: its descriptor and its extraction from a TOML text.

use vstd::prelude::*;

use crate::toml_doc::{
    doc_model, parse_toml, val_model, val_wf, value_as_str, value_get, value_is_table, ValModel,
};

verus! {

/// The parsed manifest: package metadata and the executable's relative path.
pub struct PackageDescriptor {
    pub name: String,
    pub version: String,
    pub author: String,
    pub executable: String,
    pub description: Option<String>,
}

/// Mathematical view of a [`PackageDescriptor`].
pub struct DescriptorView {
    pub name: Seq<char>,
    pub version: Seq<char>,
    pub author: Seq<char>,
    pub executable: Seq<char>,
    pub description: Option<Seq<char>>,
}

impl View for PackageDescriptor {
    type V = DescriptorView;

    open spec fn view(&self) -> DescriptorView {
        DescriptorView {
            name: self.name@,
            version: self.version@,
            author: self.author@,
            executable: self.executable@,
            description: match self.description {
                Some(d) => Some(d@),
                None => None,
            },
        }
    }
}

/// How a manifest document fails to yield a descriptor.
#[derive(PartialEq, Eq, Structural, Clone, Copy, Debug)]
pub enum ManifestFault {
    /// The text is not a well-formed TOML document.
    Syntax,
    /// The document is well-formed but a required field is missing, is not a
    /// string, or the declared executable is empty.
    Fields,
}

/// The string entries of the table a document's fields are read from: the
/// `package` table when the document has one, the document's root otherwise.
pub open spec fn field_strs_of(m: ValModel) -> Map<Seq<char>, Seq<char>> {
    if m.table_keys.contains("package"@) {
        m.subs["package"@]
    } else {
        m.strs
    }
}

/// All the keys of the table a document's fields are read from.
pub open spec fn field_keys_of(m: ValModel) -> Set<Seq<char>> {
    if m.table_keys.contains("package"@) {
        m.sub_keys["package"@]
    } else {
        m.keys
    }
}

/// The descriptor a field table yields: all of `name`, `version`, `author`
/// and `exec` must be present as strings, `exec` non-empty; `description`
/// may be absent, but when present it too must be a string.
pub open spec fn fields_of_table(strs: Map<Seq<char>, Seq<char>>, keys: Set<Seq<char>>) -> Option<
    DescriptorView,
> {
    if strs.dom().contains("name"@) && strs.dom().contains("version"@) && strs.dom().contains(
        "author"@,
    ) && strs.dom().contains("exec"@) && strs["exec"@].len() > 0 && (keys.contains("description"@)
        ==> strs.dom().contains("description"@)) {
        Some(
            DescriptorView {
                name: strs["name"@],
                version: strs["version"@],
                author: strs["author"@],
                executable: strs["exec"@],
                description: if strs.dom().contains("description"@) {
                    Some(strs["description"@])
                } else {
                    None
                },
            },
        )
    } else {
        None
    }
}

/// The descriptor a manifest text yields, when it yields one.
pub open spec fn manifest_fields_of(s: Seq<char>) -> Option<DescriptorView> {
    match doc_model(s) {
        None => None,
        Some(m) => fields_of_table(field_strs_of(m), field_keys_of(m)),
    }
}

/// Reads one string-valued field out of a table value.  Returns the field's
/// content exactly when the key holds a string.
fn read_str_field(t: &toml::Value, key: &str) -> (r: Option<String>)
    requires
        val_wf(val_model(*t)),
    ensures
        r is Some <==> val_model(*t).strs.dom().contains(key@),
        r matches Some(s) ==> s@ == val_model(*t).strs[key@],
{
    match value_get(t, key) {
        None => None,
        Some(u) => match value_as_str(u) {
            None => None,
            Some(s) => Some(s.to_owned()),
        },
    }
}

/// Reads an optional string field: its content when the key holds a string,
/// `None` when the key is absent, and a fault when the key holds anything
/// else.
fn read_opt_field(t: &toml::Value, key: &str) -> (r: Result<Option<String>, ManifestFault>)
    requires
        val_wf(val_model(*t)),
    ensures
        r is Err <==> (val_model(*t).is_table && val_model(*t).keys.contains(key@) && !val_model(
            *t,
        ).strs.dom().contains(key@)),
        r matches Ok(o) ==> (o is Some <==> val_model(*t).strs.dom().contains(key@)),
        r matches Ok(Some(s)) ==> s@ == val_model(*t).strs[key@],
        r matches Err(f) ==> f == ManifestFault::Fields,
{
    match value_get(t, key) {
        None => Ok(None),
        Some(u) => match value_as_str(u) {
            None => Err(ManifestFault::Fields),
            Some(s) => Ok(Some(s.to_owned())),
        },
    }
}

/// Builds the descriptor from the field table value.
fn fields_from_table(t: &toml::Value) -> (r: Result<PackageDescriptor, ManifestFault>)
    requires
        val_wf(val_model(*t)),
        val_model(*t).is_table,
    ensures
        r is Ok <==> fields_of_table(val_model(*t).strs, val_model(*t).keys) is Some,
        r matches Ok(d) ==> Some(d@) == fields_of_table(val_model(*t).strs, val_model(*t).keys),
        r matches Err(f) ==> f == ManifestFault::Fields,
{
    let name = read_str_field(t, "name");
    let version = read_str_field(t, "version");
    let author = read_str_field(t, "author");
    let executable = read_str_field(t, "exec");
    let description = match read_opt_field(t, "description") {
        Ok(d) => d,
        Err(f) => {
            return Err(f);
        },
    };
    match (name, version, author, executable) {
        (Some(name), Some(version), Some(author), Some(executable)) => {
            if executable.as_str().unicode_len() == 0 {
                Err(ManifestFault::Fields)
            } else {
                Ok(PackageDescriptor { name, version, author, executable, description })
            }
        },
        _ => Err(ManifestFault::Fields),
    }
}

/// Parses a manifest text and extracts the package descriptor.
///
/// Succeeds exactly when the text is a well-formed TOML document whose field
/// table — the `package` table if the document has one, the root otherwise —
/// declares `name`, `version`, `author` and a non-empty `exec` as strings;
/// the returned descriptor's fields are exactly the document's.  A failure
/// tells a syntactically malformed document apart from one with bad fields.
pub fn parse_manifest(content: &str) -> (r: Result<PackageDescriptor, ManifestFault>)
    ensures
        r is Ok <==> manifest_fields_of(content@) is Some,
        r matches Ok(d) ==> Some(d@) == manifest_fields_of(content@),
        r matches Err(f) ==> (f == ManifestFault::Syntax <==> doc_model(content@) is None),
{
    match parse_toml(content) {
        Err(_) => Err(ManifestFault::Syntax),
        Ok(root) => {
            let nested = value_get(&root, "package");
            match nested {
                Some(pkg) => {
                    if value_is_table(pkg) {
                        fields_from_table(pkg)
                    } else {
                        fields_from_table(&root)
                    }
                },
                None => fields_from_table(&root),
            }
        },
    }
}

} // verus!
