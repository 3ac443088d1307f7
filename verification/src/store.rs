//! The project store's record and the texts its operations build: the
//! metadata file's location and the error messages reported to the caller.

use vstd::prelude::*;

use crate::json::metadata_json;
use crate::json::metadata_json_text;

verus! {

/// A project's metadata: its name, the directory that stores it, and a
/// free-form tag for the kind of diagram it holds.
pub struct ProjectMetadata {
    pub name: String,
    pub path: String,
    pub diagram_type: String,
}

impl ProjectMetadata {
    /// The record's invariant: `name` and `path` are non-empty. The store
    /// itself works for any strings; callers that honour the invariant get a
    /// metadata file with a non-empty file name inside a named directory.
    pub open spec fn wf(self) -> bool {
        self.name@.len() > 0 && self.path@.len() > 0
    }

    /// Builds the record from the caller's three strings.
    pub fn new(name: &str, path: &str, diagram_type: &str) -> (m: ProjectMetadata)
        ensures
            m.name@ == name@,
            m.path@ == path@,
            m.diagram_type@ == diagram_type@,
            m.wf() <==> (name@.len() > 0 && path@.len() > 0),
    {
        ProjectMetadata {
            name: String::from_str(name),
            path: String::from_str(path),
            diagram_type: String::from_str(diagram_type),
        }
    }

    /// The metadata document for this record. Serialization cannot fail:
    /// every record, whatever its strings hold, has a JSON text.
    pub fn to_json(&self) -> (r: String)
        ensures
            r@ == metadata_json_text(self.name@, self.path@, self.diagram_type@),
    {
        metadata_json(self.name.as_str(), self.path.as_str(), self.diagram_type.as_str())
    }

    /// Where this record's metadata file lives: `path` joined with `name`
    /// and the `.json` suffix.
    pub fn file_path(&self) -> (r: String)
        ensures
            r@ == metadata_path_text(self.path@, self.name@),
    {
        metadata_file_path(self.path.as_str(), self.name.as_str())
    }
}

/// The location of a project's metadata file: the project directory, a
/// separator, the project's name, and the fixed `.json` suffix.
pub open spec fn metadata_path_text(path: Seq<char>, name: Seq<char>) -> Seq<char> {
    path + "/"@ + name + ".json"@
}

/// Joins the project directory and name into the metadata file's path.
pub fn metadata_file_path(path: &str, name: &str) -> (r: String)
    ensures
        r@ == metadata_path_text(path@, name@),
{
    let mut out = String::new();
    out.append(path);
    out.append("/");
    out.append(name);
    out.append(".json");
    proof {
        assert(out@ =~= metadata_path_text(path@, name@));
    }
    out
}

/// Everything project creation computes before it touches the disk: the
/// record built from the caller's strings, the path of the metadata file,
/// and the JSON text to put there. The caller's I/O layer then makes the
/// directory, creates the file at `r.1` and writes `r.2` to it; on full
/// success the operation answers with `r.1`.
pub fn create_project_plan(name: &str, path: &str, diagram_type: &str) -> (r: (
    ProjectMetadata,
    String,
    String,
))
    ensures
        r.0.name@ == name@,
        r.0.path@ == path@,
        r.0.diagram_type@ == diagram_type@,
        r.1@ == metadata_path_text(path@, name@),
        r.2@ == metadata_json_text(name@, path@, diagram_type@),
{
    let m = ProjectMetadata::new(name, path, diagram_type);
    let file_path = m.file_path();
    let content = m.to_json();
    (m, file_path, content)
}

/// A message of the store, as the caller sees it: a fixed prefix naming the
/// failed step, then the underlying failure's own text.
pub open spec fn prefixed_text(prefix: Seq<char>, detail: Seq<char>) -> Seq<char> {
    prefix + detail
}

/// Reported when the project directory cannot be made.
pub fn directory_creation_error(detail: &str) -> (r: String)
    ensures
        r@ == prefixed_text("Error al crear carpeta: "@, detail@),
{
    let mut out = String::new();
    out.append("Error al crear carpeta: ");
    out.append(detail);
    out
}

/// Reported when the metadata record cannot be serialized. `to_json` shows
/// that serialization always succeeds, so the store itself never produces
/// this message; it stays for callers that serialize by other means.
pub fn serialization_error(detail: &str) -> (r: String)
    ensures
        r@ == prefixed_text("Error al serializar JSON: "@, detail@),
{
    let mut out = String::new();
    out.append("Error al serializar JSON: ");
    out.append(detail);
    out
}

/// Reported when the metadata file cannot be created.
pub fn file_creation_error(detail: &str) -> (r: String)
    ensures
        r@ == prefixed_text("Error al crear archivo: "@, detail@),
{
    let mut out = String::new();
    out.append("Error al crear archivo: ");
    out.append(detail);
    out
}

/// Reported when writing the metadata file's bytes fails.
pub fn write_error(detail: &str) -> (r: String)
    ensures
        r@ == prefixed_text("Error al escribir en archivo: "@, detail@),
{
    let mut out = String::new();
    out.append("Error al escribir en archivo: ");
    out.append(detail);
    out
}

/// Reported when saving a project document fails.
pub fn save_error(detail: &str) -> (r: String)
    ensures
        r@ == prefixed_text("Error al guardar archivo: "@, detail@),
{
    let mut out = String::new();
    out.append("Error al guardar archivo: ");
    out.append(detail);
    out
}

/// Reported when a project file cannot be read back.
pub fn read_error(detail: &str) -> (r: String)
    ensures
        r@ == prefixed_text("Error al leer archivo: "@, detail@),
{
    let mut out = String::new();
    out.append("Error al leer archivo: ");
    out.append(detail);
    out
}

} // verus!
