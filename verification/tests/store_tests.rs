use project_store::json::metadata_json;
use project_store::store::create_project_plan;
use project_store::store::directory_creation_error;
use project_store::store::file_creation_error;
use project_store::store::metadata_file_path;
use project_store::store::read_error;
use project_store::store::save_error;
use project_store::store::serialization_error;
use project_store::store::write_error;
use project_store::store::ProjectMetadata;

#[test]
fn create_project_plan_example() {
    let (_, file_path, content) = create_project_plan("MyDiagram", "/tmp/proj1", "flowchart");
    assert_eq!(file_path, "/tmp/proj1/MyDiagram.json");
    let value: serde_json::Value = serde_json::from_str(&content).unwrap();
    assert_eq!(value.get("name").unwrap().as_str().unwrap(), "MyDiagram");
    assert_eq!(value.get("path").unwrap().as_str().unwrap(), "/tmp/proj1");
    assert_eq!(
        value.get("diagram_type").unwrap().as_str().unwrap(),
        "flowchart"
    );
}

#[test]
fn create_project_plan_record_holds_the_inputs() {
    let (record, _, content) = create_project_plan("N", "/p", "D");
    assert_eq!(record.name, "N");
    assert_eq!(record.path, "/p");
    assert_eq!(record.diagram_type, "D");
    assert_eq!(content, record.to_json());
}

#[test]
fn metadata_file_path_joins_with_json_suffix() {
    assert_eq!(
        metadata_file_path("/tmp/proj1", "MyDiagram"),
        "/tmp/proj1/MyDiagram.json"
    );
    assert_eq!(metadata_file_path("", ""), "/.json");
}

#[test]
fn project_metadata_methods_agree_with_free_functions() {
    let record = ProjectMetadata::new("MyDiagram", "/tmp/proj1", "flowchart");
    assert_eq!(record.file_path(), "/tmp/proj1/MyDiagram.json");
    assert_eq!(
        record.to_json(),
        metadata_json("MyDiagram", "/tmp/proj1", "flowchart")
    );
}

#[test]
fn directory_creation_error_text() {
    assert_eq!(
        directory_creation_error("Permission denied (os error 13)"),
        "Error al crear carpeta: Permission denied (os error 13)"
    );
}

#[test]
fn serialization_error_text() {
    assert_eq!(
        serialization_error("invalid data"),
        "Error al serializar JSON: invalid data"
    );
}

#[test]
fn file_creation_error_text() {
    assert_eq!(
        file_creation_error("Is a directory (os error 21)"),
        "Error al crear archivo: Is a directory (os error 21)"
    );
}

#[test]
fn write_error_text() {
    assert_eq!(
        write_error("No space left on device (os error 28)"),
        "Error al escribir en archivo: No space left on device (os error 28)"
    );
}

#[test]
fn save_error_text() {
    assert_eq!(
        save_error("No space left on device (os error 28)"),
        "Error al guardar archivo: No space left on device (os error 28)"
    );
}

#[test]
fn read_error_text() {
    assert_eq!(
        read_error("No such file or directory (os error 2)"),
        "Error al leer archivo: No such file or directory (os error 2)"
    );
}
