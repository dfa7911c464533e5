use aero_client::ApiError;
use aero_client::default_collections;
use aero_client::finish_save;
use aero_client::load_document;
use aero_client::plan_save;

#[test]
fn save_plans_verbatim_write_to_fixed_file() {
    let p = plan_save(String::from("{\"a\":1}"));
    assert_eq!(p.file_name, "collections.json");
    assert_eq!(p.contents, "{\"a\":1}");
}

#[test]
fn save_then_load_returns_document_exactly() {
    let p = plan_save(String::from("{\"a\":1}"));
    let loaded = load_document(Some(p.contents));
    assert_eq!(loaded, "{\"a\":1}");
}

#[test]
fn round_trip_empty_and_non_ascii() {
    for doc in ["", "coleções ✓ — exemplo", "[1,2,3]", "not json at all"] {
        let p = plan_save(String::from(doc));
        assert_eq!(load_document(Some(p.contents)), doc);
    }
}

#[test]
fn load_without_file_returns_default() {
    let loaded = load_document(None);
    assert_eq!(loaded, default_collections());
    assert!(loaded.contains("Exemplos de Recursos"));
}

#[test]
fn default_document_has_one_folder_with_three_requests() {
    let doc = load_document(None);
    let v: serde_json::Value = serde_json::from_str(&doc).unwrap();
    let folders = v.as_array().unwrap();
    assert_eq!(folders.len(), 1);
    assert_eq!(folders[0]["type"], "folder");
    assert_eq!(folders[0]["name"], "Exemplos de Recursos");
    let children = folders[0]["children"].as_array().unwrap();
    assert_eq!(children.len(), 3);
    for child in children {
        assert_eq!(child["type"], "request");
    }
}

#[test]
fn save_success_confirmation() {
    let r = finish_save(None, None).unwrap();
    assert_eq!(r, "Salvo com sucesso!");
}

#[test]
fn save_write_failure_message() {
    let e = finish_save(None, Some(String::from("disk full"))).unwrap_err();
    assert_eq!(e, ApiError::FileIoFailure(String::from("disk full")));
    assert_eq!(e.message(), "Erro ao salvar: disk full");
}

#[test]
fn save_directory_failure_surfaces_first() {
    let e = finish_save(
        Some(String::from("no data dir")),
        Some(String::from("unused")),
    )
    .unwrap_err();
    assert_eq!(e, ApiError::DirectoryResolutionFailure(String::from("no data dir")));
    assert_eq!(e.message(), "no data dir");
}
