use crate::errors::ApiError;
use vstd::prelude::*;

verus! {

/// The example collection a load falls back to when nothing was ever saved:
/// one folder of three requests showing query parameters, bearer-token auth
/// and custom headers. Returned verbatim; never written to disk by a load.
pub const DEFAULT_COLLECTIONS: &'static str = r#"[
  {
    "id": "folder-examples",
    "type": "folder",
    "name": "Exemplos de Recursos",
    "isOpen": true,
    "children": [
      {
        "id": "req-query",
        "type": "request",
        "method": "GET",
        "name": "Query Params (Busca)",
        "url": "https://dummyjson.com/products/search",
        "queryParams": [
            { "key": "q", "value": "phone", "active": true },
            { "key": "limit", "value": "5", "active": true }
        ],
        "headers": [],
        "body": ""
      },
      {
        "id": "req-auth",
        "type": "request",
        "method": "GET",
        "name": "Auth (Bearer Token)",
        "url": "https://httpbin.org/bearer",
        "auth": { "type": "bearer", "token": "meu-token-secreto" },
        "body": ""
      },
      {
        "id": "req-headers",
        "type": "request",
        "method": "GET",
        "name": "Custom Headers",
        "url": "https://httpbin.org/headers",
        "headers": [
            { "key": "X-Meu-Client", "value": "AeroClient/1.0", "active": true }
        ],
        "body": ""
      }
    ]
  }
]"#;

/// The text of the built-in example collection.
pub open spec fn default_collections_view() -> Seq<char> {
    DEFAULT_COLLECTIONS@
}

/// The built-in example collection, as an owned document.
pub fn default_collections() -> (r: String)
    ensures
        r@ == default_collections_view(),
{
    DEFAULT_COLLECTIONS.to_owned()
}

/// What a load returns, given what the read of the collections file
/// yielded: the file's text unchanged when the read succeeded, the built-in
/// default otherwise.
pub open spec fn load_view(read: Option<Seq<char>>) -> Seq<char> {
    match read {
        Some(c) => c,
        None => default_collections_view(),
    }
}

/// Decide what a load returns from what the read of the collections file
/// yielded (`None` standing for any failed read: absent directory, absent
/// file, unreadable contents). Never fails, returns the stored text
/// unchanged or the built-in default, and plans no write: a load never
/// creates the file.
pub fn load_document(read: Option<String>) -> (r: String)
    ensures
        read matches Some(c) ==> r == c,
        read is None ==> r@ == default_collections_view(),
        r@ == load_view(
            match read {
                Some(c) => Some(c@),
                None => None,
            },
        ),
{
    match read {
        Some(content) => content,
        None => default_collections(),
    }
}

/// The fixed name of the one collections file inside the per-user
/// application data directory.
pub fn collections_file_name() -> (r: String)
    ensures
        r@ == "collections.json"@,
{
    "collections.json".to_owned()
}

/// A decided save: which file to write and exactly what to write to it.
#[derive(Debug)]
pub struct SavePlan {
    /// The fixed file name inside the per-user application data directory.
    pub file_name: String,
    /// The full new contents of the file, replacing any prior contents.
    pub contents: String,
}

/// Decide a save: the document is written verbatim — byte for byte, with no
/// transformation — to the one fixed file name, wholly replacing any prior
/// contents.
pub fn plan_save(document: String) -> (r: SavePlan)
    ensures
        r.contents == document,
        r.file_name@ == "collections.json"@,
{
    SavePlan { file_name: collections_file_name(), contents: document }
}

/// Fold the outcome of a planned save into the store's result: a failure to
/// resolve or create the data directory surfaces first, then a failed
/// write, and only a clean write earns the fixed confirmation.
pub fn finish_save(dir_error: Option<String>, write_error: Option<String>) -> (r: Result<
    String,
    ApiError,
>)
    ensures
        dir_error matches Some(e) ==> r == Err::<String, ApiError>(
            ApiError::DirectoryResolutionFailure(e),
        ),
        dir_error is None ==> (write_error matches Some(e) ==> r == Err::<String, ApiError>(
            ApiError::FileIoFailure(e),
        )),
        dir_error is None && write_error is None ==> (r matches Ok(c) && c@
            == "Salvo com sucesso!"@),
{
    match dir_error {
        Some(e) => Err(ApiError::DirectoryResolutionFailure(e)),
        None => match write_error {
            Some(e) => Err(ApiError::FileIoFailure(e)),
            None => Ok("Salvo com sucesso!".to_owned()),
        },
    }
}

/// Round trip of the store: whatever document a save plans to write — and
/// `plan_save` writes it verbatim — a later read that hands those same
/// bytes back makes `load_document` return the document unchanged, byte for
/// byte, for every document including the empty and the non-ASCII one.
pub proof fn lemma_save_load_round_trip(contents: Seq<char>)
    ensures
        load_view(Some(contents)) == contents,
{
}

/// A load with nothing on disk yields exactly the built-in example
/// document; the read outcome is only consumed, so the load plans no write
/// and cannot create the file.
pub proof fn lemma_missing_file_yields_default()
    ensures
        load_view(None) == default_collections_view(),
{
}

} // verus!
