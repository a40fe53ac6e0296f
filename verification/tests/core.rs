use pentaract::FilesRouter;
use pentaract::download::download_response;
use pentaract::errors::ApiError;
use pentaract::errors::ServiceError;
use pentaract::errors::error_response;
use pentaract::errors::service_error_response;
use pentaract::ingest::FieldAction;
use pentaract::ingest::Ingestor;
use pentaract::ingest::UploadOutcome;
use pentaract::ingest::abort_upload;
use pentaract::ingest::complete_upload;
use pentaract::paths::join;
use pentaract::paths::leaf_name;
use pentaract::routing::Dispatch;
use pentaract::routing::Route;
use pentaract::routing::dispatch;
use pentaract::routing::parse_route;
use pentaract::routing::split_wildcard;
use pentaract::staging::new_temp_path;
use pentaract::text::str_eq;
use uuid::Uuid;

#[test]
fn construct_path_joins_directory_and_name() {
    let r = FilesRouter::construct_path("/docs", "hello.txt");
    assert_eq!(r, Ok("/docs/hello.txt".to_string()));
}

#[test]
fn construct_path_is_deterministic() {
    let a = FilesRouter::construct_path("/a/b", "c.txt");
    let b = FilesRouter::construct_path("/a/b", "c.txt");
    assert_eq!(a, b);
    assert_eq!(a, Ok("/a/b/c.txt".to_string()));
}

#[test]
fn construct_path_keeps_existing_separator() {
    assert_eq!(
        FilesRouter::construct_path("/docs/", "a.txt"),
        Ok("/docs/a.txt".to_string())
    );
}

#[test]
fn construct_path_with_empty_directory() {
    assert_eq!(FilesRouter::construct_path("", "a.txt"), Ok("a.txt".to_string()));
}

#[test]
fn construct_path_absolute_name_replaces_directory() {
    assert_eq!(
        FilesRouter::construct_path("/docs", "/abs.txt"),
        Ok("/abs.txt".to_string())
    );
}

#[test]
fn join_with_empty_name_appends_separator() {
    assert_eq!(join("/docs", ""), "/docs/".to_string());
}

#[test]
fn split_on_first_separator() {
    let (token, rest) = split_wildcard("tree/a/b");
    assert_eq!(token, "tree");
    assert_eq!(rest, "a/b");
    // the split loses no characters
    assert_eq!(format!("{}/{}", token, rest), "tree/a/b");
}

#[test]
fn split_without_separator_gives_empty_rest() {
    let (token, rest) = split_wildcard("plain");
    assert_eq!(token, "plain");
    assert_eq!(rest, "");
}

#[test]
fn split_keeps_trailing_separator_in_rest() {
    let (token, rest) = split_wildcard("search/root/");
    assert_eq!(token, "search");
    assert_eq!(rest, "root/");
}

#[test]
fn route_tokens_form_a_closed_set() {
    assert_eq!(parse_route("tree"), Route::Tree);
    assert_eq!(parse_route("download"), Route::Download);
    assert_eq!(parse_route("search"), Route::Search);
    assert_eq!(parse_route("trees"), Route::Unknown);
    assert_eq!(parse_route(""), Route::Unknown);
}

#[test]
fn dispatch_tree_takes_the_remainder() {
    let d = dispatch("tree/a/b", None);
    assert_eq!(d, Dispatch::Tree { subpath: "a/b".to_string() });
}

#[test]
fn dispatch_download_takes_the_remainder() {
    let d = dispatch("download/d/f.txt", None);
    assert_eq!(d, Dispatch::Download { subpath: "d/f.txt".to_string() });
}

#[test]
fn dispatch_search_passes_subpath_and_query() {
    let d = dispatch("search/root/", Some("report".to_string()));
    assert_eq!(
        d,
        Dispatch::Search { subpath: "root/".to_string(), query: "report".to_string() }
    );
}

#[test]
fn dispatch_search_without_query_is_unprocessable() {
    let d = dispatch("search/root/", None);
    assert_eq!(
        d,
        Dispatch::Reject {
            status: 422,
            message: "search_path query parameter is required".to_string(),
        }
    );
}

#[test]
fn dispatch_unknown_token_is_not_found() {
    let d = dispatch("unknown/x", None);
    assert_eq!(d, Dispatch::Reject { status: 404, message: "Not found".to_string() });
}

#[test]
fn upload_of_three_bytes_reports_three_bytes() {
    let sid = Uuid::new_v4();
    let mut ing = Ingestor::new();
    assert_eq!(ing.on_field_start(Some("file"), Some("hello.txt")), FieldAction::StreamToFile);
    assert_eq!(ing.on_file_chunk(b"abc"), Ok(()));
    assert_eq!(ing.on_field_start(Some("path"), None), FieldAction::CollectPath);
    assert_eq!(ing.on_path_field(b"/docs".to_vec()), Ok(()));
    let f = ing.finish_upload(sid).unwrap();
    assert_eq!(f.path, "/docs/hello.txt");
    assert_eq!(f.size, 3);
    assert_eq!(f.storage_id, sid);
}

#[test]
fn chunked_upload_accumulates_the_total() {
    let mut ing = Ingestor::new();
    ing.on_field_start(Some("file"), Some("big.dat"));
    assert_eq!(ing.on_file_chunk(b"ab"), Ok(()));
    assert_eq!(ing.on_file_chunk(b"c"), Ok(()));
    assert_eq!(ing.on_file_chunk(b"defg"), Ok(()));
    assert_eq!(ing.on_file_chunk(b""), Ok(()));
    assert_eq!(ing.size, 7);
}

#[test]
fn upload_without_file_field_is_rejected() {
    let sid = Uuid::new_v4();
    let mut ing = Ingestor::new();
    ing.on_field_start(Some("path"), None);
    ing.on_path_field(b"/docs".to_vec()).unwrap();
    let e = ing.finish_upload(sid).unwrap_err();
    assert_eq!(e, ApiError::MissingFile);
    assert_eq!(error_response(e), (400, "file field is required".to_string()));
}

#[test]
fn upload_without_path_field_is_rejected() {
    let sid = Uuid::new_v4();
    let mut ing = Ingestor::new();
    ing.on_field_start(Some("file"), Some("a.txt"));
    ing.on_file_chunk(b"x").unwrap();
    let e = ing.finish_upload(sid).unwrap_err();
    assert_eq!(e, ApiError::MissingPath);
    assert_eq!(error_response(e), (400, "path field is required".to_string()));
}

#[test]
fn path_field_that_is_not_utf8_is_rejected() {
    let mut ing = Ingestor::new();
    ing.on_field_start(Some("path"), None);
    let e = ing.on_path_field(vec![0xff, 0xfe]).unwrap_err();
    assert_eq!(e, ApiError::PathNotUtf8);
    assert_eq!(error_response(e), (400, "Path is not valid UTF-8".to_string()));
}

#[test]
fn unrelated_fields_are_ignored() {
    let mut ing = Ingestor::new();
    assert_eq!(ing.on_field_start(Some("comment"), None), FieldAction::Ignore);
    assert_eq!(ing.on_field_start(None, None), FieldAction::Ignore);
    assert_eq!(ing.size, 0);
    assert_eq!(ing.path, None);
    assert_eq!(ing.filename, None);
}

#[test]
fn file_field_without_name_defaults_to_unnamed() {
    let sid = Uuid::new_v4();
    let mut ing = Ingestor::new();
    ing.on_field_start(Some("file"), None);
    ing.on_file_chunk(b"x").unwrap();
    ing.on_field_start(Some("path"), None);
    ing.on_path_field(b"/d".to_vec()).unwrap();
    let f = ing.finish_upload(sid).unwrap();
    assert_eq!(f.path, "/d/unnamed");
}

#[test]
fn upload_to_with_empty_file_is_rejected() {
    let sid = Uuid::new_v4();
    let mut ing = Ingestor::new();
    ing.on_field_start(Some("file"), Some("a.txt"));
    ing.on_field_start(Some("path"), None);
    ing.on_path_field(b"/docs/a.txt".to_vec()).unwrap();
    let e = ing.finish_upload_to(sid, "/tmp/t".to_string()).unwrap_err();
    assert_eq!(e, ApiError::MissingFile);
    assert_eq!(error_response(e), (400, "file field is required".to_string()));
}

#[test]
fn upload_to_with_empty_file_and_no_path_is_rejected_the_same_way() {
    let sid = Uuid::new_v4();
    let ing = Ingestor::new();
    let e = ing.finish_upload_to(sid, "/tmp/t".to_string()).unwrap_err();
    assert_eq!(e, ApiError::MissingFile);
}

#[test]
fn upload_to_without_path_is_rejected() {
    let sid = Uuid::new_v4();
    let mut ing = Ingestor::new();
    ing.on_field_start(Some("file"), Some("a.txt"));
    ing.on_file_chunk(b"abc").unwrap();
    let e = ing.finish_upload_to(sid, "/tmp/t".to_string()).unwrap_err();
    assert_eq!(e, ApiError::MissingPath);
}

#[test]
fn upload_to_carries_the_resolved_destination() {
    let sid = Uuid::new_v4();
    let mut ing = Ingestor::new();
    ing.on_field_start(Some("file"), Some("a.txt"));
    ing.on_file_chunk(b"abc").unwrap();
    ing.on_field_start(Some("path"), None);
    ing.on_path_field(b"/docs/a.txt".to_vec()).unwrap();
    let s = ing.finish_upload_to(sid, "/scratch/upload_x.tmp".to_string()).unwrap();
    assert_eq!(s.storage_id, sid);
    assert_eq!(s.path, "/docs/a.txt");
    assert_eq!(s.size, 3);
    assert_eq!(s.temp_path, "/scratch/upload_x.tmp");
}

#[test]
fn every_failure_maps_to_exactly_one_response() {
    assert_eq!(
        error_response(ApiError::InvalidPath),
        (400, "Invalid path".to_string())
    );
    assert_eq!(
        error_response(ApiError::SizeOverflow),
        (500, "File size is out of range".to_string())
    );
    assert_eq!(
        error_response(ApiError::Multipart("bad frame".to_string())),
        (400, "Multipart error: bad frame".to_string())
    );
    assert_eq!(
        error_response(ApiError::ChunkRead("eof".to_string())),
        (400, "Failed to read chunk: eof".to_string())
    );
    assert_eq!(
        error_response(ApiError::PathRead("eof".to_string())),
        (400, "Failed to read path: eof".to_string())
    );
    assert_eq!(
        error_response(ApiError::CreateDir("denied".to_string())),
        (500, "Failed to create temp directory: denied".to_string())
    );
    assert_eq!(
        error_response(ApiError::CreateFile("denied".to_string())),
        (500, "Failed to create temp file: denied".to_string())
    );
    assert_eq!(
        error_response(ApiError::WriteFailed("disk full".to_string())),
        (500, "Failed to write to temp file: disk full".to_string())
    );
    assert_eq!(
        error_response(ApiError::FlushFailed("disk full".to_string())),
        (500, "Failed to flush temp file: disk full".to_string())
    );
}

#[test]
fn service_classification_is_kept() {
    assert_eq!(
        service_error_response(ServiceError::BadInput("bad".to_string())),
        (400, "bad".to_string())
    );
    assert_eq!(
        service_error_response(ServiceError::Missing("gone".to_string())),
        (404, "gone".to_string())
    );
    assert_eq!(
        service_error_response(ServiceError::Conflict("taken".to_string())),
        (409, "taken".to_string())
    );
    assert_eq!(
        service_error_response(ServiceError::Internal("oops".to_string())),
        (500, "oops".to_string())
    );
}

#[test]
fn successful_handoff_keeps_the_staged_file() {
    assert_eq!(complete_upload(Ok(())), UploadOutcome::Created);
}

#[test]
fn failed_handoff_cleans_up_and_answers_with_the_service_error() {
    let r = complete_upload(Err(ServiceError::Internal("db down".to_string())));
    assert_eq!(r, UploadOutcome::CleanupAndFail(500, "db down".to_string()));
}

#[test]
fn temp_paths_live_inside_the_scratch_directory() {
    let p = new_temp_path("/tmp/scratch");
    assert!(p.starts_with("/tmp/scratch/upload_"));
    assert!(p.ends_with(".tmp"));
    assert_eq!(p.len(), "/tmp/scratch/".len() + "upload_".len() + 36 + ".tmp".len());
}

#[test]
fn temp_paths_differ_between_attempts() {
    let a = new_temp_path("/tmp/scratch");
    let b = new_temp_path("/tmp/scratch");
    assert_ne!(a, b);
}

#[test]
fn temp_path_respects_a_trailing_separator() {
    let p = new_temp_path("/s/");
    assert!(p.starts_with("/s/upload_"));
    assert!(!p.starts_with("/s//"));
}

#[test]
fn download_names_the_file_and_guesses_its_type() {
    let r = download_response("docs/hello.txt", b"abc".to_vec());
    assert_eq!(r.content_type, "text/plain");
    assert_eq!(r.content_disposition, "attachment; filename=\"hello.txt\"");
    assert_eq!(r.body, b"abc".to_vec());
}

#[test]
fn download_without_leaf_falls_back_to_a_binary_attachment() {
    let r = download_response("a/..", vec![1, 2, 3]);
    assert_eq!(r.content_type, "application/octet-stream");
    assert_eq!(r.content_disposition, "attachment; filename=\"unnamed.bin\"");
    assert_eq!(r.body, vec![1, 2, 3]);
}

#[test]
fn download_ignores_a_trailing_separator() {
    let r = download_response("docs/", vec![1]);
    assert_eq!(r.content_type, "application/octet-stream");
    assert_eq!(r.content_disposition, "attachment; filename=\"docs\"");
}

#[test]
fn leaf_name_takes_the_last_named_component() {
    assert_eq!(leaf_name("a/b/c.txt"), "c.txt");
    assert_eq!(leaf_name("c.txt"), "c.txt");
    assert_eq!(leaf_name("a/b/"), "b");
    assert_eq!(leaf_name("foo.txt/."), "foo.txt");
    assert_eq!(leaf_name("a/./."), "a");
}

#[test]
fn leaf_name_falls_back_when_no_component_remains() {
    assert_eq!(leaf_name(""), "unnamed.bin");
    assert_eq!(leaf_name("/"), "unnamed.bin");
    assert_eq!(leaf_name("."), "unnamed.bin");
    assert_eq!(leaf_name("./"), "unnamed.bin");
    assert_eq!(leaf_name(".."), "unnamed.bin");
    assert_eq!(leaf_name("a/.."), "unnamed.bin");
    assert_eq!(leaf_name("a/../"), "unnamed.bin");
}

#[test]
fn failure_before_handoff_cleans_up_with_its_own_response() {
    let r = abort_upload(ApiError::WriteFailed("disk full".to_string()));
    assert_eq!(
        r,
        UploadOutcome::CleanupAndFail(500, "Failed to write to temp file: disk full".to_string())
    );
    let r = abort_upload(ApiError::MissingFile);
    assert_eq!(
        r,
        UploadOutcome::CleanupAndFail(400, "file field is required".to_string())
    );
}

#[test]
fn str_eq_compares_characters() {
    assert!(str_eq("tree", "tree"));
    assert!(!str_eq("tree", "trees"));
    assert!(!str_eq("tree", "tred"));
    assert!(str_eq("", ""));
}

#[test]
fn dispatch_bare_token_gets_an_empty_subpath() {
    let d = dispatch("tree", None);
    assert_eq!(d, Dispatch::Tree { subpath: "".to_string() });
}
