use lnd_grpc::schema::compiler_options;
use lnd_grpc::schema::manifest;
use lnd_grpc::schema::plan;
use lnd_grpc::schema::proto_dir;
use lnd_grpc::schema::proto_paths;
use lnd_grpc::schema::SchemaError;
use lnd_grpc::schema::OVERRIDE_VARIABLE;

fn expected_manifest() -> Vec<&'static str> {
    vec![
        "autopilotrpc/autopilot.proto",
        "chainrpc/chainkit.proto",
        "chainrpc/chainnotifier.proto",
        "devrpc/dev.proto",
        "invoicesrpc/invoices.proto",
        "lightning.proto",
        "stateservice.proto",
        "walletunlocker.proto",
        "lnclipb/lncli.proto",
        "neutrinorpc/neutrino.proto",
        "peersrpc/peers.proto",
        "routerrpc/router.proto",
        "signrpc/signer.proto",
        "verrpc/verrpc.proto",
        "walletrpc/walletkit.proto",
        "watchtowerrpc/watchtower.proto",
        "wtclientrpc/wtclient.proto",
    ]
}

#[test]
fn the_override_variable_has_its_name() {
    assert_eq!(OVERRIDE_VARIABLE, "LND_REPO_DIR");
}

#[test]
fn the_manifest_lists_the_protocol_files_in_order() {
    assert_eq!(manifest(), expected_manifest());
    assert_eq!(manifest().len(), 17);
}

#[test]
fn without_an_override_the_bundled_directory_is_used() {
    assert_eq!(proto_dir(None), Ok(String::from("vendor")));
}

#[test]
fn an_override_is_searched_below_lnrpc() {
    assert_eq!(proto_dir(Some(b"/src/lnd")), Ok(String::from("/src/lnd/lnrpc")));
    assert_eq!(proto_dir(Some(b"/src/lnd/")), Ok(String::from("/src/lnd/lnrpc")));
    assert_eq!(proto_dir(Some(b"checkout")), Ok(String::from("checkout/lnrpc")));
}

#[test]
fn an_empty_override_gives_the_bare_subdirectory() {
    assert_eq!(proto_dir(Some(b"")), Ok(String::from("lnrpc")));
}

#[test]
fn an_override_may_hold_text_beyond_ascii() {
    let dir = "/src/lnd-\u{e9}t\u{e9}";
    assert_eq!(proto_dir(Some(dir.as_bytes())), Ok(format!("{}/lnrpc", dir)));
}

#[test]
fn an_override_that_is_not_text_is_refused() {
    assert_eq!(proto_dir(Some(&[0x2f, 0xff, 0xfe])), Err(SchemaError::InvalidEncoding));
    assert_eq!(proto_dir(Some(&[0xc3])), Err(SchemaError::InvalidEncoding));
    assert_eq!(proto_dir(Some(&[0xed, 0xa0, 0x80])), Err(SchemaError::InvalidEncoding));
}

#[test]
fn the_encoding_error_says_what_is_wrong() {
    assert_eq!(
        SchemaError::InvalidEncoding.message(),
        "LND_REPO_DIR must be a valid UTF-8 path"
    );
}

#[test]
fn every_protocol_file_is_resolved_below_the_directory() {
    let paths = proto_paths("vendor");
    let expected: Vec<String> =
        expected_manifest().iter().map(|proto| format!("vendor/{}", proto)).collect();
    assert_eq!(paths, expected);
    assert_eq!(paths[0], "vendor/autopilotrpc/autopilot.proto");
    assert_eq!(paths[5], "vendor/lightning.proto");
    assert_eq!(paths[16], "vendor/wtclientrpc/wtclient.proto");
}

#[test]
fn paths_below_an_override_keep_its_prefix() {
    let paths = proto_paths("/src/lnd/lnrpc");
    assert_eq!(paths.len(), 17);
    assert_eq!(paths[11], "/src/lnd/lnrpc/routerrpc/router.proto");
    assert_eq!(paths[12], "/src/lnd/lnrpc/signrpc/signer.proto");
}

#[test]
fn only_client_code_is_asked_for() {
    let options = compiler_options();
    assert!(options.build_client);
    assert!(!options.build_server);
}

#[test]
fn every_generated_type_is_made_serialisable() {
    let options = compiler_options();
    assert_eq!(options.type_attribute_path, ".");
    assert_eq!(options.type_attribute, "#[derive(serde::Serialize, serde::Deserialize)]");
}

#[test]
fn optional_fields_of_proto3_are_allowed() {
    assert_eq!(compiler_options().protoc_arg, "--experimental_allow_proto3_optional");
}

#[test]
fn the_plan_without_an_override_is_for_the_bundled_directory() {
    let planned = plan(None);
    assert!(planned.is_ok());
    let planned = planned.unwrap();
    assert_eq!(planned.dir, "vendor");
    assert_eq!(planned.proto_paths, proto_paths("vendor"));
    assert!(planned.options.build_client);
    assert!(!planned.options.build_server);
}

#[test]
fn the_plan_with_an_override_is_for_its_lnrpc_subtree() {
    let planned = plan(Some(b"/src/lnd")).unwrap();
    assert_eq!(planned.dir, "/src/lnd/lnrpc");
    assert_eq!(planned.proto_paths.len(), 17);
    assert_eq!(planned.proto_paths[5], "/src/lnd/lnrpc/lightning.proto");
    assert_eq!(planned.proto_paths[14], "/src/lnd/lnrpc/walletrpc/walletkit.proto");
}

#[test]
fn no_plan_is_made_from_an_override_that_is_not_text() {
    let planned = plan(Some(&[0x66, 0x6f, 0x80, 0x6f]));
    assert!(matches!(planned, Err(SchemaError::InvalidEncoding)));
}
