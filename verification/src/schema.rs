//! The plan for compiling the node's protocol files into client code: where
//! the files lie, which files they are, and what the compiler is told.

use std::path::Path;
use vstd::prelude::*;

verus! {

/// The environment variable that names a checkout of the node's sources.
pub const OVERRIDE_VARIABLE: &'static str = "LND_REPO_DIR";

/// `std::str::Utf8Error`, which says where a byte string stops being UTF-8.
#[verifier::external_type_specification]
#[verifier::external_body]
pub struct ExUtf8Error(std::str::Utf8Error);

/// `std::str::from_utf8` accepts exactly the byte strings that are UTF-8, and
/// the text it returns is what they encode.
pub assume_specification[ std::str::from_utf8 ](v: &[u8]) -> (text: Result<
    &str,
    std::str::Utf8Error,
>)
    ensures
        text is Ok <==> vstd::utf8::valid_utf8(v@),
        text is Ok ==> text->Ok_0@ == vstd::utf8::decode_utf8(v@),
;

/// The path that the platform's rules make of `rel` adjoined to `base`.
pub uninterp spec fn joined(base: Seq<char>, rel: Seq<char>) -> Seq<char>;

/// `std::path::Path::join`, from text to text. Both parts are UTF-8, and so
/// is what joins them, so the way back to text loses nothing.
#[verifier::external_body]
fn join(base: &str, rel: &str) -> (path: String)
    ensures
        path@ == joined(base@, rel@),
{
    Path::new(base).join(rel).display().to_string()
}

/// Why no plan could be made.
#[derive(Debug, Clone, Copy, PartialEq, Eq, Structural)]
pub enum SchemaError {
    /// The override names a directory in bytes that are not UTF-8.
    InvalidEncoding,
}

impl SchemaError {
    /// The error in words.
    pub fn message(&self) -> (text: &'static str)
        ensures
            text@ == "LND_REPO_DIR must be a valid UTF-8 path"@,
    {
        match self {
            SchemaError::InvalidEncoding => "LND_REPO_DIR must be a valid UTF-8 path",
        }
    }
}

/// What the protocol compiler is told.
pub struct CompilerOptions {
    /// Whether client code is generated.
    pub build_client: bool,
    /// Whether server code is generated.
    pub build_server: bool,
    /// The protocol path whose types get the attribute; `.` is all of them.
    pub type_attribute_path: &'static str,
    /// The attribute put on each generated type.
    pub type_attribute: &'static str,
    /// The flag handed on to `protoc`.
    pub protoc_arg: &'static str,
}

/// Client code only, every generated type serialisable, and optional fields
/// of proto3 allowed.
pub fn compiler_options() -> (options: CompilerOptions)
    ensures
        options.build_client,
        !options.build_server,
        options.type_attribute_path@ == "."@,
        options.type_attribute@ == "#[derive(serde::Serialize, serde::Deserialize)]"@,
        options.protoc_arg@ == "--experimental_allow_proto3_optional"@,
{
    CompilerOptions {
        build_client: true,
        build_server: false,
        type_attribute_path: ".",
        type_attribute: "#[derive(serde::Serialize, serde::Deserialize)]",
        protoc_arg: "--experimental_allow_proto3_optional",
    }
}

/// The protocol files, as paths below the protocol directory, in the order in
/// which they are compiled.
pub open spec fn manifest_spec() -> Seq<Seq<char>> {
    seq![
        "autopilotrpc/autopilot.proto"@,
        "chainrpc/chainkit.proto"@,
        "chainrpc/chainnotifier.proto"@,
        "devrpc/dev.proto"@,
        "invoicesrpc/invoices.proto"@,
        "lightning.proto"@,
        "stateservice.proto"@,
        "walletunlocker.proto"@,
        "lnclipb/lncli.proto"@,
        "neutrinorpc/neutrino.proto"@,
        "peersrpc/peers.proto"@,
        "routerrpc/router.proto"@,
        "signrpc/signer.proto"@,
        "verrpc/verrpc.proto"@,
        "walletrpc/walletkit.proto"@,
        "watchtowerrpc/watchtower.proto"@,
        "wtclientrpc/wtclient.proto"@,
    ]
}

/// The protocol files.
pub fn manifest() -> (protos: Vec<&'static str>)
    ensures
        protos@.len() == manifest_spec().len(),
        forall|i: int| 0 <= i < protos@.len() ==> (#[trigger] protos@[i])@ == manifest_spec()[i],
{
    vec![
        "autopilotrpc/autopilot.proto",
        "chainrpc/chainkit.proto",
        "chainrpc/chainnotifier.proto",
        "devrpc/dev.proto",
        "invoicesrpc/invoices.proto",
        "lightning.proto",
        "stateservice.proto",
        "walletunlocker.proto",
        "lnclipb/lncli.proto",
        "neutrinorpc/neutrino.proto",
        "peersrpc/peers.proto",
        "routerrpc/router.proto",
        "signrpc/signer.proto",
        "verrpc/verrpc.proto",
        "walletrpc/walletkit.proto",
        "watchtowerrpc/watchtower.proto",
        "wtclientrpc/wtclient.proto",
    ]
}

/// The protocol directory: `lnrpc` below the override where there is one, the
/// bundled `vendor` where there is none; no directory where the override is
/// not text.
pub open spec fn proto_dir_spec(override_dir: Option<Seq<u8>>) -> Result<Seq<char>, SchemaError> {
    match override_dir {
        None => Ok("vendor"@),
        Some(bytes) => if vstd::utf8::valid_utf8(bytes) {
            Ok(joined(vstd::utf8::decode_utf8(bytes), "lnrpc"@))
        } else {
            Err(SchemaError::InvalidEncoding)
        },
    }
}

/// The bytes of an override, if there is one.
pub open spec fn override_bytes(override_dir: Option<&[u8]>) -> Option<Seq<u8>> {
    match override_dir {
        None => None,
        Some(bytes) => Some(bytes@),
    }
}

/// Finds the protocol directory from the override variable's value, given as
/// the bytes that the environment holds, or `None` where it is unset.
pub fn proto_dir(override_dir: Option<&[u8]>) -> (dir: Result<String, SchemaError>)
    ensures
        dir is Err <==> override_dir is Some && !vstd::utf8::valid_utf8(override_dir->Some_0@),
        match dir {
            Ok(text) => proto_dir_spec(override_bytes(override_dir)) == Ok::<
                Seq<char>,
                SchemaError,
            >(text@),
            Err(e) => proto_dir_spec(override_bytes(override_dir)) == Err::<Seq<char>, SchemaError>(
                e,
            ),
        },
{
    match override_dir {
        None => Ok("vendor".to_string()),
        Some(bytes) => match std::str::from_utf8(bytes) {
            Ok(text) => Ok(join(text, "lnrpc")),
            Err(_) => Err(SchemaError::InvalidEncoding),
        },
    }
}

/// The path of every protocol file of the manifest below `dir`, in the
/// manifest's order.
pub fn proto_paths(dir: &str) -> (paths: Vec<String>)
    ensures
        paths@.len() == manifest_spec().len(),
        forall|i: int|
            0 <= i < paths@.len() ==> (#[trigger] paths@[i])@ == joined(dir@, manifest_spec()[i]),
{
    let protos = manifest();
    let mut paths: Vec<String> = Vec::new();
    let mut i: usize = 0;
    while i < protos.len()
        invariant
            i <= protos@.len(),
            protos@.len() == manifest_spec().len(),
            forall|k: int| 0 <= k < protos@.len() ==> (#[trigger] protos@[k])@ == manifest_spec()[k],
            paths@.len() == i,
            forall|k: int|
                0 <= k < i ==> (#[trigger] paths@[k])@ == joined(dir@, manifest_spec()[k]),
        decreases protos@.len() - i,
    {
        paths.push(join(dir, protos[i]));
        i += 1;
    }
    paths
}

/// All that one compilation needs.
pub struct SchemaPlan {
    /// The protocol directory, which is also where imports are looked up.
    pub dir: String,
    /// The files to compile.
    pub proto_paths: Vec<String>,
    /// What the compiler is told.
    pub options: CompilerOptions,
}

impl SchemaPlan {
    /// The plan is the one for the protocol directory `dir`.
    pub open spec fn is_for(&self, dir: Seq<char>) -> bool {
        &&& self.dir@ == dir
        &&& self.proto_paths@.len() == manifest_spec().len()
        &&& forall|i: int|
            0 <= i < self.proto_paths@.len() ==> (#[trigger] self.proto_paths@[i])@ == joined(
                dir,
                manifest_spec()[i],
            )
        &&& self.options.build_client
        &&& !self.options.build_server
        &&& self.options.type_attribute_path@ == "."@
        &&& self.options.type_attribute@ == "#[derive(serde::Serialize, serde::Deserialize)]"@
        &&& self.options.protoc_arg@ == "--experimental_allow_proto3_optional"@
    }
}

/// Makes the plan from the override variable's value. An override that is not
/// text fails here, before any file is looked for; otherwise there is a plan,
/// and it is the one for the directory that the override decides.
pub fn plan(override_dir: Option<&[u8]>) -> (planned: Result<SchemaPlan, SchemaError>)
    ensures
        planned is Err <==> override_dir is Some && !vstd::utf8::valid_utf8(override_dir->Some_0@),
        match planned {
            Ok(p) => proto_dir_spec(override_bytes(override_dir)) is Ok && p.is_for(
                proto_dir_spec(override_bytes(override_dir))->Ok_0,
            ),
            Err(e) => proto_dir_spec(override_bytes(override_dir)) == Err::<Seq<char>, SchemaError>(
                e,
            ),
        },
{
    match proto_dir(override_dir) {
        Ok(dir) => {
            let proto_paths = proto_paths(dir.as_str());
            Ok(SchemaPlan { dir, proto_paths, options: compiler_options() })
        },
        Err(e) => Err(e),
    }
}

/// There is a protocol directory exactly when the override is unset or is
/// text. Unset, it is the bundled one; text, it is `lnrpc` below the override;
/// anything else fails on the encoding, and on nothing but the encoding.
pub proof fn lemma_directory_iff_text(override_dir: Option<Seq<u8>>)
    ensures
        proto_dir_spec(override_dir) is Ok <==> (override_dir is None || vstd::utf8::valid_utf8(
            override_dir->Some_0,
        )),
        override_dir is None ==> proto_dir_spec(override_dir) == Ok::<Seq<char>, SchemaError>(
            "vendor"@,
        ),
        proto_dir_spec(override_dir) is Err ==> proto_dir_spec(override_dir) == Err::<
            Seq<char>,
            SchemaError,
        >(SchemaError::InvalidEncoding),
{
}

/// A plan for a directory asks for the whole manifest and for nothing else:
/// seventeen files, each the manifest's entry of that place below the
/// directory, with client code and never server code. Two plans for one
/// directory therefore name the same files.
pub proof fn lemma_plan_names_the_manifest(first: SchemaPlan, second: SchemaPlan, dir: Seq<char>)
    requires
        first.is_for(dir),
        second.is_for(dir),
    ensures
        first.proto_paths@.len() == 17,
        first.options.build_client && !first.options.build_server,
        first.dir@ == second.dir@,
        first.proto_paths@.len() == second.proto_paths@.len(),
        forall|i: int|
            0 <= i < 17 ==> (#[trigger] first.proto_paths@[i])@ == second.proto_paths@[i]@,
{
}

} // verus!
