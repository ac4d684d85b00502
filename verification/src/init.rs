//! The decisions of the `init` command.
//!
//! Initialising lays down the core files of the scaffold and makes sure that
//! the host project's manifest names the crates that the scaffold needs.
//! This module says which files go where and which dependencies are still
//! to be added; the caller holds the templates and touches the disk.

use vstd::prelude::*;
use vstd::string::*;
use crate::add::TargetDir;
use crate::components::{
    generate_resource_types_file, resource_types_content, ComponentError,
};
use crate::order::names_of;
use crate::text::same_text;

verus! {

/// The template that a core file is made from.
#[derive(Debug, Clone, Copy, PartialEq, Eq, Structural)]
pub enum CoreTemplate {
    /// The root module of the scaffold.
    Mod,
    /// The error types.
    Error,
    /// The identifier types.
    Ids,
    /// The parameter types.
    Params,
    /// The types common to the resources.
    ResourceTypes,
    /// The first resources manifest.
    ResourcesMod,
    /// The root module of the client.
    ClientMod,
    /// The retry strategy of the client.
    RequestStrategy,
    /// The client itself.
    StripeClient,
    /// The response helpers of the client.
    HttpClient,
}

/// One core file to write.
pub struct CoreFile {
    /// The directory that the file goes into.
    pub dir: TargetDir,
    /// The name of the file in that directory.
    pub file_name: String,
    /// The template that gives the content.
    pub template: CoreTemplate,
    /// The path shown to the operator.
    pub relative_path: String,
}

/// A core file as plain values.
pub struct CoreFileView {
    pub dir: TargetDir,
    pub file_name: Seq<char>,
    pub template: CoreTemplate,
    pub relative_path: Seq<char>,
}

impl View for CoreFile {
    type V = CoreFileView;

    open spec fn view(&self) -> CoreFileView {
        CoreFileView {
            dir: self.dir,
            file_name: self.file_name@,
            template: self.template,
            relative_path: self.relative_path@,
        }
    }
}

/// The views of a sequence of core files.
pub open spec fn core_files_of(v: Seq<CoreFile>) -> Seq<CoreFileView> {
    Seq::new(v.len(), |i: int| v[i]@)
}

/// The core files, in the order in which they are written.
pub open spec fn core_files() -> Seq<CoreFileView> {
    seq![
        CoreFileView {
            dir: TargetDir::Stripe,
            file_name: "mod.rs"@,
            template: CoreTemplate::Mod,
            relative_path: "stripe/mod.rs"@,
        },
        CoreFileView {
            dir: TargetDir::Stripe,
            file_name: "error.rs"@,
            template: CoreTemplate::Error,
            relative_path: "stripe/error.rs"@,
        },
        CoreFileView {
            dir: TargetDir::Stripe,
            file_name: "ids.rs"@,
            template: CoreTemplate::Ids,
            relative_path: "stripe/ids.rs"@,
        },
        CoreFileView {
            dir: TargetDir::Stripe,
            file_name: "params.rs"@,
            template: CoreTemplate::Params,
            relative_path: "stripe/params.rs"@,
        },
        CoreFileView {
            dir: TargetDir::Resources,
            file_name: "types.rs"@,
            template: CoreTemplate::ResourceTypes,
            relative_path: "stripe/resources/types.rs"@,
        },
        CoreFileView {
            dir: TargetDir::Resources,
            file_name: "mod.rs"@,
            template: CoreTemplate::ResourcesMod,
            relative_path: "stripe/resources/mod.rs"@,
        },
        CoreFileView {
            dir: TargetDir::Client,
            file_name: "mod.rs"@,
            template: CoreTemplate::ClientMod,
            relative_path: "stripe/client/mod.rs"@,
        },
        CoreFileView {
            dir: TargetDir::Client,
            file_name: "request_strategy.rs"@,
            template: CoreTemplate::RequestStrategy,
            relative_path: "stripe/client/request_strategy.rs"@,
        },
        CoreFileView {
            dir: TargetDir::Client,
            file_name: "stripe_client.rs"@,
            template: CoreTemplate::StripeClient,
            relative_path: "stripe/client/stripe_client.rs"@,
        },
        CoreFileView {
            dir: TargetDir::Client,
            file_name: "http_client.rs"@,
            template: CoreTemplate::HttpClient,
            relative_path: "stripe/client/http_client.rs"@,
        },
    ]
}

/// The core files to write, in order. The first failure ends the command.
pub fn write_core_files() -> (files: Vec<CoreFile>)
    ensures
        core_files_of(files@) == core_files(),
{
    let mut files: Vec<CoreFile> = Vec::new();
    files.push(
        CoreFile {
            dir: TargetDir::Stripe,
            file_name: String::from_str("mod.rs"),
            template: CoreTemplate::Mod,
            relative_path: String::from_str("stripe/mod.rs"),
        },
    );
    files.push(
        CoreFile {
            dir: TargetDir::Stripe,
            file_name: String::from_str("error.rs"),
            template: CoreTemplate::Error,
            relative_path: String::from_str("stripe/error.rs"),
        },
    );
    files.push(
        CoreFile {
            dir: TargetDir::Stripe,
            file_name: String::from_str("ids.rs"),
            template: CoreTemplate::Ids,
            relative_path: String::from_str("stripe/ids.rs"),
        },
    );
    files.push(
        CoreFile {
            dir: TargetDir::Stripe,
            file_name: String::from_str("params.rs"),
            template: CoreTemplate::Params,
            relative_path: String::from_str("stripe/params.rs"),
        },
    );
    files.push(
        CoreFile {
            dir: TargetDir::Resources,
            file_name: String::from_str("types.rs"),
            template: CoreTemplate::ResourceTypes,
            relative_path: String::from_str("stripe/resources/types.rs"),
        },
    );
    files.push(
        CoreFile {
            dir: TargetDir::Resources,
            file_name: String::from_str("mod.rs"),
            template: CoreTemplate::ResourcesMod,
            relative_path: String::from_str("stripe/resources/mod.rs"),
        },
    );
    files.push(
        CoreFile {
            dir: TargetDir::Client,
            file_name: String::from_str("mod.rs"),
            template: CoreTemplate::ClientMod,
            relative_path: String::from_str("stripe/client/mod.rs"),
        },
    );
    files.push(
        CoreFile {
            dir: TargetDir::Client,
            file_name: String::from_str("request_strategy.rs"),
            template: CoreTemplate::RequestStrategy,
            relative_path: String::from_str("stripe/client/request_strategy.rs"),
        },
    );
    files.push(
        CoreFile {
            dir: TargetDir::Client,
            file_name: String::from_str("stripe_client.rs"),
            template: CoreTemplate::StripeClient,
            relative_path: String::from_str("stripe/client/stripe_client.rs"),
        },
    );
    files.push(
        CoreFile {
            dir: TargetDir::Client,
            file_name: String::from_str("http_client.rs"),
            template: CoreTemplate::HttpClient,
            relative_path: String::from_str("stripe/client/http_client.rs"),
        },
    );
    proof {
        assert(core_files_of(files@) =~= core_files());
    }
    files
}

/// The content of the root module of the scaffold.
pub open spec fn mod_rs_content() -> Seq<char> {
    "//! Stripe API SDK for Rust\n\n//! This module contains automatically generated Stripe API bindings.\n\npub mod client;\n        pub mod error;\n        pub mod ids;\n        pub mod params;\n        pub mod resources;\n\n        pub use client::*;\n        pub use error::*;\n        pub use ids::*;\n        pub use params::*;\n        pub use resources::*;\n"@
}

/// The content of the first resources manifest.
pub open spec fn resources_mod_content() -> Seq<char> {
    "//! Stripe API resources\n\npub mod types;\npub use types::*;"@
}

/// The placeholder that stands in for a core file whose template the
/// store does not hold: one line that names the file.
pub open spec fn placeholder_content(relative_path: Seq<char>) -> Seq<char> {
    "//! Placeholder for "@ + relative_path + "\n"@
}

/// The name under which the template store holds a template; none for the
/// two files whose content is fixed.
pub open spec fn store_key_spec(template: CoreTemplate) -> Option<Seq<char>> {
    match template {
        CoreTemplate::Mod => None,
        CoreTemplate::ResourcesMod => None,
        CoreTemplate::Error => Some("error.rs"@),
        CoreTemplate::Ids => Some("ids.rs"@),
        CoreTemplate::Params => Some("params.rs"@),
        CoreTemplate::ResourceTypes => Some("resources/types.rs"@),
        CoreTemplate::ClientMod => Some("client/mod.rs"@),
        CoreTemplate::RequestStrategy => Some("client/request_strategy.rs"@),
        CoreTemplate::StripeClient => Some("client/stripe_client.rs"@),
        CoreTemplate::HttpClient => Some("client/http_client.rs"@),
    }
}

/// The content of a core file: fixed for the root module and the first
/// resources manifest; for the others what the store holds, and a
/// placeholder where it holds nothing.
pub open spec fn core_content_spec(
    template: CoreTemplate,
    relative_path: Seq<char>,
    stored: Option<Seq<char>>,
) -> Seq<char> {
    match template {
        CoreTemplate::Mod => mod_rs_content(),
        CoreTemplate::ResourcesMod => resources_mod_content(),
        CoreTemplate::ResourceTypes => match stored {
            Some(text) => text,
            None => resource_types_content(),
        },
        _ => match stored {
            Some(text) => text,
            None => placeholder_content(relative_path),
        },
    }
}

/// The content of the root module of the scaffold. The result is never
/// an error.
pub fn generate_mod_rs() -> (r: Result<&'static str, ComponentError>)
    ensures
        r matches Ok(content) && content@ == mod_rs_content(),
{
    Ok(
        "//! Stripe API SDK for Rust\n\n//! This module contains automatically generated Stripe API bindings.\n\npub mod client;\n        pub mod error;\n        pub mod ids;\n        pub mod params;\n        pub mod resources;\n\n        pub use client::*;\n        pub use error::*;\n        pub use ids::*;\n        pub use params::*;\n        pub use resources::*;\n",
    )
}

/// The content of the first resources manifest.
pub fn generate_resources_mod_rs() -> (content: String)
    ensures
        content@ == resources_mod_content(),
{
    String::from_str("//! Stripe API resources\n\npub mod types;\npub use types::*;")
}

/// The placeholder for the core file shown as `relative_path`.
pub fn generate_placeholder(relative_path: &str) -> (content: String)
    ensures
        content@ == placeholder_content(relative_path@),
{
    let mut content = String::from_str("//! Placeholder for ");
    content.append(relative_path);
    content.append("\n");
    content
}

/// The name under which the template store holds `template`.
pub fn store_key(template: CoreTemplate) -> (key: Option<&'static str>)
    ensures
        (match key {
            Some(k) => Some(k@),
            None => None,
        }) == store_key_spec(template),
{
    match template {
        CoreTemplate::Mod => None,
        CoreTemplate::ResourcesMod => None,
        CoreTemplate::Error => Some("error.rs"),
        CoreTemplate::Ids => Some("ids.rs"),
        CoreTemplate::Params => Some("params.rs"),
        CoreTemplate::ResourceTypes => Some("resources/types.rs"),
        CoreTemplate::ClientMod => Some("client/mod.rs"),
        CoreTemplate::RequestStrategy => Some("client/request_strategy.rs"),
        CoreTemplate::StripeClient => Some("client/stripe_client.rs"),
        CoreTemplate::HttpClient => Some("client/http_client.rs"),
    }
}

/// The content to write into the core file `file`, where `stored` is what
/// the template store holds under the file's key, if anything.
pub fn core_file_content(file: &CoreFile, stored: Option<String>) -> (content: String)
    ensures
        content@ == core_content_spec(
            file.template,
            file.relative_path@,
            match stored {
                Some(text) => Some(text@),
                None => None,
            },
        ),
{
    match file.template {
        CoreTemplate::Mod => String::from_str(generate_mod_rs().unwrap()),
        CoreTemplate::ResourcesMod => generate_resources_mod_rs(),
        CoreTemplate::ResourceTypes => match stored {
            Some(text) => text,
            None => generate_resource_types_file().unwrap(),
        },
        _ => match stored {
            Some(text) => text,
            None => generate_placeholder(file.relative_path.as_str()),
        },
    }
}

/// A crate that the scaffold needs in the host project's manifest.
pub struct Dependency {
    /// The name of the crate.
    pub name: String,
    /// The version requirement.
    pub version: String,
    /// The features to switch on, where any are needed.
    pub features: Option<Vec<String>>,
}

/// A dependency as plain values.
pub struct DependencyView {
    pub name: Seq<char>,
    pub version: Seq<char>,
    pub features: Option<Seq<Seq<char>>>,
}

impl View for Dependency {
    type V = DependencyView;

    open spec fn view(&self) -> DependencyView {
        DependencyView {
            name: self.name@,
            version: self.version@,
            features: match self.features {
                Some(f) => Some(names_of(f@)),
                None => None,
            },
        }
    }
}

/// The views of a sequence of dependencies.
pub open spec fn dependencies_of(v: Seq<Dependency>) -> Seq<DependencyView> {
    Seq::new(v.len(), |i: int| v[i]@)
}

/// The crates that the scaffold needs, in the order in which they are
/// added.
pub open spec fn required() -> Seq<DependencyView> {
    seq![
        DependencyView { name: "tokio"@, version: "1.28"@, features: Some(seq!["rt-multi-thread"@, "macros"@]) },
        DependencyView { name: "reqwest"@, version: "0.11"@, features: Some(seq!["json"@, "rustls-tls"@]) },
        DependencyView { name: "serde"@, version: "1.0"@, features: Some(seq!["derive"@]) },
        DependencyView { name: "serde_json"@, version: "1.0"@, features: None },
        DependencyView { name: "thiserror"@, version: "1.0"@, features: None },
        DependencyView { name: "smart-default"@, version: "0.7"@, features: None },
        DependencyView { name: "http-types"@, version: "2.12"@, features: None },
        DependencyView { name: "http"@, version: "1.3"@, features: None },
        DependencyView { name: "hyper"@, version: "1.6"@, features: None },
        DependencyView { name: "hyper-util"@, version: "0.1"@, features: None },
        DependencyView { name: "smol_str"@, version: "0.3"@, features: None },
        DependencyView { name: "futures-util"@, version: "0.3"@, features: None },
        DependencyView { name: "hyper-rustls"@, version: "0.27"@, features: None },
        DependencyView { name: "serde_path_to_error"@, version: "0.1"@, features: None },
        DependencyView { name: "serde_qs"@, version: "0.14"@, features: None },
    ]
}

/// The dependencies of `wanted` whose name is not among `present`, in their
/// order.
pub open spec fn missing(wanted: Seq<DependencyView>, present: Seq<Seq<char>>) -> Seq<
    DependencyView,
>
    decreases wanted.len(),
{
    if wanted.len() == 0 {
        seq![]
    } else {
        let before = missing(wanted.drop_last(), present);
        if present.contains(wanted.last().name) {
            before
        } else {
            before.push(wanted.last())
        }
    }
}

/// The crates that the scaffold needs, in the order in which they are
/// added.
pub fn required_dependencies() -> (deps: Vec<Dependency>)
    ensures
        dependencies_of(deps@) == required(),
{
    let mut deps: Vec<Dependency> = Vec::new();
    deps.push(featured_dependency("tokio", "1.28", "rt-multi-thread", Some("macros")));
    deps.push(featured_dependency("reqwest", "0.11", "json", Some("rustls-tls")));
    deps.push(featured_dependency("serde", "1.0", "derive", None));
    deps.push(plain_dependency("serde_json", "1.0"));
    deps.push(plain_dependency("thiserror", "1.0"));
    deps.push(plain_dependency("smart-default", "0.7"));
    deps.push(plain_dependency("http-types", "2.12"));
    deps.push(plain_dependency("http", "1.3"));
    deps.push(plain_dependency("hyper", "1.6"));
    deps.push(plain_dependency("hyper-util", "0.1"));
    deps.push(plain_dependency("smol_str", "0.3"));
    deps.push(plain_dependency("futures-util", "0.3"));
    deps.push(plain_dependency("hyper-rustls", "0.27"));
    deps.push(plain_dependency("serde_path_to_error", "0.1"));
    deps.push(plain_dependency("serde_qs", "0.14"));
    proof {
        assert(dependencies_of(deps@) =~= required());
    }
    deps
}

/// A dependency without features.
fn plain_dependency(name: &str, version: &str) -> (dep: Dependency)
    ensures
        dep@ == (DependencyView { name: name@, version: version@, features: None }),
{
    Dependency {
        name: String::from_str(name),
        version: String::from_str(version),
        features: None,
    }
}

/// A dependency with one feature or two.
fn featured_dependency(name: &str, version: &str, first: &str, second: Option<&str>) -> (dep:
    Dependency)
    ensures
        dep@ == (DependencyView {
            name: name@,
            version: version@,
            features: Some(
                match second {
                    Some(s) => seq![first@, s@],
                    None => seq![first@],
                },
            ),
        }),
{
    let mut features: Vec<String> = Vec::new();
    features.push(String::from_str(first));
    match second {
        Some(s) => {
            features.push(String::from_str(s));
        },
        None => {},
    }
    let dep = Dependency {
        name: String::from_str(name),
        version: String::from_str(version),
        features: Some(features),
    };
    proof {
        assert(dep@.features->0 =~= (match second {
            Some(s) => seq![first@, s@],
            None => seq![first@],
        }));
    }
    dep
}

/// Whether `name` is among `present`.
fn is_present(present: &Vec<String>, name: &str) -> (found: bool)
    ensures
        found == names_of(present@).contains(name@),
{
    let mut i: usize = 0;
    while i < present.len()
        invariant
            i <= present.len(),
            forall|j: int| 0 <= j < i ==> names_of(present@)[j] != name@,
        decreases present.len() - i,
    {
        if same_text(present[i].as_str(), name) {
            proof {
                assert(names_of(present@)[i as int] == name@);
            }
            return true;
        }
        i += 1;
    }
    false
}

/// The dependencies that are still to be added to a manifest whose
/// dependency table holds the keys `present`: the required ones that the
/// table does not name, in their order. A crate that the table names is left
/// as it is, whatever version it asks for.
pub fn missing_dependencies(present: &Vec<String>) -> (deps: Vec<Dependency>)
    ensures
        dependencies_of(deps@) == missing(required(), names_of(present@)),
{
    let wanted = required_dependencies();
    let mut deps: Vec<Dependency> = Vec::new();
    let ghost all = dependencies_of(wanted@);
    proof {
        assert(all.subrange(0, 0) =~= Seq::<DependencyView>::empty());
        assert(dependencies_of(deps@) =~= Seq::<DependencyView>::empty());
    }
    let mut rest = wanted;
    let mut i: usize = 0;
    let total = rest.len();
    while rest.len() > 0
        invariant
            i + rest.len() == total,
            total == all.len(),
            dependencies_of(rest@) == all.subrange(i as int, total as int),
            dependencies_of(deps@) == missing(all.subrange(0, i as int), names_of(present@)),
        decreases rest.len(),
    {
        let ghost before = dependencies_of(deps@);
        let ghost tail = dependencies_of(rest@);
        let dep = rest.remove(0);
        proof {
            assert(dep@ == tail[0]);
            assert(dep@ == all[i as int]);
            assert(dependencies_of(rest@) =~= all.subrange(i + 1, total as int)) by {
                assert forall|k: int| 0 <= k < rest@.len() implies dependencies_of(rest@)[k]
                    == all[i + 1 + k] by {
                    assert(tail[k + 1] == all[i + k + 1]);
                }
            }
            let upto = all.subrange(0, i + 1);
            assert(upto.drop_last() =~= all.subrange(0, i as int));
            assert(upto.last() == dep@);
        }
        if !is_present(present, dep.name.as_str()) {
            deps.push(dep);
            proof {
                assert(dependencies_of(deps@) =~= before.push(all[i as int]));
            }
        }
        i += 1;
    }
    proof {
        assert(all.subrange(0, total as int) =~= all);
    }
    deps
}

} // verus!
