use vstd::prelude::*;

verus! {

/// The naming fields of an API description that manifest emission reads.
#[derive(Debug, Clone)]
pub struct Api {
    /// Name of the API's generated crates as a whole.
    pub crate_name: String,
    /// Package name of the generated client library.
    pub lib_crate_name: String,
    /// Version of the generated client library, set upstream.
    pub lib_crate_version: Option<String>,
    /// Package name of the generated command-line program.
    pub cli_crate_name: String,
    /// Version of the generated command-line program, set upstream.
    pub cli_crate_version: Option<String>,
    /// Name of the command-line program's binary.
    pub bin_name: String,
}

/// Layout conventions of a generated project.
#[derive(Debug, Clone)]
pub struct Standard {
    /// Path of the program's main source file, relative to its manifest.
    pub main_path: String,
}

/// One line of the `[dependencies]` table: `name = requirement`.
#[derive(Debug, Clone)]
pub struct Dependency {
    pub name: String,
    /// The TOML value that follows `=`, quotes and braces included.
    pub requirement: String,
}

/// A field that manifest emission needs but found unset.
#[derive(Debug, Clone, Copy, PartialEq, Eq, Structural)]
pub enum ManifestField {
    CliCrateVersion,
    LibCrateVersion,
}

/// Why a manifest could not be emitted.
#[derive(Debug, Clone, Copy, PartialEq, Eq, Structural)]
pub enum ManifestError {
    MissingField(ManifestField),
}

/// The naming fields of an [`Api`] as character sequences.
pub struct ApiView {
    pub crate_name: Seq<char>,
    pub lib_crate_name: Seq<char>,
    pub lib_crate_version: Option<Seq<char>>,
    pub cli_crate_name: Seq<char>,
    pub cli_crate_version: Option<Seq<char>>,
    pub bin_name: Seq<char>,
}

pub open spec fn version_view(v: Option<String>) -> Option<Seq<char>> {
    match v {
        Some(s) => Some(s@),
        None => None,
    }
}

/// The naming fields given to an API whose discovery document is called
/// `name` at `version`: the generated crates start at version 0.1.0.
pub open spec fn discovery_naming(name: Seq<char>, version: Seq<char>) -> ApiView {
    let base = name + version;
    ApiView {
        crate_name: base,
        lib_crate_name: "google_"@ + base,
        lib_crate_version: Some("0.1.0"@),
        cli_crate_name: "google_"@ + base + "_cli"@,
        cli_crate_version: Some("0.1.0"@),
        bin_name: base,
    }
}

impl Api {
    pub open spec fn view(&self) -> ApiView {
        ApiView {
            crate_name: self.crate_name@,
            lib_crate_name: self.lib_crate_name@,
            lib_crate_version: version_view(self.lib_crate_version),
            cli_crate_name: self.cli_crate_name@,
            cli_crate_version: version_view(self.cli_crate_version),
            bin_name: self.bin_name@,
        }
    }

    /// The description of the API named `name` at `version` in its
    /// discovery document.
    pub fn from_discovery(name: &str, version: &str) -> (r: Api)
        ensures
            r@ == discovery_naming(name@, version@),
    {
        let base = String::from_str(name).concat(version);
        let lib_crate_name = String::from_str("google_").concat(base.as_str());
        let cli_crate_name = lib_crate_name.clone().concat("_cli");
        Api {
            crate_name: base.clone(),
            lib_crate_name,
            lib_crate_version: Some(String::from_str("0.1.0")),
            cli_crate_name,
            cli_crate_version: Some(String::from_str("0.1.0")),
            bin_name: base,
        }
    }
}

impl Standard {
    pub open spec fn view(&self) -> Seq<char> {
        self.main_path@
    }
}

impl Dependency {
    pub open spec fn view(&self) -> (Seq<char>, Seq<char>) {
        (self.name@, self.requirement@)
    }
}

/// The dependencies every generated command-line project declares, in order.
pub open spec fn pinned_dependencies_spec() -> Seq<(Seq<char>, Seq<char>)> {
    seq![
        ("yup-oauth2"@, "\"^3.1\""@),
        ("google_api_auth"@, "{ git = \"https://github.com/octoml/generator\", features = [\"with-yup-oauth2\"], branch = \"octo_master\" }"@),
        ("clap"@, "\"^2.33\""@),
        ("serde_json"@, "\"1.0.40\""@),
        ("dirs"@, "\"2.0\""@),
        ("google_cli_shared"@, "{ git = \"https://github.com/octoml/generator\", version = \"0.1.0\", branch = \"octo_master\" }"@),
        ("default-boxed"@, "\"0.1.6\""@),
    ]
}

pub open spec fn dependencies_view(d: Seq<Dependency>) -> Seq<(Seq<char>, Seq<char>)> {
    d.map_values(|x: Dependency| x@)
}

fn dependency(name: &str, requirement: &str) -> (r: Dependency)
    ensures
        r@ == (name@, requirement@),
{
    Dependency { name: String::from_str(name), requirement: String::from_str(requirement) }
}

/// The pinned dependencies of a generated command-line project.
pub fn pinned_dependencies() -> (r: Vec<Dependency>)
    ensures
        dependencies_view(r@) == pinned_dependencies_spec(),
{
    let mut r: Vec<Dependency> = Vec::new();
    r.push(dependency("yup-oauth2", "\"^3.1\""));
    r.push(dependency("google_api_auth", "{ git = \"https://github.com/octoml/generator\", features = [\"with-yup-oauth2\"], branch = \"octo_master\" }"));
    r.push(dependency("clap", "\"^2.33\""));
    r.push(dependency("serde_json", "\"1.0.40\""));
    r.push(dependency("dirs", "\"2.0\""));
    r.push(dependency("google_cli_shared", "{ git = \"https://github.com/octoml/generator\", version = \"0.1.0\", branch = \"octo_master\" }"));
    r.push(dependency("default-boxed", "\"0.1.6\""));
    assert(dependencies_view(r@) =~= pinned_dependencies_spec());
    r
}

/// `name = requirement` on a line of its own, the line break coming first.
pub open spec fn dependency_line_spec(d: (Seq<char>, Seq<char>)) -> Seq<char> {
    "\n"@ + d.0 + " = "@ + d.1
}

/// The lines of `ds`, in order.
pub open spec fn dependency_lines_spec(ds: Seq<(Seq<char>, Seq<char>)>) -> Seq<char>
    decreases ds.len(),
{
    if ds.len() == 0 {
        Seq::empty()
    } else {
        dependency_lines_spec(ds.drop_last()) + dependency_line_spec(ds.last())
    }
}

pub open spec fn package_section(name: Seq<char>, version: Seq<char>) -> Seq<char> {
    "[package]\nname = \""@ + name + "\"\nversion = \""@ + version
        + "\"\nauthors = [\"Sebastian Thiel <byronimo@gmail.com>\"]\nedition = \"2018\"\n# for now, let's not even accidentally publish these\npublish = false\n\n"@
}

pub open spec fn bin_section(bin_name: Seq<char>, bin_path: Seq<char>) -> Seq<char> {
    "[[bin]]\nname = \""@ + bin_name + "\"\npath = \""@ + bin_path + "\"\n\n"@
}

/// The table that makes the program depend on its sibling library, found
/// by relative path and pinned to the library's version.
pub open spec fn sibling_dependency_spec(lib_name: Seq<char>, lib_version: Seq<char>) -> Seq<char> {
    "\n[dependencies."@ + lib_name + "]\npath = \"../lib\"\nversion = \""@ + lib_version + "\"\n"@
}

/// The `[dependencies]` table, its pinned lines, and the sibling's table.
pub open spec fn dependencies_section(lib_name: Seq<char>, lib_version: Seq<char>) -> Seq<char> {
    "[dependencies]"@ + dependency_lines_spec(pinned_dependencies_spec())
        + sibling_dependency_spec(lib_name, lib_version)
}

/// The manifest of the command-line project.
pub open spec fn manifest_text(
    crate_name: Seq<char>,
    crate_version: Seq<char>,
    bin_name: Seq<char>,
    bin_path: Seq<char>,
    lib_name: Seq<char>,
    lib_version: Seq<char>,
) -> Seq<char> {
    package_section(crate_name, crate_version) + bin_section(bin_name, bin_path)
        + dependencies_section(lib_name, lib_version)
}

/// What manifest emission yields for `api` with its main file at
/// `main_path`: the program's version is looked at first, then the library's.
pub open spec fn manifest_result(api: ApiView, main_path: Seq<char>) -> Result<Seq<char>, ManifestError> {
    match api.cli_crate_version {
        None => Err(ManifestError::MissingField(ManifestField::CliCrateVersion)),
        Some(cli_version) => match api.lib_crate_version {
            None => Err(ManifestError::MissingField(ManifestField::LibCrateVersion)),
            Some(lib_version) => Ok(
                manifest_text(
                    api.cli_crate_name,
                    cli_version,
                    api.bin_name,
                    main_path,
                    api.lib_crate_name,
                    lib_version,
                ),
            ),
        },
    }
}

/// The text of `dep` as a line of the `[dependencies]` table.
pub fn dependency_line(dep: &Dependency) -> (r: String)
    ensures
        r@ == dependency_line_spec(dep@),
{
    let mut r = String::from_str("\n");
    r.append(dep.name.as_str());
    r.append(" = ");
    r.append(dep.requirement.as_str());
    r
}

fn append_dependency_lines(doc: &mut String, deps: &Vec<Dependency>)
    ensures
        final(doc)@ == old(doc)@ + dependency_lines_spec(dependencies_view(deps@)),
{
    let ghost start = doc@;
    let mut i: usize = 0;
    while i < deps.len()
        invariant
            i <= deps.len(),
            doc@ == start + dependency_lines_spec(dependencies_view(deps@.subrange(0, i as int))),
        decreases deps.len() - i,
    {
        let line = dependency_line(&deps[i]);
        doc.append(line.as_str());
        proof {
            let next = dependencies_view(deps@.subrange(0, i + 1));
            assert(next.drop_last() =~= dependencies_view(deps@.subrange(0, i as int)));
            assert(next.last() == deps@[i as int]@);
        }
        i = i + 1;
    }
    assert(deps@.subrange(0, deps.len() as int) =~= deps@);
}

/// The table through which the program depends on its sibling library.
pub fn sibling_dependency(lib_name: &str, lib_version: &str) -> (r: String)
    ensures
        r@ == sibling_dependency_spec(lib_name@, lib_version@),
{
    let mut r = String::from_str("\n[dependencies.");
    r.append(lib_name);
    r.append("]\npath = \"../lib\"\nversion = \"");
    r.append(lib_version);
    r.append("\"\n");
    r
}

/// Emits the manifest of the command-line project for `api`, or names the
/// version field that was left unset. Nothing is emitted on failure.
pub fn cargo_toml(api: &Api, standard: &Standard) -> (r: Result<String, ManifestError>)
    ensures
        match r {
            Ok(text) => manifest_result(api@, standard@) == Ok::<Seq<char>, ManifestError>(text@),
            Err(e) => manifest_result(api@, standard@) == Err::<Seq<char>, ManifestError>(e),
        },
{
    let cli_version = match &api.cli_crate_version {
        Some(v) => v,
        None => {
            return Err(ManifestError::MissingField(ManifestField::CliCrateVersion));
        },
    };
    let lib_version = match &api.lib_crate_version {
        Some(v) => v,
        None => {
            return Err(ManifestError::MissingField(ManifestField::LibCrateVersion));
        },
    };
    let mut doc = String::from_str("[package]\nname = \"");
    doc.append(api.cli_crate_name.as_str());
    doc.append("\"\nversion = \"");
    doc.append(cli_version.as_str());
    doc.append(
        "\"\nauthors = [\"Sebastian Thiel <byronimo@gmail.com>\"]\nedition = \"2018\"\n# for now, let's not even accidentally publish these\npublish = false\n\n",
    );
    doc.append("[[bin]]\nname = \"");
    doc.append(api.bin_name.as_str());
    doc.append("\"\npath = \"");
    doc.append(standard.main_path.as_str());
    doc.append("\"\n\n");
    doc.append("[dependencies]");
    let pinned = pinned_dependencies();
    append_dependency_lines(&mut doc, &pinned);
    let sibling = sibling_dependency(api.lib_crate_name.as_str(), lib_version.as_str());
    doc.append(sibling.as_str());
    proof {
        assert(version_view(api.cli_crate_version) == Some(cli_version@));
        assert(version_view(api.lib_crate_version) == Some(lib_version@));
        let c = cli_version@;
        let l = lib_version@;
        assert(doc@ =~= manifest_text(
            api.cli_crate_name@,
            c,
            api.bin_name@,
            standard.main_path@,
            api.lib_crate_name@,
            l,
        ));
    }
    Ok(doc)
}

/// Manifest emission is a function of the naming fields alone: two
/// descriptions that agree on them yield the same text, or the same error.
pub proof fn lemma_manifest_deterministic(a1: Api, s1: Standard, a2: Api, s2: Standard)
    requires
        a1@ == a2@,
        s1@ == s2@,
    ensures
        manifest_result(a1@, s1@) == manifest_result(a2@, s2@),
{
}

/// An unset version makes emission fail with the field it lacks, and with
/// no text: the program's version is reported before the library's.
pub proof fn lemma_missing_version_fails(api: ApiView, main_path: Seq<char>)
    requires
        api.cli_crate_version is None || api.lib_crate_version is None,
    ensures
        api.cli_crate_version is None ==> manifest_result(api, main_path) == Err::<Seq<char>, ManifestError>(
            ManifestError::MissingField(ManifestField::CliCrateVersion),
        ),
        api.cli_crate_version is Some ==> manifest_result(api, main_path) == Err::<Seq<char>, ManifestError>(
            ManifestError::MissingField(ManifestField::LibCrateVersion),
        ),
{
}

/// The names of the pinned dependencies.
pub open spec fn pinned_names() -> Seq<Seq<char>> {
    pinned_dependencies_spec().map_values(|d: (Seq<char>, Seq<char>)| d.0)
}

/// Once both versions are set, the manifest's dependency section is the
/// `[dependencies]` header, one line for each pinned dependency (whose names
/// are distinct), in order, and then one table for the sibling library, named
/// by its package name and pinned to its version; nothing follows it.
pub proof fn lemma_dependency_declarations(api: ApiView, main_path: Seq<char>)
    requires
        api.cli_crate_version is Some,
        api.lib_crate_version is Some,
    ensures
        ({
            let lib_version = api.lib_crate_version->Some_0;
            let cli_version = api.cli_crate_version->Some_0;
            let head = package_section(api.cli_crate_name, cli_version) + bin_section(
                api.bin_name,
                main_path,
            );
            &&& manifest_result(api, main_path) == Ok::<Seq<char>, ManifestError>(
                head + "[dependencies]"@ + dependency_lines_spec(pinned_dependencies_spec())
                    + sibling_dependency_spec(api.lib_crate_name, lib_version),
            )
            &&& pinned_names().no_duplicates()
        }),
{
    reveal_strlit("yup-oauth2");
    reveal_strlit("google_api_auth");
    reveal_strlit("clap");
    reveal_strlit("serde_json");
    reveal_strlit("dirs");
    reveal_strlit("google_cli_shared");
    reveal_strlit("default-boxed");
    let names = pinned_names();
    assert(names =~= seq![
        "yup-oauth2"@,
        "google_api_auth"@,
        "clap"@,
        "serde_json"@,
        "dirs"@,
        "google_cli_shared"@,
        "default-boxed"@,
    ]);
    assert forall|i: int, j: int| 0 <= i < names.len() && 0 <= j < names.len() && i != j implies names[i]
        != names[j] by {
        assert(names[i][0] != names[j][0] || names[i].len() != names[j].len() || names[i][7] != names[j][7]);
    }
    let cli_version = api.cli_crate_version->Some_0;
    let lib_version = api.lib_crate_version->Some_0;
    let head = package_section(api.cli_crate_name, cli_version) + bin_section(api.bin_name, main_path);
    assert(manifest_text(api.cli_crate_name, cli_version, api.bin_name, main_path, api.lib_crate_name, lib_version)
        =~= head + "[dependencies]"@ + dependency_lines_spec(pinned_dependencies_spec())
        + sibling_dependency_spec(api.lib_crate_name, lib_version));
}

} // verus!
