use vstd::prelude::*;
use vstd::string::StringExecFns;

verus! {

/// Root of the registry's REST endpoints for one named project.
pub open spec fn spec_project_url(project: Seq<char>) -> Seq<char> {
    "https://papermc.io/api/v2/projects/"@ + project
}

/// Endpoint listing the builds of one version of a project.
pub open spec fn spec_version_url(project: Seq<char>, version: Seq<char>) -> Seq<char> {
    spec_project_url(project) + "/versions/"@ + version
}

/// Download location of the artifact for one build of one version:
/// `{project}/versions/{version}/builds/{build}/downloads/{project}-{version}-{build}.jar`.
pub open spec fn spec_download_url(project: Seq<char>, version: Seq<char>, build: Seq<char>) -> Seq<char> {
    spec_version_url(project, version) + "/builds/"@ + build + "/downloads/"@ + project + "-"@
        + version + "-"@ + build + ".jar"@
}

/// Names the artifact family in the registry and the workspace directory that
/// one supervised session owns.  The directory itself is created and removed
/// by the session around this type; the manager only derives names and
/// locations from the two fields.
pub struct ServerManager {
    project_name: String,
    folder_name: String,
}

impl ServerManager {
    /// The project identifier, as chars.
    pub closed spec fn project(&self) -> Seq<char> {
        self.project_name@
    }

    /// The workspace directory path, as chars.
    pub closed spec fn folder(&self) -> Seq<char> {
        self.folder_name@
    }

    pub fn new(project_name: &str, folder_name: &str) -> (r: Self)
        ensures
            r.project() == project_name@,
            r.folder() == folder_name@,
    {
        ServerManager { project_name: project_name.to_owned(), folder_name: folder_name.to_owned() }
    }

    /// URL of the registry endpoint that lists the project's versions.
    pub fn construct_project_url(&self) -> (r: String)
        ensures
            r@ == spec_project_url(self.project()),
    {
        let mut url = "https://papermc.io/api/v2/projects/".to_owned();
        url.append(self.project_name.as_str());
        url
    }

    /// URL of the registry endpoint that lists the builds of `version`.
    pub fn construct_version_url(&self, version: &str) -> (r: String)
        ensures
            r@ == spec_version_url(self.project(), version@),
    {
        let mut url = self.construct_project_url();
        url.append("/versions/");
        url.append(version);
        proof {
            assert(url@ =~= spec_version_url(self.project(), version@));
        }
        url
    }

    /// URL under which the artifact of `(version, build)` is downloaded.
    pub fn construct_download_url(&self, version: &str, build: &str) -> (r: String)
        ensures
            r@ == spec_download_url(self.project(), version@, build@),
    {
        let mut url = self.construct_version_url(version);
        url.append("/builds/");
        url.append(build);
        url.append("/downloads/");
        url.append(self.project_name.as_str());
        url.append("-");
        url.append(version);
        url.append("-");
        url.append(build);
        url.append(".jar");
        proof {
            assert(url@ =~= spec_download_url(self.project(), version@, build@));
        }
        url
    }

    /// Path of the license marker file inside the workspace.
    pub fn eula_file_path(&self) -> (r: String)
        ensures
            r@ == self.folder() + "/eula.txt"@,
    {
        let mut path = self.folder_name.clone();
        path.append("/eula.txt");
        path
    }

    /// Path under which the fetched artifact is stored inside the workspace.
    pub fn server_file_path(&self) -> (r: String)
        ensures
            r@ == self.folder() + "/server.jar"@,
    {
        let mut path = self.folder_name.clone();
        path.append("/server.jar");
        path
    }

    /// The exact line the license marker file must contain.
    pub fn eula_contents() -> (r: String)
        ensures
            r@ == "eula=true\n"@,
    {
        "eula=true\n".to_owned()
    }
}

/// Picks an entry of an interactive menu: the entry at `choice`, or nothing
/// when the index is out of range.
pub fn select_option(options: &Vec<String>, choice: usize) -> (r: Option<String>)
    ensures
        choice < options@.len() ==> (r matches Some(s) && s@ == options@[choice as int]@),
        choice >= options@.len() ==> r is None,
{
    if choice < options.len() {
        Some(options[choice].clone())
    } else {
        None
    }
}

/// Whether the operator's typed choice is one of the offered options; an
/// interactive picker accepts the input only when this holds.
pub fn contains_choice(options: &Vec<String>, choice: &str) -> (r: bool)
    ensures
        r == (exists|i: int| 0 <= i < options@.len() && options@[i]@ == choice@),
{
    let wanted = choice.to_owned();
    let mut i: usize = 0;
    while i < options.len()
        invariant
            i <= options@.len(),
            wanted@ == choice@,
            forall|j: int| 0 <= j < i ==> options@[j]@ != choice@,
        decreases options@.len() - i,
    {
        if options[i] == wanted {
            return true;
        }
        i += 1;
    }
    false
}

/// The list of build identifiers returned by the registry is ordered oldest
/// first; when the operator makes no explicit choice, the last entry is
/// treated as the most recent and is selected by default.
pub fn default_build(builds: &Vec<String>) -> (r: Option<String>)
    ensures
        builds@.len() == 0 ==> r is None,
        builds@.len() > 0 ==> (r matches Some(b) && b@ == builds@.last()@),
{
    if builds.len() == 0 {
        None
    } else {
        Some(builds[builds.len() - 1].clone())
    }
}

} // verus!
