//! Resolution of the companion server's entry-point path.
//!
//! The entry point lives in a fixed place relative to the shell executable,
//! but that place differs between a development tree and an installed
//! bundle. A path is modelled as the sequence of its components below the
//! filesystem root, so the resolution is pure arithmetic on component
//! sequences: drop the trailing components that lead down to the executable,
//! then descend into the server directory to the entry file.

use vstd::prelude::*;
use vstd::string::StringExecFns;

verus! {

/// Build-time deployment mode of the application shell, fixed for the
/// lifetime of the process.
#[derive(Clone, Copy, PartialEq, Eq, Debug, Structural)]
pub enum DeploymentMode {
    Development,
    Production,
}

/// Failure of path resolution.
#[derive(Clone, Copy, PartialEq, Eq, Debug, Structural)]
pub enum PathError {
    /// The executable path has fewer ancestors than the layout requires.
    Unresolvable,
}

/// Name of the directory that holds the companion server.
pub open spec fn server_dir() -> Seq<char> {
    "server"@
}

/// File name of the companion server's entry point.
pub open spec fn entry_file() -> Seq<char> {
    "app.cjs"@
}

/// Name of the bundled-resources directory of an installed application.
pub open spec fn resources_dir() -> Seq<char> {
    "Resources"@
}

/// How many trailing components of the executable path are dropped to reach
/// the directory the layout is rooted at: in development the executable's
/// file name and two build directories lead down from the project root; in
/// production the file name and the executable's own directory lead down
/// from the install directory.
pub open spec fn ancestor_levels(mode: DeploymentMode) -> int {
    match mode {
        DeploymentMode::Development => 3,
        DeploymentMode::Production => 2,
    }
}

/// The components that lead from the resolved root down to the entry file.
pub open spec fn mode_suffix(mode: DeploymentMode) -> Seq<Seq<char>> {
    match mode {
        DeploymentMode::Development => seq![server_dir(), entry_file()],
        DeploymentMode::Production => seq![resources_dir(), server_dir(), entry_file()],
    }
}

/// The entry-point path computed for a sufficiently deep executable path.
pub open spec fn resolved_path(mode: DeploymentMode, exe: Seq<Seq<char>>) -> Seq<Seq<char>> {
    exe.take(exe.len() - ancestor_levels(mode)) + mode_suffix(mode)
}

/// The textual form of an absolute component path: each component preceded
/// by one slash.
pub open spec fn joined(segments: Seq<Seq<char>>) -> Seq<char>
    decreases segments.len(),
{
    if segments.len() == 0 {
        Seq::empty()
    } else {
        joined(segments.drop_last()) + seq!['/'] + segments.last()
    }
}

/// Law: in development mode, resolution of any sufficiently deep executable
/// path yields the entry file inside the server directory, directly under
/// the project root: the executable path with its trailing ancestor
/// components dropped.
pub proof fn lemma_development_layout(exe: Seq<Seq<char>>)
    requires
        exe.len() >= ancestor_levels(DeploymentMode::Development),
    ensures
        ({
            let path = resolved_path(DeploymentMode::Development, exe);
            &&& path.len() == exe.len() - ancestor_levels(DeploymentMode::Development) + 2
            &&& path.last() == entry_file()
            &&& path[path.len() - 2] == server_dir()
            &&& path.take(path.len() - 2) == exe.take(
                exe.len() - ancestor_levels(DeploymentMode::Development),
            )
        }),
{
    let path = resolved_path(DeploymentMode::Development, exe);
    assert(path.take(path.len() - 2) =~= exe.take(
        exe.len() - ancestor_levels(DeploymentMode::Development),
    ));
}

/// Law: in production mode, resolution of any sufficiently deep executable
/// path yields the entry file inside the server directory, inside the
/// bundled-resources directory, directly under the install directory: the
/// executable path with its trailing ancestor components dropped.
pub proof fn lemma_production_layout(exe: Seq<Seq<char>>)
    requires
        exe.len() >= ancestor_levels(DeploymentMode::Production),
    ensures
        ({
            let path = resolved_path(DeploymentMode::Production, exe);
            &&& path.len() == exe.len() - ancestor_levels(DeploymentMode::Production) + 3
            &&& path.last() == entry_file()
            &&& path[path.len() - 2] == server_dir()
            &&& path[path.len() - 3] == resources_dir()
            &&& path.take(path.len() - 3) == exe.take(
                exe.len() - ancestor_levels(DeploymentMode::Production),
            )
        }),
{
    let path = resolved_path(DeploymentMode::Production, exe);
    assert(path.take(path.len() - 3) =~= exe.take(
        exe.len() - ancestor_levels(DeploymentMode::Production),
    ));
}

/// An absolute filesystem path to the companion server's entry point, held
/// as the sequence of its components below the filesystem root.
#[derive(Debug)]
pub struct ServerEntryPath {
    pub segments: Vec<String>,
}

impl View for ServerEntryPath {
    type V = Seq<Seq<char>>;

    open spec fn view(&self) -> Seq<Seq<char>> {
        self.segments.deep_view()
    }
}

impl ServerEntryPath {
    /// Renders the path as an absolute string, one slash before each
    /// component.
    pub fn to_path_string(&self) -> (rendered: String)
        ensures
            rendered@ == joined(self@),
    {
        let mut rendered = String::new();
        let mut i: usize = 0;
        while i < self.segments.len()
            invariant
                i <= self.segments.len(),
                rendered@ == joined(self@.take(i as int)),
            decreases self.segments.len() - i,
        {
            let ghost prefix = self@.take(i as int);
            rendered.append("/");
            rendered.append(self.segments[i].as_str());
            proof {
                reveal_strlit("/");
                assert("/"@ =~= seq!['/']);
                assert(self@.take(i as int + 1).drop_last() =~= prefix);
                assert(self@.take(i as int + 1).last() == self@[i as int]);
            }
            i = i + 1;
        }
        proof {
            assert(self@.take(self.segments.len() as int) =~= self@);
        }
        rendered
    }
}

/// Computes the filesystem path of the companion server's entry point from
/// the deployment mode and the components of the shell executable's own
/// absolute path.
///
/// In development the entry point is `server/app.cjs` under the project
/// root; in production it is `Resources/server/app.cjs` under the install
/// directory. When the executable path is too shallow for the mode's
/// layout, resolution fails with `PathError::Unresolvable` instead of
/// panicking, and the caller skips the launch.
pub fn resolve(mode: DeploymentMode, exe: &Vec<String>) -> (result: Result<
    ServerEntryPath,
    PathError,
>)
    ensures
        exe.deep_view().len() >= ancestor_levels(mode) ==> {
            &&& result is Ok
            &&& result->Ok_0@ == resolved_path(mode, exe.deep_view())
        },
        exe.deep_view().len() < ancestor_levels(mode) ==> result == Err::<
            ServerEntryPath,
            PathError,
        >(PathError::Unresolvable),
{
    let levels: usize = match mode {
        DeploymentMode::Development => 3,
        DeploymentMode::Production => 2,
    };
    if exe.len() < levels {
        return Err(PathError::Unresolvable);
    }
    let root_len: usize = exe.len() - levels;
    let mut segments: Vec<String> = Vec::new();
    let mut i: usize = 0;
    while i < root_len
        invariant
            i <= root_len,
            root_len <= exe@.len(),
            segments.deep_view() =~= exe.deep_view().take(i as int),
        decreases root_len - i,
    {
        let ghost prefix = segments.deep_view();
        segments.push(exe[i].clone());
        proof {
            assert(segments.deep_view() =~= prefix.push(exe.deep_view()[i as int]));
            assert(exe.deep_view().take(i as int + 1) =~= prefix.push(exe.deep_view()[i as int]));
        }
        i = i + 1;
    }
    let ghost root = exe.deep_view().take(root_len as int);
    if let DeploymentMode::Production = mode {
        let ghost before = segments.deep_view();
        segments.push("Resources".to_owned());
        proof {
            assert(segments.deep_view() =~= before.push(resources_dir()));
        }
    }
    let ghost with_dirs = segments.deep_view();
    segments.push("server".to_owned());
    proof {
        assert(segments.deep_view() =~= with_dirs.push(server_dir()));
    }
    let ghost with_server = segments.deep_view();
    segments.push("app.cjs".to_owned());
    proof {
        assert(segments.deep_view() =~= with_server.push(entry_file()));
        assert(segments.deep_view() =~= root + mode_suffix(mode));
    }
    Ok(ServerEntryPath { segments })
}

} // verus!
