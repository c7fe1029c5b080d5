//! Where Swifty may keep its configuration.

use vstd::prelude::*;

use crate::repository;
use crate::text;

verus! {

broadcast use vstd::string::group_string_axioms;

/// The system that Foxy runs on.
#[derive(Debug, Clone, Copy, PartialEq, Eq, Structural)]
pub enum Platform {
    Windows,
    Linux,
    Other,
}

/// What the system says of the user's folders.
#[derive(Debug)]
pub struct UserFolders {
    pub appdata: Option<String>,
    pub local_appdata: Option<String>,
    pub home: Option<String>,
    pub user: Option<String>,
    pub logname: Option<String>,
    pub xdg_config_home: Option<String>,
}

/// A folder: each piece lies in the one before it.
#[derive(Debug)]
pub struct CandidateDir {
    pub pieces: Vec<String>,
}

/// What folders are.
pub open spec fn dir_models(v: Seq<CandidateDir>) -> Seq<Seq<Seq<char>>> {
    Seq::new(v.len(), |i: int| text::views(v[i].pieces@))
}

/// `dirs` with a folder below `base`, if there is a base.
pub open spec fn with_dir(
    dirs: Seq<Seq<Seq<char>>>,
    base: Option<Seq<char>>,
    below: Seq<char>,
) -> Seq<Seq<Seq<char>>> {
    match base {
        Some(base) => dirs.push(seq![base, below]),
        None => dirs,
    }
}

/// The name of the user in a Wine prefix.
pub open spec fn wine_user(f: UserFolders) -> Seq<char> {
    match f.user {
        Some(user) => user@,
        None => match f.logname {
            Some(name) => name@,
            None => "user"@,
        },
    }
}

/// The folders below the home folder.
pub open spec fn home_dirs(
    dirs: Seq<Seq<Seq<char>>>,
    home: Option<Seq<char>>,
    user: Seq<char>,
) -> Seq<Seq<Seq<char>>> {
    match home {
        Some(home) => {
            let s = dirs.push(seq![home, ".config/Swifty"@]);
            let s = s.push(seq![home, ".local/share/Swifty"@]);
            let s = s.push(seq![home, ".swifty"@]);
            s.push(seq![home, ".wine/drive_c/users"@, user, "AppData/Roaming/Swifty"@])
        },
        None => dirs,
    }
}

/// The folders where Swifty may keep its configuration, in the order in which
/// they are searched.
pub open spec fn candidates(platform: Platform, f: UserFolders) -> Seq<Seq<Seq<char>>> {
    let none = Seq::<Seq<Seq<char>>>::empty();
    match platform {
        Platform::Windows => with_dir(
            with_dir(none, repository::opt_view(f.appdata), "Swifty"@),
            repository::opt_view(f.local_appdata),
            "Swifty"@,
        ),
        Platform::Linux => with_dir(
            home_dirs(none, repository::opt_view(f.home), wine_user(f)),
            repository::opt_view(f.xdg_config_home),
            "Swifty"@,
        ),
        Platform::Other => none,
    }
}

/// Adds a folder.
fn add_dir(dirs: &mut Vec<CandidateDir>, pieces: Vec<String>)
    ensures
        dir_models(final(dirs)@) == dir_models(old(dirs)@).push(text::views(pieces@)),
{
    let ghost before = dir_models(dirs@);
    let ghost said = text::views(pieces@);
    dirs.push(CandidateDir { pieces });
    assert(dir_models(dirs@) =~= before.push(said));
}

/// Adds a folder below another one.
fn add_below(dirs: &mut Vec<CandidateDir>, base: &String, below: &str)
    ensures
        dir_models(final(dirs)@) == dir_models(old(dirs)@).push(seq![base@, below@]),
{
    let pieces: Vec<String> = vec![base.clone(), below.to_owned()];
    assert(text::views(pieces@) =~= seq![base@, below@]);
    add_dir(dirs, pieces);
}

/// Return candidate directories where Swifty may store its config.
pub fn swifty_candidate_dirs(platform: Platform, folders: &UserFolders) -> (r: Vec<CandidateDir>)
    ensures
        dir_models(r@) == candidates(platform, *folders),
{
    let mut dirs: Vec<CandidateDir> = Vec::new();
    assert(dir_models(dirs@) =~= Seq::empty());
    match platform {
        Platform::Windows => {
            if let Some(appdata) = &folders.appdata {
                add_below(&mut dirs, appdata, "Swifty");
            }
            if let Some(local) = &folders.local_appdata {
                add_below(&mut dirs, local, "Swifty");
            }
        },
        Platform::Linux => {
            if let Some(home) = &folders.home {
                add_below(&mut dirs, home, ".config/Swifty");
                add_below(&mut dirs, home, ".local/share/Swifty");
                add_below(&mut dirs, home, ".swifty");
                let user: String = match &folders.user {
                    Some(user) => user.clone(),
                    None => match &folders.logname {
                        Some(name) => name.clone(),
                        None => "user".to_owned(),
                    },
                };
                let ghost name = user@;
                let pieces: Vec<String> = vec![
                    home.clone(),
                    ".wine/drive_c/users".to_owned(),
                    user,
                    "AppData/Roaming/Swifty".to_owned(),
                ];
                assert(text::views(pieces@) =~= seq![
                    home@,
                    ".wine/drive_c/users"@,
                    name,
                    "AppData/Roaming/Swifty"@,
                ]);
                add_dir(&mut dirs, pieces);
            }
            if let Some(xdg) = &folders.xdg_config_home {
                add_below(&mut dirs, xdg, "Swifty");
            }
        },
        Platform::Other => {},
    }
    dirs
}

/// Check whether any Swifty configuration exists on disk. `found` says for
/// each of the candidates whether its settings file is there.
pub fn swifty_data_exists(found: &Vec<bool>) -> (r: bool)
    ensures
        r == found@.contains(true),
{
    let mut i: usize = 0;
    while i < found.len()
        invariant
            i <= found@.len(),
            forall|j: int| 0 <= j < i ==> !found@[j],
        decreases found@.len() - i,
    {
        if found[i] {
            return true;
        }
        i = i + 1;
    }
    false
}

} // verus!
