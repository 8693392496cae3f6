use vstd::prelude::*;
use vstd::string::*;

verus! {

/// `rel` joined onto the directory `base`, as std::path::Path::join writes it.
pub uninterp spec fn joined_path(base: Seq<char>, rel: Seq<char>) -> Seq<char>;

/// Relies on std::path::Path::join; a path made from UTF-8 text converts
/// back to text unchanged.
#[verifier::external_body]
fn join_path(base: &str, rel: &str) -> (r: String)
    ensures
        r@ == joined_path(base@, rel@),
{
    std::path::Path::new(base).join(rel).to_string_lossy().into_owned()
}

/// The candidate locations of the configuration file, highest priority
/// first: three below or above the executable's directory `exe_dir`, three
/// from the working directory `cwd`, one beside the executable, and last a
/// bare `config.json`. Locations from a directory that is not known are left
/// out.
pub open spec fn candidates_spec(exe_dir: Option<Seq<char>>, cwd: Option<Seq<char>>) -> Seq<
    Seq<char>,
> {
    let near_exe = match exe_dir {
        Some(e) => seq![
            joined_path(e, "config/config.json"@),
            joined_path(e, "../config/config.json"@),
            joined_path(e, "../../config/config.json"@),
        ],
        None => Seq::empty(),
    };
    let from_cwd = match cwd {
        Some(c) => seq![
            joined_path(c, "config/config.json"@),
            joined_path(c, "../config/config.json"@),
            joined_path(c, "config.json"@),
        ],
        None => Seq::empty(),
    };
    let beside_exe = match exe_dir {
        Some(e) => seq![joined_path(e, "config.json"@)],
        None => Seq::empty(),
    };
    near_exe + from_cwd + beside_exe + seq!["config.json"@]
}

pub open spec fn strings_view(v: Seq<String>) -> Seq<Seq<char>> {
    v.map_values(|s: String| s@)
}

/// The candidate locations, in the order in which they are tried.
pub fn candidate_paths(exe_dir: Option<&str>, cwd: Option<&str>) -> (r: Vec<String>)
    ensures
        strings_view(r@) == candidates_spec(
            match exe_dir {
                Some(e) => Some(e@),
                None => None,
            },
            match cwd {
                Some(c) => Some(c@),
                None => None,
            },
        ),
{
    let ghost e_v = match exe_dir {
        Some(e) => Some(e@),
        None => None::<Seq<char>>,
    };
    let ghost c_v = match cwd {
        Some(c) => Some(c@),
        None => None::<Seq<char>>,
    };
    let ghost near_exe = match e_v {
        Some(e) => seq![
            joined_path(e, "config/config.json"@),
            joined_path(e, "../config/config.json"@),
            joined_path(e, "../../config/config.json"@),
        ],
        None => Seq::empty(),
    };
    let ghost from_cwd = match c_v {
        Some(c) => seq![
            joined_path(c, "config/config.json"@),
            joined_path(c, "../config/config.json"@),
            joined_path(c, "config.json"@),
        ],
        None => Seq::empty(),
    };
    let ghost beside_exe = match e_v {
        Some(e) => seq![joined_path(e, "config.json"@)],
        None => Seq::<Seq<char>>::empty(),
    };
    let mut r: Vec<String> = Vec::new();
    if let Some(e) = exe_dir {
        r.push(join_path(e, "config/config.json"));
        r.push(join_path(e, "../config/config.json"));
        r.push(join_path(e, "../../config/config.json"));
    }
    assert(strings_view(r@) =~= near_exe);
    if let Some(c) = cwd {
        r.push(join_path(c, "config/config.json"));
        r.push(join_path(c, "../config/config.json"));
        r.push(join_path(c, "config.json"));
    }
    assert(strings_view(r@) =~= near_exe + from_cwd);
    if let Some(e) = exe_dir {
        r.push(join_path(e, "config.json"));
    }
    assert(strings_view(r@) =~= near_exe + from_cwd + beside_exe);
    r.push(String::from_str("config.json"));
    assert(strings_view(r@) =~= near_exe + from_cwd + beside_exe + seq!["config.json"@]);
    r
}

} // verus!
