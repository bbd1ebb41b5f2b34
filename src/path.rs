use vstd::prelude::*;

verus! {

/// Where the login file is read from: the path given by the caller, else
/// the one in the override variable, else the platform's default.
pub open spec fn chosen_path(
    explicit: Option<Seq<char>>,
    env_override: Option<Seq<char>>,
    default_path: Seq<char>,
) -> Seq<char> {
    match explicit {
        Some(p) => p,
        None => match env_override {
            Some(e) => e,
            None => default_path,
        },
    }
}

/// Resolves the location of the login file from an explicit path, the value
/// of the override variable, and the platform's default path.
pub fn login_file_path(explicit: Option<String>, env_override: Option<String>, default_path: String) -> (r: String)
    ensures
        r@ == chosen_path(
            match explicit {
                Some(p) => Some(p@),
                None => None,
            },
            match env_override {
                Some(e) => Some(e@),
                None => None,
            },
            default_path@,
        ),
{
    match explicit {
        Some(p) => p,
        None => match env_override {
            Some(e) => e,
            None => default_path,
        },
    }
}

} // verus!
