use vstd::prelude::*;

verus! {

/// The environment file that belongs to an environment name given on the
/// command line: `.env.development` for "development" or "dev",
/// `.env.production` for "production" or "prod", none for anything else.
pub open spec fn env_file_of(env: Seq<char>) -> Option<Seq<char>> {
    if env == "development"@ || env == "dev"@ {
        Some(".env.development"@)
    } else if env == "production"@ || env == "prod"@ {
        Some(".env.production"@)
    } else {
        None
    }
}

/// The environment file to load for an environment name.
pub fn env_file_for(env: &String) -> (r: Option<String>)
    ensures
        text_option_eq(r, env_file_of(env@)),
{
    if *env == String::from_str("development") || *env == String::from_str("dev") {
        Some(String::from_str(".env.development"))
    } else if *env == String::from_str("production") || *env == String::from_str("prod") {
        Some(String::from_str(".env.production"))
    } else {
        None
    }
}

/// An optional text has the given model.
pub open spec fn text_option_eq(t: Option<String>, m: Option<Seq<char>>) -> bool {
    match t {
        Some(s) => m == Some(s@),
        None => m is None,
    }
}

} // verus!
