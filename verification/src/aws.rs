//! Where the credentials of the account are found, and under which profile.
//!
//! The caller reads the environment and the home directory and hands in what
//! it found. A path is given by its components, outermost first.

use vstd::prelude::*;

verus! {

/// The variable of the environment that names the file of credentials.
pub const CREDENTIALS_VARIABLE: &'static str = "AWS_CREDENTIALS";

/// The variable of the environment that names the profile.
pub const PROFILE_VARIABLE: &'static str = "AWS_PROFILE";

/// The file of credentials below the home directory `home`.
pub open spec fn spec_default_location(home: Seq<char>) -> Seq<Seq<char>> {
    seq![home, ".aws"@, "credentials"@]
}

/// `path` as the contracts see it.
pub open spec fn path_view(path: Seq<String>) -> Seq<Seq<char>> {
    Seq::new(path.len(), |i: int| path[i]@)
}

/// The file of credentials where the environment names none: the file
/// `credentials` in the directory `.aws` of the home directory, and a failure
/// where no home directory is known.
pub fn default_aws_creds_location(home: Option<String>) -> (location: Result<
    Vec<String>,
    &'static str,
>)
    ensures
        match home {
            Some(h) => location matches Ok(path) && path_view(path@) == spec_default_location(
                h@,
            ),
            None => location matches Err(reason) && reason@
                == "Failed to determine home directory."@,
        },
{
    match home {
        Some(home_path) => {
            let ghost h = home_path@;
            let path = vec![home_path, ".aws".to_owned(), "credentials".to_owned()];
            assert(path_view(path@) =~= spec_default_location(h));
            Ok(path)
        },
        None => Err("Failed to determine home directory."),
    }
}

/// The file of credentials: the one that the variable of the environment
/// names, where it is set and not empty, else the default.
pub fn aws_creds_location(variable: Option<String>, home: Option<String>) -> (location: Result<
    Vec<String>,
    &'static str,
>)
    ensures
        match variable {
            Some(value) if value@.len() > 0 => location matches Ok(path) && path_view(path@)
                == seq![value@],
            _ => match home {
                Some(h) => location matches Ok(path) && path_view(path@)
                    == spec_default_location(h@),
                None => location matches Err(reason) && reason@
                    == "Failed to determine home directory."@,
            },
        },
{
    match variable {
        Some(value) => {
            if !value.as_str().is_empty() {
                let ghost v = value@;
                let path = vec![value];
                assert(path_view(path@) =~= seq![v]);
                Ok(path)
            } else {
                default_aws_creds_location(home)
            }
        },
        None => default_aws_creds_location(home),
    }
}

/// The profile to use: the one that the variable of the environment names,
/// else `default`.
pub fn profile_name(variable: Option<String>) -> (name: String)
    ensures
        name@ == match variable {
            Some(value) => value@,
            None => "default"@,
        },
{
    match variable {
        Some(value) => value,
        None => "default".to_owned(),
    }
}

} // verus!
