use vstd::prelude::*;

verus! {

/// The path that `std::path::Path::join` gives for `part` joined onto `base`.
pub uninterp spec fn joined_path(base: Seq<char>, part: Seq<char>) -> Seq<char>;

/// Relies on `std::path::Path::join`: `part` appended to `base` with the platform's separator
/// (or `part` alone, where it is absolute). Both are valid text, so the result is too.
#[verifier::external_body]
pub(crate) fn join_path(base: &str, part: &str) -> (r: String)
    ensures
        r@ == joined_path(base@, part@),
{
    std::path::Path::new(base).join(part).to_string_lossy().into_owned()
}

/// Relies on `std::path::Path::exists`: whether the filesystem holds an entry at `path`.
/// The answer depends on the disk, so nothing is promised of it.
#[verifier::external_body]
pub(crate) fn path_exists(path: &str) -> (r: bool)
{
    std::path::Path::new(path).exists()
}

/// Relies on `which::which`: the first executable file named `name` in the directories of
/// the `PATH` environment variable; `None` also where its path is not valid text. The answer
/// depends on the environment and the disk, so nothing is promised of it.
#[verifier::external_body]
pub(crate) fn locate_executable(name: &str) -> (r: Option<String>)
{
    which::which(name).ok().and_then(|p| p.into_os_string().into_string().ok())
}

} // verus!
