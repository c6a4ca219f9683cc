//! Profiles of mods, and the listing of the repository that holds them.

use vstd::prelude::*;

verus! {

/// A named list of mod identifiers.
#[derive(Clone, Debug)]
pub struct Profile {
    pub name: String,
    pub mods: Vec<String>,
}

impl Profile {
/// The profile with the given name and mods.
    pub fn new(name: String, mods: Vec<String>) -> (profile: Profile)
        ensures
            profile.name == name,
            profile.mods == mods,
    {
        Profile { name, mods }
    }
}

/// One entry in the listing of a repository's contents.
#[derive(Clone, Debug)]
pub enum RepoContent {
    File { name: String, path: String, content_type: String, download_url: Option<String> },
    Directory { name: String, path: String, content_type: String },
}

/// The number of entries at the front of `contents` that are no files.
pub open spec fn entries_before_first_file(contents: Seq<RepoContent>) -> nat
    decreases contents.len(),
{
    if contents.len() == 0 || contents[0] is File {
        0
    } else {
        1 + entries_before_first_file(contents.drop_first())
    }
}

/// The address from which the profile is fetched: that of the first file in
/// the listing, if the listing has a file and gives an address for it.
pub open spec fn profile_address(contents: Seq<RepoContent>) -> Option<Seq<char>> {
    let at = entries_before_first_file(contents) as int;
    if at < contents.len() {
        match contents[at] {
            RepoContent::File { download_url: Some(address), .. } => Some(address@),
            _ => None,
        }
    } else {
        None
    }
}

/// The address from which the profile is fetched, given the listing of the
/// repository.
pub fn first_file_url(contents: &Vec<RepoContent>) -> (address: Option<String>)
    ensures
        address.deep_view() == profile_address(contents@),
{
    let mut i: usize = 0;
    assert(contents@.skip(0) =~= contents@);
    while i < contents.len()
        invariant
            i <= contents.len(),
            entries_before_first_file(contents@) == i + entries_before_first_file(
                contents@.skip(i as int),
            ),
        decreases contents.len() - i,
    {
        proof {
            assert(contents@.skip(i as int)[0] == contents@[i as int]);
            assert(contents@.skip(i as int).drop_first() =~= contents@.skip(i + 1));
        }
        match &contents[i] {
            RepoContent::File { download_url, .. } => {
                return match download_url {
                    Some(address) => Some(address.clone()),
                    None => None,
                };
            },
            RepoContent::Directory { .. } => {},
        }
        i += 1;
    }
    None
}

/// The address of the listing of a repository's contents.
pub open spec fn contents_address(owner: Seq<char>, repository: Seq<char>) -> Seq<char> {
    "https://api.github.com/repos/"@ + owner + "/"@ + repository + "/contents"@
}

/// The address of the listing of a repository's contents.
pub fn contents_url(owner: &str, repository: &str) -> (address: String)
    ensures
        address@ == contents_address(owner@, repository@),
{
    let mut address = "https://api.github.com/repos/".to_string();
    address.append(owner);
    address.append("/");
    address.append(repository);
    address.append("/contents");
    address
}

/// The address of the listing of the repository that holds the profiles.
pub fn profiles_url() -> (address: String)
    ensures
        address@ == contents_address("cnhornbeck"@, "MCModProfiles"@),
{
    contents_url("cnhornbeck", "MCModProfiles")
}

} // verus!
