use iridium::profile::{contents_url, first_file_url, profiles_url, Profile, RepoContent};

fn file(name: &str, download_url: Option<&str>) -> RepoContent {
    RepoContent::File {
        name: name.to_string(),
        path: name.to_string(),
        content_type: "file".to_string(),
        download_url: download_url.map(|address| address.to_string()),
    }
}

fn directory(name: &str) -> RepoContent {
    RepoContent::Directory {
        name: name.to_string(),
        path: name.to_string(),
        content_type: "dir".to_string(),
    }
}

#[test]
fn a_profile_holds_its_name_and_mods() {
    let profile = Profile::new("main".to_string(), vec!["sodium".to_string(), "iris".to_string()]);
    assert_eq!(profile.name, "main");
    assert_eq!(profile.mods, vec!["sodium", "iris"]);
    let copy = profile.clone();
    assert_eq!(copy.name, "main");
    assert_eq!(copy.mods, profile.mods);
}

#[test]
fn the_first_file_is_fetched() {
    let contents = vec![
        directory("docs"),
        file("profile.txt", Some("https://example.org/profile.txt")),
        file("other.txt", Some("https://example.org/other.txt")),
    ];
    assert_eq!(first_file_url(&contents), Some("https://example.org/profile.txt".to_string()));
}

#[test]
fn a_first_file_without_an_address_gives_nothing() {
    let contents = vec![
        directory("docs"),
        file("profile.txt", None),
        file("other.txt", Some("https://example.org/other.txt")),
    ];
    assert_eq!(first_file_url(&contents), None);
}

#[test]
fn a_listing_without_files_gives_nothing() {
    assert_eq!(first_file_url(&Vec::new()), None);
    assert_eq!(first_file_url(&vec![directory("a"), directory("b")]), None);
}

#[test]
fn the_listing_of_a_repository_has_its_address() {
    assert_eq!(contents_url("owner", "repo"), "https://api.github.com/repos/owner/repo/contents");
    assert_eq!(contents_url("", ""), "https://api.github.com/repos///contents");
    assert_eq!(
        profiles_url(),
        "https://api.github.com/repos/cnhornbeck/MCModProfiles/contents"
    );
}
