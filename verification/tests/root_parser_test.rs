use gdom::root_parser::{folder_id_from_parts, parse_root_input, RootParseError};

#[test]
fn parses_raw_folder_id_and_trims_whitespace() {
    let input = "  1aBcDeFgHiJkLmNoPqRsTuVwXyZ_12345  \n";
    assert_eq!(parse_root_input(input), Ok("1aBcDeFgHiJkLmNoPqRsTuVwXyZ_12345".to_string()));
}

#[test]
fn parses_standard_drive_folder_url() {
    let url = "https://drive.google.com/drive/folders/1aBcDeFgHiJkLmNoPqRsTuVwXyZ";
    assert_eq!(parse_root_input(url), Ok("1aBcDeFgHiJkLmNoPqRsTuVwXyZ".to_string()));
}

#[test]
fn parses_multi_account_drive_folder_url_with_query_and_fragment() {
    let url = "https://drive.google.com/drive/u/2/folders/1aBcDeFgHiJkLmNoPqRsTuVwXyZ?usp=sharing#frag";
    assert_eq!(parse_root_input(url), Ok("1aBcDeFgHiJkLmNoPqRsTuVwXyZ".to_string()));
}

#[test]
fn parses_legacy_open_url_with_id_param() {
    let url = "https://drive.google.com/open?id=1aBcDeFgHiJkLmNoPqRsTuVwXyZ&authuser=0";
    assert_eq!(parse_root_input(url), Ok("1aBcDeFgHiJkLmNoPqRsTuVwXyZ".to_string()));
}

#[test]
fn rejects_empty_input() {
    assert_eq!(parse_root_input("   "), Err(RootParseError::EmptyInput));
}

#[test]
fn rejects_non_drive_host() {
    let url = "https://dropbox.com/s/1aBcDeFgHiJkLmNoPqRsTuVwXyZ";
    assert_eq!(parse_root_input(url), Err(RootParseError::UnsupportedHost));
}

#[test]
fn rejects_root_container_id() {
    assert_eq!(parse_root_input("root"), Err(RootParseError::RootContainerNotAllowed));
    assert_eq!(
        parse_root_input("https://drive.google.com/drive/folders/root"),
        Err(RootParseError::RootContainerNotAllowed)
    );
}

#[test]
fn rejects_invalid_id_characters_and_length() {
    assert_eq!(parse_root_input("too_short_id"), Err(RootParseError::InvalidFolderId));
    assert_eq!(parse_root_input("invalid!characters*inside*folder*id"), Err(RootParseError::InvalidFolderId));
}

#[test]
fn rejects_urls_the_url_crate_refuses() {
    assert_eq!(parse_root_input("https://"), Err(RootParseError::InvalidUrl));
}

#[test]
fn rejects_drive_urls_without_a_folder() {
    assert_eq!(parse_root_input("https://drive.google.com/drive/my-drive"), Err(RootParseError::MissingFolderId));
    assert_eq!(parse_root_input("https://drive.google.com/drive/folders/"), Err(RootParseError::MissingFolderId));
}

#[test]
fn root_is_refused_in_any_case() {
    assert_eq!(parse_root_input("ROOT"), Err(RootParseError::RootContainerNotAllowed));
}

#[test]
fn parse_errors_describe_themselves() {
    assert_eq!(RootParseError::UnsupportedHost.to_string(), "URL host must be drive.google.com");
    assert_eq!(
        RootParseError::InvalidFolderId.to_string(),
        "folder ID must be 15-64 alphanumeric characters, underscores, or dashes"
    );
}

#[test]
fn url_parts_name_the_folder_after_folders() {
    let host = Some("drive.google.com".to_string());
    let pairs = vec![("usp".to_string(), "sharing".to_string())];
    assert_eq!(
        folder_id_from_parts(&host, &pairs, "/drive/u/2/folders/1aBcDeFgHiJkLmNoPqRsTuVwXyZ"),
        Ok("1aBcDeFgHiJkLmNoPqRsTuVwXyZ".to_string())
    );
    assert_eq!(folder_id_from_parts(&host, &Vec::new(), "//drive//folders//X1"), Ok("X1".to_string()));
}

#[test]
fn url_parts_prefer_the_first_id_query_value() {
    let host = Some("drive.google.com".to_string());
    let pairs = vec![
        ("authuser".to_string(), "0".to_string()),
        ("id".to_string(), "first".to_string()),
        ("id".to_string(), "second".to_string()),
    ];
    assert_eq!(folder_id_from_parts(&host, &pairs, "/drive/folders/other"), Ok("first".to_string()));
}

#[test]
fn url_parts_refuse_other_hosts_and_missing_ids() {
    let pairs: Vec<(String, String)> = Vec::new();
    assert_eq!(
        folder_id_from_parts(&Some("docs.google.com".to_string()), &pairs, "/drive/folders/X"),
        Err(RootParseError::UnsupportedHost)
    );
    assert_eq!(folder_id_from_parts(&None, &pairs, "/"), Err(RootParseError::UnsupportedHost));
    assert_eq!(
        folder_id_from_parts(&Some("drive.google.com".to_string()), &pairs, "/drive/folders"),
        Err(RootParseError::MissingFolderId)
    );
}
