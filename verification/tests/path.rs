use sharepoint_s3::path::{content_url_of, is_root_prefix, list_url_of, metadata_url_of, prepare_prefix};

fn translate(prefix: &str, query: &str) -> String {
    prepare_prefix(prefix.to_string(), query.to_string())
}

#[test]
fn root_without_query_lists_children() {
    assert_eq!(translate("", ""), "/children");
    assert_eq!(translate("/", ""), "/children");
}

#[test]
fn root_with_query_searches_the_root() {
    assert_eq!(translate("", "budget"), "/search(q='budget')");
    assert_eq!(translate("/", "budget"), "/search(q='budget')");
}

#[test]
fn sub_path_without_query_lists_children_of_the_path() {
    assert_eq!(translate("docs", ""), ":/docs:/children");
    assert_eq!(translate("/docs/", ""), ":/docs:/children");
    assert_eq!(translate("//docs/2024//", ""), ":/docs/2024:/children");
}

#[test]
fn sub_path_with_query_searches_under_the_path() {
    assert_eq!(translate("docs", "budget"), ":/docs:/search(q='budget')");
    assert_eq!(translate("/docs/a b/", "q 1"), ":/docs/a b:/search(q='q 1')");
}

#[test]
fn only_the_empty_prefix_and_the_single_slash_are_the_root() {
    assert!(is_root_prefix(""));
    assert!(is_root_prefix("/"));
    assert!(!is_root_prefix("//"));
    assert!(!is_root_prefix("a"));
    assert!(!is_root_prefix("/a"));
    assert_eq!(translate("//", ""), ":/:/children");
    assert_eq!(translate("//", "x"), ":/:/search(q='x')");
}

#[test]
fn query_changes_the_mode_and_nothing_else() {
    for prefix in ["", "/", "//", "docs", "/docs/", "a/b/c", "é/ü"] {
        let listed = translate(prefix, "");
        let searched = translate(prefix, "needle");
        let place = listed.strip_suffix("/children").unwrap();
        assert_eq!(searched.strip_suffix("/search(q='needle')").unwrap(), place);
        assert_eq!(place.is_empty(), prefix.is_empty() || prefix == "/");
    }
}

#[test]
fn list_url_names_container_path_and_page_size() {
    assert_eq!(
        list_url_of("site-1", "/docs/", 1000, ""),
        "https://graph.microsoft.com/v1.0/sites/site-1/drive/root:/docs:/children?$top=1000"
    );
    assert_eq!(
        list_url_of("site-1", "", 7, "tax"),
        "https://graph.microsoft.com/v1.0/sites/site-1/drive/root/search(q='tax')?$top=7"
    );
    assert_eq!(
        list_url_of("s", "/", 0, ""),
        "https://graph.microsoft.com/v1.0/sites/s/drive/root/children?$top=0"
    );
    assert_eq!(
        list_url_of("s", "/", u16::MAX, ""),
        "https://graph.microsoft.com/v1.0/sites/s/drive/root/children?$top=65535"
    );
}

#[test]
fn metadata_url_addresses_the_root_or_the_key() {
    assert_eq!(
        metadata_url_of("s", ""),
        "https://graph.microsoft.com/v1.0/sites/s/drive/root/"
    );
    assert_eq!(
        metadata_url_of("s", "/"),
        "https://graph.microsoft.com/v1.0/sites/s/drive/root/"
    );
    assert_eq!(
        metadata_url_of("s", "docs/a.txt"),
        "https://graph.microsoft.com/v1.0/sites/s/drive/root:/docs/a.txt"
    );
    assert_eq!(
        metadata_url_of("s", "docs/"),
        "https://graph.microsoft.com/v1.0/sites/s/drive/root:/docs/"
    );
}

#[test]
fn content_url_wraps_the_key() {
    assert_eq!(
        content_url_of("s", "docs/a.txt"),
        "https://graph.microsoft.com/v1.0/sites/s/drive/root:/docs/a.txt:/content"
    );
    assert_eq!(
        content_url_of("s", ""),
        "https://graph.microsoft.com/v1.0/sites/s/drive/root:/:/content"
    );
}
