use sharepoint_s3::catalog::{File, Folder, Item, SharePointObjects};
use sharepoint_s3::filter::NameFilter;
use sharepoint_s3::listing::{
    generate_s3_list_objects_v2_response, key_base_of, listing_markup, render_query,
};
use sharepoint_s3::markup::Markup;
use sharepoint_s3::request::{ListQuery, SearchRequest};

fn folder(name: &str) -> Item {
    Item {
        created_date_time: "2024-01-01T00:00:00Z".to_string(),
        e_tag: None,
        path: None,
        id: format!("id-{}", name),
        last_modified_date_time: None,
        name: name.to_string(),
        web_url: format!("https://example.invalid/{}", name),
        folder: Some(Folder { child_count: 2 }),
        file: None,
        size: None,
    }
}

fn file(name: &str, size: Option<u64>) -> Item {
    Item {
        created_date_time: "2024-01-01T00:00:00Z".to_string(),
        e_tag: Some("\"{tag},1\"".to_string()),
        path: None,
        id: format!("id-{}", name),
        last_modified_date_time: Some("2024-02-03T04:05:06Z".to_string()),
        name: name.to_string(),
        web_url: format!("https://example.invalid/{}", name),
        folder: None,
        file: Some(File { mime_type: "text/plain".to_string() }),
        size,
    }
}

fn bare_file(name: &str) -> Item {
    Item {
        created_date_time: String::new(),
        e_tag: None,
        path: None,
        id: String::new(),
        last_modified_date_time: None,
        name: name.to_string(),
        web_url: String::new(),
        folder: None,
        file: Some(File { mime_type: "application/pdf".to_string() }),
        size: None,
    }
}

fn unknown(name: &str) -> Item {
    Item {
        created_date_time: String::new(),
        e_tag: None,
        path: None,
        id: String::new(),
        last_modified_date_time: None,
        name: name.to_string(),
        web_url: String::new(),
        folder: None,
        file: None,
        size: Some(5),
    }
}

fn render(prefix: &str, items: Vec<Item>, files_only: bool, pattern: &str) -> String {
    let filter = NameFilter::new(pattern).unwrap();
    generate_s3_list_objects_v2_response(
        "site".to_string(),
        prefix.to_string(),
        SharePointObjects { items },
        files_only,
        &filter,
    )
}

fn open(name: &str) -> Markup {
    Markup::Open(name.to_string())
}

fn text(value: &str) -> Markup {
    Markup::Text(value.to_string())
}

fn count(haystack: &str, needle: &str) -> usize {
    haystack.matches(needle).count()
}

#[test]
fn renders_one_folder_and_one_file_at_the_root() {
    let xml = render("/", vec![folder("docs"), file("a.txt", Some(12))], false, "");
    let expected = "<?xml version=\"1.0\" encoding=\"UTF-8\"?>\n\
<ListBucketResult>\n\
\x20 <Name>site</Name>\n\
\x20 <Prefix></Prefix>\n\
\x20 <IsTruncated>false</IsTruncated>\n\
\x20 <MaxKeys>1000</MaxKeys>\n\
\x20 <Marker></Marker>\n\
\x20 <CommonPrefixes>\n\
\x20   <Prefix>docs/</Prefix>\n\
\x20 </CommonPrefixes>\n\
\x20 <Contents>\n\
\x20   <Key></Key>\n\
\x20   <Size>0</Size>\n\
\x20 </Contents>\n\
\x20 <Contents>\n\
\x20   <Key>a.txt</Key>\n\
\x20   <Size>12</Size>\n\
\x20   <LastModified>2024-02-03T04:05:06Z</LastModified>\n\
\x20   <ETag>\"{tag},1\"</ETag>\n\
\x20   <StorageClass>STANDARD</StorageClass>\n\
\x20 </Contents>\n\
</ListBucketResult>";
    assert_eq!(xml, expected);
}

#[test]
fn root_listing_has_one_entry_beside_the_placeholder() {
    let xml = render("/", vec![folder("docs"), file("a.txt", Some(12))], false, "");
    assert_eq!(count(&xml, "<CommonPrefixes>"), 1);
    assert_eq!(count(&xml, "<Prefix>docs/</Prefix>"), 1);
    assert_eq!(count(&xml, "<Contents>"), 2);
    assert_eq!(count(&xml, "<Key>a.txt</Key>"), 1);
    assert_eq!(count(&xml, "<Key></Key>"), 1);
    assert_eq!(count(&xml, "<StorageClass>STANDARD</StorageClass>"), 1);
}

#[test]
fn keys_under_a_prefix_start_with_it() {
    let xml = render("/reports/2024/", vec![folder("q1"), file("a.txt", Some(1))], false, "");
    assert!(xml.contains("<Prefix>reports/2024/</Prefix>"));
    assert!(xml.contains("<Prefix>reports/2024/q1/</Prefix>"));
    assert!(xml.contains("<Key>reports/2024/</Key>"));
    assert!(xml.contains("<Key>reports/2024/a.txt</Key>"));
}

#[test]
fn key_base_drops_the_slashes_at_both_ends() {
    assert_eq!(key_base_of(""), "");
    assert_eq!(key_base_of("/"), "");
    assert_eq!(key_base_of("///"), "");
    assert_eq!(key_base_of("docs"), "docs/");
    assert_eq!(key_base_of("/docs/"), "docs/");
    assert_eq!(key_base_of("//a/b//"), "a/b/");
}

#[test]
fn files_only_leaves_the_common_prefixes_out() {
    let xml = render("docs", vec![folder("inner"), file("a.txt", Some(1))], true, "");
    assert_eq!(count(&xml, "<CommonPrefixes>"), 0);
    assert!(xml.contains("<Key>docs/a.txt</Key>"));
    assert!(!xml.contains("inner"));
}

#[test]
fn pattern_prunes_files_and_never_lists_folders_as_objects() {
    let items = vec![
        bare_file("report.pdf"),
        bare_file("report.docx"),
        folder("folder.pdf"),
        unknown("ghost.pdf"),
    ];
    let xml = render("", items, false, r"\.pdf$");
    assert!(xml.contains("<Key>report.pdf</Key>"));
    assert!(!xml.contains("report.docx"));
    assert!(!xml.contains("<Key>folder.pdf</Key>"));
    assert!(xml.contains("<Prefix>folder.pdf/</Prefix>"));
    assert!(!xml.contains("ghost.pdf"));
    assert_eq!(count(&xml, "<Contents>"), 2);
}

#[test]
fn pattern_is_applied_to_the_raw_name() {
    let xml = render("", vec![bare_file("REPORT.PDF"), bare_file("report.pdf")], true, r"\.pdf$");
    assert!(!xml.contains("REPORT.PDF"));
    assert!(xml.contains("<Key>report.pdf</Key>"));
}

#[test]
fn absent_fields_are_written_as_defaults() {
    let xml = render("", vec![bare_file("a.pdf")], true, "");
    let expected_entry = "  <Contents>\n\
\x20   <Key>a.pdf</Key>\n\
\x20   <Size>0</Size>\n\
\x20   <LastModified></LastModified>\n\
\x20   <ETag></ETag>\n\
\x20   <StorageClass>STANDARD</StorageClass>\n\
\x20 </Contents>";
    assert!(xml.contains(expected_entry));
}

#[test]
fn sizes_are_written_in_decimal() {
    let xml = render(
        "",
        vec![file("a", Some(0)), file("b", Some(10)), file("c", Some(u64::MAX))],
        true,
        "",
    );
    assert!(xml.contains("<Key>a</Key>\n    <Size>0</Size>"));
    assert!(xml.contains("<Key>b</Key>\n    <Size>10</Size>"));
    assert!(xml.contains("<Key>c</Key>\n    <Size>18446744073709551615</Size>"));
}

#[test]
fn markup_characters_in_names_are_escaped() {
    let xml = render("a&b", vec![file("x<y>.txt", Some(1))], true, "");
    assert!(xml.contains("<Prefix>a&amp;b/</Prefix>"));
    assert!(xml.contains("<Key>a&amp;b/x&lt;y&gt;.txt</Key>"));
}

#[test]
fn empty_listing_still_has_head_and_placeholder() {
    let xml = render("", Vec::new(), false, "");
    let expected = "<?xml version=\"1.0\" encoding=\"UTF-8\"?>\n\
<ListBucketResult>\n\
\x20 <Name>site</Name>\n\
\x20 <Prefix></Prefix>\n\
\x20 <IsTruncated>false</IsTruncated>\n\
\x20 <MaxKeys>1000</MaxKeys>\n\
\x20 <Marker></Marker>\n\
\x20 <Contents>\n\
\x20   <Key></Key>\n\
\x20   <Size>0</Size>\n\
\x20 </Contents>\n\
</ListBucketResult>";
    assert_eq!(xml, expected);
}

#[test]
fn entries_keep_the_remote_order() {
    let xml = render(
        "",
        vec![file("b.txt", None), folder("z"), file("a.txt", None), folder("y")],
        false,
        "",
    );
    let z = xml.find("<Prefix>z/</Prefix>").unwrap();
    let y = xml.find("<Prefix>y/</Prefix>").unwrap();
    let b = xml.find("<Key>b.txt</Key>").unwrap();
    let a = xml.find("<Key>a.txt</Key>").unwrap();
    assert!(z < y);
    assert!(y < b);
    assert!(b < a);
}

#[test]
fn repeated_rendering_gives_identical_bytes() {
    let items = vec![folder("docs"), file("a.txt", Some(12)), bare_file("b.pdf")];
    let first = render("/docs", items.clone(), false, r"\.(txt|pdf)$");
    let second = render("/docs", items, false, r"\.(txt|pdf)$");
    assert_eq!(first.as_bytes(), second.as_bytes());
}

#[test]
fn markup_of_a_small_listing() {
    let filter = NameFilter::new("").unwrap();
    let objects = SharePointObjects { items: vec![folder("docs"), bare_file("a.pdf")] };
    let events = listing_markup("site", "/p/", &objects, false, &filter);
    let expected = vec![
        open("ListBucketResult"),
        open("Name"),
        text("site"),
        Markup::Close,
        open("Prefix"),
        text("p/"),
        Markup::Close,
        open("IsTruncated"),
        text("false"),
        Markup::Close,
        open("MaxKeys"),
        text("1000"),
        Markup::Close,
        open("Marker"),
        text(""),
        Markup::Close,
        open("CommonPrefixes"),
        open("Prefix"),
        text("p/docs/"),
        Markup::Close,
        Markup::Close,
        open("Contents"),
        open("Key"),
        text("p/"),
        Markup::Close,
        open("Size"),
        text("0"),
        Markup::Close,
        Markup::Close,
        open("Contents"),
        open("Key"),
        text("p/a.pdf"),
        Markup::Close,
        open("Size"),
        text("0"),
        Markup::Close,
        open("LastModified"),
        text(""),
        Markup::Close,
        open("ETag"),
        text(""),
        Markup::Close,
        open("StorageClass"),
        text("STANDARD"),
        Markup::Close,
        Markup::Close,
        Markup::Close,
    ];
    assert_eq!(events, expected);
}

#[test]
fn search_answers_list_files_only() {
    let filter = NameFilter::new("").unwrap();
    let items = vec![folder("docs"), file("a.txt", Some(1))];
    let request = SearchRequest { query: "a".to_string(), prefix: "/p/".to_string(), max_keys: None };
    let searched = render_query(
        ListQuery::search("site".to_string(), request),
        SharePointObjects { items: items.clone() },
        &filter,
    );
    assert_eq!(count(&searched, "<CommonPrefixes>"), 0);
    assert!(searched.contains("<Key>p/a.txt</Key>"));
    let listed = render_query(
        ListQuery::listing("site".to_string(), Some("/p/".to_string()), None),
        SharePointObjects { items },
        &filter,
    );
    assert_eq!(count(&listed, "<CommonPrefixes>"), 1);
    assert!(listed.contains("<Prefix>p/docs/</Prefix>"));
    assert!(listed.contains("<Key>p/a.txt</Key>"));
}
