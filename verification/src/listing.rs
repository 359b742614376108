//! Listings rendered as S3 `ListBucketResult` documents.
//!
//! A listing is first laid out as a flat run of markup events, which is where
//! every rule of the format lives. The events are then written as text.

use vstd::prelude::*;
use vstd::string::*;
use crate::catalog::{text_of, text_or_empty, Item, ItemView, SharePointObjects};
use crate::filter::{admits, NameFilter};
use crate::markup::{
    balanced,
    element,
    emitted_document,
    leaf,
    lemma_neutral_concat,
    lemma_neutral_element,
    lemma_neutral_leaf,
    neutral,
    render_markup,
    views,
    Markup,
    MarkupView,
};
use crate::request::ListQuery;
use crate::text::{decimal, decimal_string, trim_char, trimmed};

verus! {

/// What every key of a listing under `prefix` starts with: the prefix without
/// the slashes at its ends, followed by one slash; nothing at the root.
pub open spec fn key_base(prefix: Seq<char>) -> Seq<char> {
    let inner = trimmed(prefix, '/');
    if inner.len() == 0 {
        inner
    } else {
        inner + "/"@
    }
}

/// The fixed head of a listing: `Name`, `Prefix`, `IsTruncated`, `MaxKeys`
/// and `Marker`, in this order.
pub open spec fn header_events(bucket: Seq<char>, base: Seq<char>) -> Seq<MarkupView> {
    leaf("Name"@, bucket) + leaf("Prefix"@, base) + leaf("IsTruncated"@, "false"@) + leaf(
        "MaxKeys"@,
        "1000"@,
    ) + leaf("Marker"@, Seq::empty())
}

/// The `CommonPrefixes` element of one folder.
pub open spec fn common_prefix_events(base: Seq<char>, item: ItemView) -> Seq<MarkupView> {
    element("CommonPrefixes"@, leaf("Prefix"@, base + item.name + "/"@))
}

/// One `CommonPrefixes` element for each folder among `items`, in order.
pub open spec fn folder_events(base: Seq<char>, items: Seq<ItemView>) -> Seq<MarkupView>
    decreases items.len(),
{
    if items.len() == 0 {
        Seq::empty()
    } else if items.last().is_folder() {
        folder_events(base, items.drop_last()) + common_prefix_events(base, items.last())
    } else {
        folder_events(base, items.drop_last())
    }
}

/// The `Contents` element that stands for the listed prefix itself.
pub open spec fn placeholder_events(base: Seq<char>) -> Seq<MarkupView> {
    element("Contents"@, leaf("Key"@, base) + leaf("Size"@, "0"@))
}

/// Whether an entry is listed as an object: it is a file and its raw name
/// passes the pattern. Folders never are, whatever their name.
pub open spec fn listed(item: ItemView, pattern: Seq<char>) -> bool {
    item.is_file() && admits(pattern, item.name)
}

/// The `Contents` element of one file. An absent size is written as `0`, an
/// absent modification time or entity tag as the empty text.
pub open spec fn contents_events(base: Seq<char>, item: ItemView) -> Seq<MarkupView> {
    element(
        "Contents"@,
        leaf("Key"@, base + item.name) + leaf("Size"@, decimal(item.size_or_zero() as nat)) + leaf(
            "LastModified"@,
            text_or_empty(item.last_modified_at),
        ) + leaf("ETag"@, text_or_empty(item.e_tag)) + leaf("StorageClass"@, "STANDARD"@),
    )
}

/// One `Contents` element for each listed file among `items`, in order.
pub open spec fn file_events(base: Seq<char>, items: Seq<ItemView>, pattern: Seq<char>) -> Seq<
    MarkupView,
>
    decreases items.len(),
{
    if items.len() == 0 {
        Seq::empty()
    } else if listed(items.last(), pattern) {
        file_events(base, items.drop_last(), pattern) + contents_events(base, items.last())
    } else {
        file_events(base, items.drop_last(), pattern)
    }
}

/// What stands inside the `ListBucketResult` element.
pub open spec fn listing_body(
    bucket: Seq<char>,
    prefix: Seq<char>,
    items: Seq<ItemView>,
    files_only: bool,
    pattern: Seq<char>,
) -> Seq<MarkupView> {
    let base = key_base(prefix);
    header_events(bucket, base) + (if files_only {
        Seq::empty()
    } else {
        folder_events(base, items)
    }) + placeholder_events(base) + file_events(base, items, pattern)
}

/// The events of a whole listing.
pub open spec fn listing_events(
    bucket: Seq<char>,
    prefix: Seq<char>,
    items: Seq<ItemView>,
    files_only: bool,
    pattern: Seq<char>,
) -> Seq<MarkupView> {
    element("ListBucketResult"@, listing_body(bucket, prefix, items, files_only, pattern))
}

/// No events at all are neutral.
proof fn lemma_neutral_empty()
    ensures
        neutral(Seq::<MarkupView>::empty()),
{
}

/// The `CommonPrefixes` elements are neutral.
pub proof fn lemma_neutral_folders(base: Seq<char>, items: Seq<ItemView>)
    ensures
        neutral(folder_events(base, items)),
    decreases items.len(),
{
    if items.len() > 0 {
        lemma_neutral_folders(base, items.drop_last());
        if items.last().is_folder() {
            lemma_neutral_leaf("Prefix"@, base + items.last().name + "/"@);
            lemma_neutral_element(
                "CommonPrefixes"@,
                leaf("Prefix"@, base + items.last().name + "/"@),
            );
            lemma_neutral_concat(
                folder_events(base, items.drop_last()),
                common_prefix_events(base, items.last()),
            );
        }
    }
}

/// The `Contents` element of a file is neutral.
pub proof fn lemma_neutral_contents(base: Seq<char>, item: ItemView)
    ensures
        neutral(contents_events(base, item)),
{
    let key = leaf("Key"@, base + item.name);
    let size = leaf("Size"@, decimal(item.size_or_zero() as nat));
    let modified = leaf("LastModified"@, text_or_empty(item.last_modified_at));
    let tag = leaf("ETag"@, text_or_empty(item.e_tag));
    let class = leaf("StorageClass"@, "STANDARD"@);
    lemma_neutral_leaf("Key"@, base + item.name);
    lemma_neutral_leaf("Size"@, decimal(item.size_or_zero() as nat));
    lemma_neutral_leaf("LastModified"@, text_or_empty(item.last_modified_at));
    lemma_neutral_leaf("ETag"@, text_or_empty(item.e_tag));
    lemma_neutral_leaf("StorageClass"@, "STANDARD"@);
    lemma_neutral_concat(key, size);
    lemma_neutral_concat(key + size, modified);
    lemma_neutral_concat(key + size + modified, tag);
    lemma_neutral_concat(key + size + modified + tag, class);
    lemma_neutral_element("Contents"@, key + size + modified + tag + class);
}

/// The `Contents` elements of the listed files are neutral.
pub proof fn lemma_neutral_files(base: Seq<char>, items: Seq<ItemView>, pattern: Seq<char>)
    ensures
        neutral(file_events(base, items, pattern)),
    decreases items.len(),
{
    if items.len() > 0 {
        lemma_neutral_files(base, items.drop_last(), pattern);
        if listed(items.last(), pattern) {
            lemma_neutral_contents(base, items.last());
            lemma_neutral_concat(
                file_events(base, items.drop_last(), pattern),
                contents_events(base, items.last()),
            );
        }
    }
}

/// A listing closes what it opens: its events are balanced, for every input.
pub proof fn lemma_listing_balanced(
    bucket: Seq<char>,
    prefix: Seq<char>,
    items: Seq<ItemView>,
    files_only: bool,
    pattern: Seq<char>,
)
    ensures
        balanced(listing_events(bucket, prefix, items, files_only, pattern)),
{
    let base = key_base(prefix);
    let name = leaf("Name"@, bucket);
    let pre = leaf("Prefix"@, base);
    let truncated = leaf("IsTruncated"@, "false"@);
    let max_keys = leaf("MaxKeys"@, "1000"@);
    let marker = leaf("Marker"@, Seq::empty());
    lemma_neutral_leaf("Name"@, bucket);
    lemma_neutral_leaf("Prefix"@, base);
    lemma_neutral_leaf("IsTruncated"@, "false"@);
    lemma_neutral_leaf("MaxKeys"@, "1000"@);
    lemma_neutral_leaf("Marker"@, Seq::empty());
    lemma_neutral_concat(name, pre);
    lemma_neutral_concat(name + pre, truncated);
    lemma_neutral_concat(name + pre + truncated, max_keys);
    lemma_neutral_concat(name + pre + truncated + max_keys, marker);
    let header = header_events(bucket, base);
    let folders = if files_only {
        Seq::<MarkupView>::empty()
    } else {
        folder_events(base, items)
    };
    lemma_neutral_empty();
    lemma_neutral_folders(base, items);
    lemma_neutral_concat(header, folders);
    lemma_neutral_leaf("Key"@, base);
    lemma_neutral_leaf("Size"@, "0"@);
    lemma_neutral_concat(leaf("Key"@, base), leaf("Size"@, "0"@));
    lemma_neutral_element("Contents"@, leaf("Key"@, base) + leaf("Size"@, "0"@));
    lemma_neutral_concat(header + folders, placeholder_events(base));
    lemma_neutral_files(base, items, pattern);
    lemma_neutral_concat(
        header + folders + placeholder_events(base),
        file_events(base, items, pattern),
    );
    lemma_neutral_element(
        "ListBucketResult"@,
        listing_body(bucket, prefix, items, files_only, pattern),
    );
    assert(balanced(listing_events(bucket, prefix, items, files_only, pattern)));
}

/// An entry that is no file adds nothing to the objects of a listing,
/// whatever its name and whatever the pattern.
pub proof fn lemma_only_files_are_objects(
    base: Seq<char>,
    items: Seq<ItemView>,
    item: ItemView,
    pattern: Seq<char>,
)
    requires
        !item.is_file(),
    ensures
        file_events(base, items.push(item), pattern) == file_events(base, items, pattern),
{
    assert(items.push(item).drop_last() =~= items);
}

/// A file adds its `Contents` element to a listing if its name passes the
/// pattern, and nothing if it does not.
pub proof fn lemma_files_are_objects_by_name(
    base: Seq<char>,
    items: Seq<ItemView>,
    item: ItemView,
    pattern: Seq<char>,
)
    requires
        item.is_file(),
    ensures
        file_events(base, items.push(item), pattern) == if admits(pattern, item.name) {
            file_events(base, items, pattern) + contents_events(base, item)
        } else {
            file_events(base, items, pattern)
        },
{
    assert(items.push(item).drop_last() =~= items);
}

/// Appending one event appends its model.
proof fn lemma_views_push(events: Seq<Markup>, last: Markup)
    ensures
        views(events.push(last)) == views(events).push(last@),
{
    assert(views(events.push(last)) =~= views(events).push(last@));
}

fn push_open(out: &mut Vec<Markup>, name: &str)
    ensures
        views(final(out)@) == views(old(out)@).push(MarkupView::Open(name@)),
{
    let event = Markup::Open(name.to_owned());
    proof {
        lemma_views_push(out@, event);
    }
    out.push(event);
}

fn push_text(out: &mut Vec<Markup>, text: String)
    ensures
        views(final(out)@) == views(old(out)@).push(MarkupView::Text(text@)),
{
    let event = Markup::Text(text);
    proof {
        lemma_views_push(out@, event);
    }
    out.push(event);
}

fn push_close(out: &mut Vec<Markup>)
    ensures
        views(final(out)@) == views(old(out)@).push(MarkupView::Close),
{
    proof {
        lemma_views_push(out@, Markup::Close);
    }
    out.push(Markup::Close);
}

fn push_leaf(out: &mut Vec<Markup>, name: &str, text: String)
    ensures
        views(final(out)@) == views(old(out)@) + leaf(name@, text@),
{
    push_open(out, name);
    push_text(out, text);
    push_close(out);
    assert(views(out@) =~= views(old(out)@) + leaf(name@, text@));
}

/// What the keys of a listing under `prefix` start with.
pub fn key_base_of(prefix: &str) -> (base: String)
    ensures
        base@ == key_base(prefix@),
{
    let inner = trim_char(prefix, '/');
    let mut base = inner.to_owned();
    if !inner.is_empty() {
        base.append("/");
    }
    base
}

/// A copy of an optional text, empty where it is absent.
fn text_or_empty_of(text: &Option<String>) -> (t: String)
    ensures
        t@ == text_or_empty(text_of(*text)),
{
    match text {
        Some(s) => s.clone(),
        None => String::new(),
    }
}

fn push_common_prefix(out: &mut Vec<Markup>, base: &String, item: &Item)
    ensures
        views(final(out)@) == views(old(out)@) + common_prefix_events(base@, item@),
{
    let mut value = base.clone();
    value.append(item.name.as_str());
    value.append("/");
    push_open(out, "CommonPrefixes");
    push_leaf(out, "Prefix", value);
    push_close(out);
    assert(views(out@) =~= views(old(out)@) + common_prefix_events(base@, item@));
}

fn push_placeholder(out: &mut Vec<Markup>, base: &String)
    ensures
        views(final(out)@) == views(old(out)@) + placeholder_events(base@),
{
    push_open(out, "Contents");
    push_leaf(out, "Key", base.clone());
    push_leaf(out, "Size", "0".to_owned());
    push_close(out);
    assert(views(out@) =~= views(old(out)@) + placeholder_events(base@));
}

fn push_contents(out: &mut Vec<Markup>, base: &String, item: &Item)
    ensures
        views(final(out)@) == views(old(out)@) + contents_events(base@, item@),
{
    let mut key = base.clone();
    key.append(item.name.as_str());
    push_open(out, "Contents");
    push_leaf(out, "Key", key);
    push_leaf(out, "Size", decimal_string(item.size_or_zero()));
    push_leaf(out, "LastModified", text_or_empty_of(&item.last_modified_date_time));
    push_leaf(out, "ETag", text_or_empty_of(&item.e_tag));
    push_leaf(out, "StorageClass", "STANDARD".to_owned());
    push_close(out);
    assert(views(out@) =~= views(old(out)@) + contents_events(base@, item@));
}

fn push_header(out: &mut Vec<Markup>, bucket: &str, base: &String)
    ensures
        views(final(out)@) == views(old(out)@) + header_events(bucket@, base@),
{
    push_leaf(out, "Name", bucket.to_owned());
    push_leaf(out, "Prefix", base.clone());
    push_leaf(out, "IsTruncated", "false".to_owned());
    push_leaf(out, "MaxKeys", "1000".to_owned());
    push_leaf(out, "Marker", String::new());
    assert(views(out@) =~= views(old(out)@) + header_events(bucket@, base@));
}

fn push_folders(out: &mut Vec<Markup>, base: &String, objects: &SharePointObjects)
    ensures
        views(final(out)@) == views(old(out)@) + folder_events(base@, objects@),
{
    let n = objects.items.len();
    let mut i: usize = 0;
    assert(objects@.take(0) =~= Seq::<ItemView>::empty());
    assert(views(out@) =~= views(old(out)@) + folder_events(base@, objects@.take(0)));
    while i < n
        invariant
            n == objects.items.len(),
            i <= n,
            views(out@) == views(old(out)@) + folder_events(base@, objects@.take(i as int)),
        decreases n - i,
    {
        let item = &objects.items[i];
        proof {
            let next = objects@.take(i + 1);
            assert(next.drop_last() =~= objects@.take(i as int));
            assert(next.last() == item@);
        }
        if item.is_folder() {
            push_common_prefix(out, base, item);
            assert(views(out@) =~= views(old(out)@) + folder_events(
                base@,
                objects@.take(i + 1),
            ));
        }
        i = i + 1;
    }
    assert(objects@.take(n as int) =~= objects@);
}

fn push_files(
    out: &mut Vec<Markup>,
    base: &String,
    objects: &SharePointObjects,
    filter: &NameFilter,
)
    ensures
        views(final(out)@) == views(old(out)@) + file_events(base@, objects@, filter.pattern()),
{
    let n = objects.items.len();
    let mut i: usize = 0;
    assert(objects@.take(0) =~= Seq::<ItemView>::empty());
    assert(views(out@) =~= views(old(out)@) + file_events(
        base@,
        objects@.take(0),
        filter.pattern(),
    ));
    while i < n
        invariant
            n == objects.items.len(),
            i <= n,
            views(out@) == views(old(out)@) + file_events(
                base@,
                objects@.take(i as int),
                filter.pattern(),
            ),
        decreases n - i,
    {
        let item = &objects.items[i];
        proof {
            let next = objects@.take(i + 1);
            assert(next.drop_last() =~= objects@.take(i as int));
            assert(next.last() == item@);
        }
        if item.is_file() && filter.matches(item.name.as_str()) {
            push_contents(out, base, item);
            assert(views(out@) =~= views(old(out)@) + file_events(
                base@,
                objects@.take(i + 1),
                filter.pattern(),
            ));
        }
        i = i + 1;
    }
    assert(objects@.take(n as int) =~= objects@);
}

/// Lays a listing out as markup events.
///
/// The head comes first. Unless `files_only` is set, one `CommonPrefixes`
/// element follows for each folder. Then come the `Contents` element of the
/// prefix itself and one for each file whose name passes `filter`.
pub fn listing_markup(
    bucket: &str,
    prefix: &str,
    objects: &SharePointObjects,
    files_only: bool,
    filter: &NameFilter,
) -> (events: Vec<Markup>)
    ensures
        views(events@) == listing_events(
            bucket@,
            prefix@,
            objects@,
            files_only,
            filter.pattern(),
        ),
{
    let base = key_base_of(prefix);
    let mut events: Vec<Markup> = Vec::new();
    assert(views(events@) =~= Seq::<MarkupView>::empty());
    push_open(&mut events, "ListBucketResult");
    push_header(&mut events, bucket, &base);
    if !files_only {
        push_folders(&mut events, &base, objects);
    }
    push_placeholder(&mut events, &base);
    push_files(&mut events, &base, objects, filter);
    push_close(&mut events);
    assert(views(events@) =~= listing_events(
        bucket@,
        prefix@,
        objects@,
        files_only,
        filter.pattern(),
    ));
    events
}

/// Renders a listing as a `ListBucketResult` document: the text of
/// [`listing_events`]. Common prefixes are left out where `files_only` is set.
pub fn generate_s3_list_objects_v2_response(
    bucket: String,
    prefix: String,
    objects: SharePointObjects,
    files_only: bool,
    filter: &NameFilter,
) -> (xml: String)
    ensures
        xml@ == emitted_document(
            listing_events(bucket@, prefix@, objects@, files_only, filter.pattern()),
        ),
{
    let events = listing_markup(bucket.as_str(), prefix.as_str(), &objects, files_only, filter);
    proof {
        lemma_listing_balanced(bucket@, prefix@, objects@, files_only, filter.pattern());
    }
    render_markup(&events).unwrap()
}

/// Renders the answer to `query` from the entries that the remote API
/// returned for it. A search lists the files it found and no common prefixes;
/// a plain listing has both.
pub fn render_query(query: ListQuery, objects: SharePointObjects, filter: &NameFilter) -> (xml:
    String)
    ensures
        xml@ == emitted_document(
            listing_events(
                query.container_id@,
                query.prefix@,
                objects@,
                query.search_query is Some,
                filter.pattern(),
            ),
        ),
{
    let files_only = query.search_query.is_some();
    generate_s3_list_objects_v2_response(
        query.container_id,
        query.prefix,
        objects,
        files_only,
        filter,
    )
}

/// Rendering the same listing again gives the same document, character for
/// character.
pub proof fn lemma_rendering_repeats(
    bucket: Seq<char>,
    prefix: Seq<char>,
    items: Seq<ItemView>,
    files_only: bool,
    pattern: Seq<char>,
    first: Seq<char>,
    second: Seq<char>,
)
    requires
        first == emitted_document(listing_events(bucket, prefix, items, files_only, pattern)),
        second == emitted_document(listing_events(bucket, prefix, items, files_only, pattern)),
    ensures
        first == second,
{
}

} // verus!
