use sharepoint_s3::markup::{render_markup, Markup};

fn open(name: &str) -> Markup {
    Markup::Open(name.to_string())
}

fn text(value: &str) -> Markup {
    Markup::Text(value.to_string())
}

#[test]
fn no_events_give_an_empty_document() {
    assert_eq!(render_markup(&Vec::new()), Some(String::new()));
}

#[test]
fn element_with_text_is_written_on_one_line() {
    let events = vec![open("a"), text("x"), Markup::Close];
    assert_eq!(
        render_markup(&events),
        Some("<?xml version=\"1.0\" encoding=\"UTF-8\"?>\n<a>x</a>".to_string())
    );
}

#[test]
fn element_with_empty_text_keeps_its_end_tag() {
    let events = vec![open("a"), text(""), Markup::Close];
    assert_eq!(
        render_markup(&events),
        Some("<?xml version=\"1.0\" encoding=\"UTF-8\"?>\n<a></a>".to_string())
    );
}

#[test]
fn element_without_content_closes_itself() {
    let events = vec![open("a"), Markup::Close];
    assert_eq!(
        render_markup(&events),
        Some("<?xml version=\"1.0\" encoding=\"UTF-8\"?>\n<a />".to_string())
    );
}

#[test]
fn children_are_indented_by_two_spaces() {
    let events = vec![
        open("a"),
        open("b"),
        open("c"),
        text("1"),
        Markup::Close,
        Markup::Close,
        open("d"),
        text("2"),
        Markup::Close,
        Markup::Close,
    ];
    assert_eq!(
        render_markup(&events),
        Some(
            "<?xml version=\"1.0\" encoding=\"UTF-8\"?>\n<a>\n  <b>\n    <c>1</c>\n  </b>\n  <d>2</d>\n</a>"
                .to_string()
        )
    );
}

#[test]
fn character_data_is_escaped() {
    let events = vec![open("a"), text("1 < 2 & 3 > 2 \"q\""), Markup::Close];
    assert_eq!(
        render_markup(&events),
        Some("<?xml version=\"1.0\" encoding=\"UTF-8\"?>\n<a>1 &lt; 2 &amp; 3 &gt; 2 \"q\"</a>".to_string())
    );
}

#[test]
fn element_left_open_is_written_as_far_as_it_goes() {
    let events = vec![open("a"), text("x")];
    assert_eq!(
        render_markup(&events),
        Some("<?xml version=\"1.0\" encoding=\"UTF-8\"?>\n<a>x".to_string())
    );
}

#[test]
fn close_without_an_open_element_gives_nothing() {
    assert_eq!(render_markup(&vec![Markup::Close]), None);
    assert_eq!(render_markup(&vec![open("a"), Markup::Close, Markup::Close]), None);
    assert_eq!(render_markup(&vec![text("x"), Markup::Close, open("a")]), None);
}

#[test]
fn same_events_give_the_same_text() {
    let build = || vec![open("a"), open("b"), text("é"), Markup::Close, Markup::Close];
    assert_eq!(render_markup(&build()), render_markup(&build()));
}
