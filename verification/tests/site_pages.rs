use stack_nails::counter::{click, counter_label, dom_still_loading, initial_counter};
use stack_nails::routes::{blog, docs, marketing};
use stack_nails::site::{
    content_destination, content_source, docs_page_file, home_page_file, html_document,
    nav_item_class, page_dir, page_file, Section,
};
use stack_nails::{nails_blog, nails_docs, stack_docs};

#[test]
fn permalinks() {
    let s = stack_docs::summary();
    assert_eq!(s.categories[0].pages[1].permalink(), "https://stack-cli.com/docs/architecture/");
}

#[test]
fn summaries_have_their_pages() {
    let d = nails_docs::summary();
    assert_eq!(d.source_folder, "docs");
    assert_eq!(d.categories.len(), 9);
    assert_eq!(d.categories.iter().map(|c| c.pages.len()).sum::<usize>(), 31);
    let b = nails_blog::summary();
    assert_eq!(b.source_folder, "blog");
    assert_eq!(b.categories[0].name, "TOFU");
    assert_eq!(b.categories[0].pages[0].author, Some("Ian Purton"));
    let s = stack_docs::summary();
    assert_eq!(s.categories.iter().map(|c| c.name.as_str()).collect::<Vec<_>>(), vec!["Setting Up", "Connectivity", "Frameworks"]);
    assert_eq!(s.categories[2].pages[1].markdown_path, "content/docs/framework/flask.md");
}

#[test]
fn output_paths() {
    assert_eq!(docs_page_file("docs/"), "dist/docs/index.html");
    assert_eq!(docs_page_file("docs/ide-setup/dev-env-as-code"), "dist/docs/ide-setup/dev-env-as-code/index.html");
    assert_eq!(docs_page_file(""), "dist/index.html");
    assert_eq!(docs_page_file("/abs"), "/abs/index.html");
    assert_eq!(page_dir("docs/"), "dist/docs/");
    assert_eq!(page_file("docs/"), "dist/docs//index.html");
    assert_eq!(home_page_file(), "dist/index.html");
    let b = nails_blog::summary();
    assert_eq!(content_source(&b), "content/blog");
    assert_eq!(content_destination(&b), "dist/blog");
}

#[test]
fn html_document_wraps_the_body() {
    assert_eq!(html_document("<body></body>"), "<!DOCTYPE html><html lang='en'><body></body></html>");
}

#[test]
fn nav_item_classes() {
    assert_eq!(nav_item_class(None, Section::Docs, Section::Docs), " underline");
    assert_eq!(nav_item_class(Some("btn".to_string()), Section::Docs, Section::Home), "btn ");
    assert_eq!(nav_item_class(Some("btn".to_string()), Section::Unset, Section::Unset), "btn underline");
}

#[test]
fn route_paths() {
    assert_eq!(docs::Index {}.to_string(), "/docs/");
    assert_eq!(blog::Index {}.to_string(), "/blog/");
    assert_eq!(marketing::Index {}.to_string(), "/");
    assert_eq!(marketing::Terms {}.to_string(), "/terms/");
    assert_eq!(marketing::Privacy {}.to_string(), "/privacy/");
}

#[test]
fn counter_counts_clicks() {
    let start = initial_counter();
    assert_eq!(start.attribute, "0");
    assert_eq!(start.label, "Increment (0)");
    let mut attr = start.attribute;
    for expected in 1..=12u32 {
        let u = click(&attr);
        assert_eq!(u.value, expected);
        assert_eq!(u.label, format!("Increment ({})", expected));
        attr = u.attribute;
    }
    assert_eq!(attr, "12");
}

#[test]
fn counter_treats_garbage_as_zero() {
    assert_eq!(click("abc").value, 1);
    assert_eq!(click("").value, 1);
    assert_eq!(counter_label(42), "Increment (42)");
}

#[test]
fn ready_state() {
    assert!(dom_still_loading("loading"));
    assert!(!dom_still_loading("complete"));
    assert!(!dom_still_loading("interactive"));
}
