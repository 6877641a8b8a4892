use feed_refurb::extract::CssSelector;
use feed_refurb::feed::{augment_item, item_links, read_feed, refurb, Error};

const ARTICLE: &str = "<!DOCTYPE html><html><head><title>Latest cool article</title></head><body><img class=\"main-image\" src=\"/images/cool.png\"><article><h2>Latest cool article</h2><p>Some cool text.</p></article></body></html>";

const EXPECTED_DESCRIPTION: &str = "<img class=\"main-image\" src=\"/images/cool.png\"><br><article><h2>Latest cool article</h2><p>Some cool text.</p></article>";

fn feed_xml(items: &str) -> String {
    format!(
        "<?xml version=\"1.0\" encoding=\"UTF-8\"?><rss version=\"2.0\"><channel><title>Cool Site</title><link>http://127.0.0.1/</link><description>Cool things</description>{}</channel></rss>",
        items
    )
}

fn item_xml(title: &str, link: Option<&str>, description: &str) -> String {
    let link = match link {
        Some(l) => format!("<link>{}</link>", l),
        None => String::new(),
    };
    format!(
        "<item><title>{}</title>{}<description>{}</description></item>",
        title, link, description
    )
}

fn selector(text: &str) -> CssSelector {
    CssSelector::compile(text).expect("compiled selectors")
}

fn parsed(xml: &str) -> rss::Channel {
    match read_feed(Ok(xml.to_string())) {
        Ok(feed) => feed,
        Err(_) => panic!("feed should parse"),
    }
}

fn descriptions(feed: &rss::Channel) -> Vec<Option<String>> {
    feed.items()
        .iter()
        .map(|i| i.description().map(|d| d.to_string()))
        .collect()
}

#[test]
fn lib_refurb_returns_valid_feed() {
    let article = "http://127.0.0.1/articles/latest-cool-article-123";
    let source = feed_xml(&item_xml("Latest cool article", Some(article), "A teaser"));
    let feed = parsed(&source);
    let links = item_links(&feed);
    assert_eq!(links, vec![Some(article.to_string())]);

    let processed = refurb(feed, &vec![Some(ARTICLE.to_string())], &selector(".main-image,article"));

    let mut expected = parsed(&source);
    expected.items_mut()[0].set_description(EXPECTED_DESCRIPTION.to_string());
    assert_eq!(processed, expected, "should return the expected feed");
}

#[test]
fn lib_refurb_returns_http_error() {
    let response = reqwest::blocking::get("http://127.0.0.1:1").and_then(|r| r.text());
    match read_feed(response) {
        Err(Error::Fetch(_)) => (),
        _ => panic!("expected an HTTP error!"),
    };
}

#[test]
fn lib_refurb_returns_rss_error() {
    let response = Ok("<html><body>This is not a feed</body></html>".to_string());
    match read_feed(response) {
        Err(Error::Parse(_)) => (),
        _ => panic!("expected an RSS error!"),
    };
}

#[test]
fn read_feed_reports_a_request_that_could_not_be_built_as_fetch_error() {
    let response = reqwest::blocking::Client::new()
        .get("not a url")
        .build()
        .map(|_| String::new());
    assert!(matches!(read_feed(response), Err(Error::Fetch(_))));
}

#[test]
fn read_feed_rejects_empty_body() {
    assert!(matches!(read_feed(Ok(String::new())), Err(Error::Parse(_))));
}

#[test]
fn read_feed_keeps_items_in_order() {
    let items = format!(
        "{}{}{}",
        item_xml("one", Some("http://a/1"), "d1"),
        item_xml("two", None, "d2"),
        item_xml("three", Some("http://a/3"), "d3")
    );
    let feed = parsed(&feed_xml(&items));
    let titles: Vec<_> = feed.items().iter().map(|i| i.title().unwrap().to_string()).collect();
    assert_eq!(titles, vec!["one", "two", "three"]);
    assert_eq!(
        item_links(&feed),
        vec![Some("http://a/1".to_string()), None, Some("http://a/3".to_string())]
    );
}

#[test]
fn refurb_leaves_items_without_links_untouched() {
    let items = format!(
        "{}{}{}",
        item_xml("one", Some("http://a/1"), "d1"),
        item_xml("two", None, "d2"),
        item_xml("three", Some("http://a/3"), "d3")
    );
    let feed = parsed(&feed_xml(&items));
    let articles = vec![
        Some("<p>first</p>".to_string()),
        Some("<p>not fetched for a link-less item</p>".to_string()),
        Some("<p>third</p>".to_string()),
    ];
    let processed = refurb(feed, &articles, &selector("p"));
    assert_eq!(processed.items().len(), 3);
    assert_eq!(
        descriptions(&processed),
        vec![
            Some("<p>first</p>".to_string()),
            Some("d2".to_string()),
            Some("<p>third</p>".to_string())
        ]
    );
    let titles: Vec<_> = processed.items().iter().map(|i| i.title().unwrap().to_string()).collect();
    assert_eq!(titles, vec!["one", "two", "three"]);
    assert_eq!(processed.title(), "Cool Site");
}

#[test]
fn refurb_isolates_a_failed_article() {
    let items = format!(
        "{}{}",
        item_xml("one", Some("http://127.0.0.1:1/gone"), "kept"),
        item_xml("two", Some("http://a/2"), "replaced")
    );
    let feed = parsed(&feed_xml(&items));
    let articles = vec![None, Some("<article>fresh</article>".to_string())];
    let processed = refurb(feed, &articles, &selector("article"));
    assert_eq!(
        descriptions(&processed),
        vec![Some("kept".to_string()), Some("<article>fresh</article>".to_string())]
    );
}

#[test]
fn refurb_treats_missing_articles_as_failed() {
    let items = format!(
        "{}{}",
        item_xml("one", Some("http://a/1"), "d1"),
        item_xml("two", Some("http://a/2"), "d2")
    );
    let feed = parsed(&feed_xml(&items));
    let processed = refurb(feed, &vec![Some("<b>x</b>".to_string())], &selector("b"));
    assert_eq!(
        descriptions(&processed),
        vec![Some("<b>x</b>".to_string()), Some("d2".to_string())]
    );
}

#[test]
fn refurb_overwrites_with_empty_extraction() {
    let feed = parsed(&feed_xml(&item_xml("one", Some("http://a/1"), "old")));
    let processed = refurb(feed, &vec![Some("<p>text</p>".to_string())], &selector(".nothing"));
    assert_eq!(descriptions(&processed), vec![Some(String::new())]);
}

#[test]
fn refurb_of_empty_feed_is_empty() {
    let feed = parsed(&feed_xml(""));
    let processed = refurb(feed, &Vec::new(), &selector("p"));
    assert!(processed.items().is_empty());
}

#[test]
fn refurb_twice_with_identical_articles_gives_identical_descriptions() {
    let source = feed_xml(&item_xml("one", Some("http://a/1"), "d1"));
    let articles = vec![Some(ARTICLE.to_string())];
    let sel = selector(".main-image,article");
    let first = refurb(parsed(&source), &articles, &sel);
    let second = refurb(parsed(&source), &articles, &sel);
    assert_eq!(descriptions(&first), descriptions(&second));
    assert_eq!(descriptions(&first), vec![Some(EXPECTED_DESCRIPTION.to_string())]);
}

#[test]
fn augment_item_sets_only_that_item() {
    let items = format!(
        "{}{}",
        item_xml("one", Some("http://a/1"), "d1"),
        item_xml("two", Some("http://a/2"), "d2")
    );
    let mut feed = parsed(&feed_xml(&items));
    augment_item(&mut feed, 1, &Some("<i>new</i>".to_string()), &selector("i"));
    assert_eq!(
        descriptions(&feed),
        vec![Some("d1".to_string()), Some("<i>new</i>".to_string())]
    );
}

#[test]
fn augment_item_without_article_changes_nothing() {
    let mut feed = parsed(&feed_xml(&item_xml("one", Some("http://a/1"), "d1")));
    augment_item(&mut feed, 0, &None, &selector("i"));
    augment_item(&mut feed, 5, &Some("<i>x</i>".to_string()), &selector("i"));
    assert_eq!(descriptions(&feed), vec![Some("d1".to_string())]);
}
