//! The feed: reading it, and giving each item that links to an article a description
//! extracted from that article.

use vstd::prelude::*;
use crate::extract::{extract, extraction, CssSelector};
use reqwest::Error as ReqwestError;
use rss::Error as RssError;

verus! {

/// rss's channel, held opaque; what the logic reads of it is `channel_items`.
#[verifier::external_type_specification]
#[verifier::external_body]
pub struct ExChannel(rss::Channel);

/// rss's error for a feed it cannot read, carried through as is.
#[verifier::external_type_specification]
#[verifier::external_body]
pub struct ExRssError(RssError);

/// reqwest's error for a failed download, carried through as is.
#[verifier::external_type_specification]
#[verifier::external_body]
pub struct ExReqwestError(ReqwestError);

/// An item as this library sees it: its title, its link and its description.
pub type ItemFields = (Option<Seq<char>>, Option<Seq<char>>, Option<Seq<char>>);

/// The items of a channel, in order, each as its title, link and description.
pub uninterp spec fn channel_items(
    c: rss::Channel,
) -> Seq<(Option<Seq<char>>, Option<Seq<char>>, Option<Seq<char>>)>;

/// The items of the channel that rss reads from `text`, or `None` where rss refuses it.
pub uninterp spec fn rss_read(
    text: Seq<char>,
) -> Option<Seq<(Option<Seq<char>>, Option<Seq<char>>, Option<Seq<char>>)>>;

/// The view of an optional string.
pub open spec fn opt_text(s: Option<String>) -> Option<Seq<char>> {
    match s {
        Some(t) => Some(t@),
        None => None,
    }
}

/// The link of an item.
pub open spec fn link_of(item: ItemFields) -> Option<Seq<char>> {
    item.1
}

/// The description of an item.
pub open spec fn description_of(item: ItemFields) -> Option<Seq<char>> {
    item.2
}

/// The item with its description replaced, all else kept.
pub open spec fn with_description(item: ItemFields, d: Seq<char>) -> ItemFields {
    (item.0, item.1, Some(d))
}

/// The article text fetched for the item at `i`, if any.
pub open spec fn article_at(articles: Seq<Option<Seq<char>>>, i: int) -> Option<Seq<char>> {
    if 0 <= i < articles.len() {
        articles[i]
    } else {
        None
    }
}

/// The item after augmentation: an item with a link, whose article text is at hand, has
/// the extraction from that text as its description; any other item is left as it was.
pub open spec fn augmented(item: ItemFields, article: Option<Seq<char>>, selector: Seq<char>) -> ItemFields {
    match (link_of(item), article) {
        (Some(_), Some(text)) => with_description(item, extraction(text, selector)),
        _ => item,
    }
}

/// The items after refurbishment: each one augmented with the article text at its position.
pub open spec fn refurbished(
    items: Seq<ItemFields>,
    articles: Seq<Option<Seq<char>>>,
    selector: Seq<char>,
) -> Seq<ItemFields> {
    Seq::new(items.len(), |i: int| augmented(items[i], article_at(articles, i), selector))
}

/// The views of a sequence of optional strings.
pub open spec fn opt_texts(v: Seq<Option<String>>) -> Seq<Option<Seq<char>>> {
    v.map_values(|s: Option<String>| opt_text(s))
}

/// Errors that end the processing of a whole feed.
pub enum Error {
    /// The feed could not be downloaded.
    Fetch(ReqwestError),
    /// The feed could not be read as an RSS channel.
    Parse(RssError),
}

impl From<ReqwestError> for Error {
    fn from(err: ReqwestError) -> (r: Error)
        ensures
            r == Error::Fetch(err),
    {
        Error::Fetch(err)
    }
}

impl vstd::std_specs::convert::FromSpecImpl<ReqwestError> for Error {
    open spec fn obeys_from_spec() -> bool {
        true
    }

    open spec fn from_spec(err: ReqwestError) -> Error {
        Error::Fetch(err)
    }
}

impl From<RssError> for Error {
    fn from(err: RssError) -> (r: Error)
        ensures
            r == Error::Parse(err),
    {
        Error::Parse(err)
    }
}

impl vstd::std_specs::convert::FromSpecImpl<RssError> for Error {
    open spec fn obeys_from_spec() -> bool {
        true
    }

    open spec fn from_spec(err: RssError) -> Error {
        Error::Parse(err)
    }
}

/// Relies on rss::Channel::read_from: it reads an RSS channel from the text, or fails,
/// depending on the text alone.
#[verifier::external_body]
fn parse_channel(text: &str) -> (r: Result<rss::Channel, RssError>)
    ensures
        r is Ok <==> rss_read(text@) is Some,
        r matches Ok(c) ==> channel_items(c) == rss_read(text@)->Some_0,
{
    rss::Channel::read_from(text.as_bytes())
}

/// Relies on rss::Channel::items: its length is the number of items.
#[verifier::external_body]
fn item_count(feed: &rss::Channel) -> (r: usize)
    ensures
        r == channel_items(*feed).len(),
{
    feed.items().len()
}

/// Relies on rss::Item::link: the link of the item at `index`.
#[verifier::external_body]
fn item_link(feed: &rss::Channel, index: usize) -> (r: Option<String>)
    requires
        index < channel_items(*feed).len(),
    ensures
        opt_text(r) == link_of(channel_items(*feed)[index as int]),
{
    feed.items()[index].link().map(|l| l.to_owned())
}

/// Relies on rss::Item::set_description, which sets the description of the item at
/// `index` and touches nothing else.
#[verifier::external_body]
fn set_item_description(feed: &mut rss::Channel, index: usize, description: String)
    requires
        index < channel_items(*old(feed)).len(),
    ensures
        channel_items(*final(feed)) == channel_items(*old(feed)).update(
            index as int,
            with_description(channel_items(*old(feed))[index as int], description@),
        ),
{
    feed.items_mut()[index].set_description(description)
}

/// Reads the feed from the outcome of its download. A failed download is a `Fetch`
/// error; a body that is not an RSS channel is a `Parse` error.
pub fn read_feed(response: Result<String, ReqwestError>) -> (r: Result<rss::Channel, Error>)
    ensures
        match response {
            Err(e) => r == Err::<rss::Channel, Error>(Error::Fetch(e)),
            Ok(text) => match rss_read(text@) {
                None => r matches Err(Error::Parse(_)),
                Some(items) => r matches Ok(c) && channel_items(c) == items,
            },
        },
{
    match response {
        Err(e) => Err(Error::Fetch(e)),
        Ok(text) => match parse_channel(text.as_str()) {
            Err(e) => Err(Error::Parse(e)),
            Ok(feed) => Ok(feed),
        },
    }
}

/// The link of each item of the feed, in order.
pub fn item_links(feed: &rss::Channel) -> (r: Vec<Option<String>>)
    ensures
        opt_texts(r@) == channel_items(*feed).map_values(|item: ItemFields| link_of(item)),
{
    let n = item_count(feed);
    let mut links: Vec<Option<String>> = Vec::new();
    let mut i: usize = 0;
    while i < n
        invariant
            i <= n,
            n == channel_items(*feed).len(),
            links@.len() == i,
            forall|j: int|
                0 <= j < i ==> opt_text(#[trigger] links@[j]) == link_of(channel_items(*feed)[j]),
        decreases n - i,
    {
        let link = item_link(feed, i);
        links.push(link);
        i += 1;
    }
    proof {
        assert(opt_texts(links@) =~= channel_items(*feed).map_values(
            |item: ItemFields| link_of(item),
        ));
    }
    links
}

/// Augments the item at `index`: where it has a link and the text of the linked article
/// is at hand, its description becomes the extraction from that text; otherwise (no
/// link, an article that could not be fetched, or no such item) nothing changes.
pub fn augment_item(
    feed: &mut rss::Channel,
    index: usize,
    article: &Option<String>,
    selector: &CssSelector,
)
    ensures
        index < channel_items(*old(feed)).len() ==> channel_items(*final(feed))
            == channel_items(*old(feed)).update(
            index as int,
            augmented(channel_items(*old(feed))[index as int], opt_text(*article), selector@),
        ),
        index >= channel_items(*old(feed)).len() ==> channel_items(*final(feed)) == channel_items(
            *old(feed),
        ),
{
    let ghost items = channel_items(*feed);
    if index >= item_count(feed) {
        return;
    }
    proof {
        assert(items.update(index as int, items[index as int]) =~= items);
    }
    match item_link(feed, index) {
        None => {},
        Some(_) => match article {
            None => {},
            Some(text) => {
                let description = extract(text.as_str(), selector);
                set_item_description(feed, index, description);
            },
        },
    }
}

/// Refurbishes the feed: each item is augmented with the article text at its position in
/// `articles` (`None` where it could not be fetched). Items keep their number and order,
/// and only descriptions change.
pub fn refurb(feed: rss::Channel, articles: &Vec<Option<String>>, selector: &CssSelector) -> (r:
    rss::Channel)
    ensures
        channel_items(r) == refurbished(channel_items(feed), opt_texts(articles@), selector@),
{
    let ghost items = channel_items(feed);
    let ghost texts = opt_texts(articles@);
    let mut feed = feed;
    let n = item_count(&feed);
    let mut i: usize = 0;
    while i < n
        invariant
            i <= n,
            n == items.len(),
            texts == opt_texts(articles@),
            channel_items(feed).len() == n,
            forall|j: int| 0 <= j < i ==> channel_items(feed)[j] == augmented(
                items[j],
                article_at(texts, j),
                selector@,
            ),
            forall|j: int| i <= j < n ==> channel_items(feed)[j] == items[j],
        decreases n - i,
    {
        if i < articles.len() {
            augment_item(&mut feed, i, &articles[i], selector);
        } else {
            augment_item(&mut feed, i, &None, selector);
        }
        i += 1;
    }
    proof {
        assert(channel_items(feed) =~= refurbished(items, texts, selector@));
    }
    feed
}

} // verus!
