//! Properties of refurbishment and extraction that hold for every input.

use vstd::prelude::*;
use crate::extract::{extraction, joined, selected_markup, separator};
use crate::feed::{article_at, augmented, description_of, link_of, refurbished, ItemFields};

verus! {

/// Refurbishment keeps the number and the order of the items: each item keeps its title
/// and its link, and an item without a link is left exactly as it was.
pub proof fn lemma_refurb_keeps_items(
    items: Seq<ItemFields>,
    articles: Seq<Option<Seq<char>>>,
    selector: Seq<char>,
)
    ensures
        refurbished(items, articles, selector).len() == items.len(),
        forall|i: int|
            0 <= i < items.len() ==> (#[trigger] refurbished(items, articles, selector)[i]).0
                == items[i].0 && refurbished(items, articles, selector)[i].1 == items[i].1,
        forall|i: int|
            0 <= i < items.len() && link_of(items[i]) is None ==> #[trigger] refurbished(
                items,
                articles,
                selector,
            )[i] == items[i],
{
}

/// An item whose article could not be fetched keeps its description, while every item
/// with a link whose article was fetched gets the extraction from that article.
pub proof fn lemma_failure_isolation(
    items: Seq<ItemFields>,
    articles: Seq<Option<Seq<char>>>,
    selector: Seq<char>,
)
    ensures
        forall|i: int|
            0 <= i < items.len() && article_at(articles, i) is None ==> #[trigger] refurbished(
                items,
                articles,
                selector,
            )[i] == items[i],
        forall|i: int|
            0 <= i < items.len() && link_of(items[i]) is Some && article_at(articles, i) is Some
                ==> description_of(#[trigger] refurbished(items, articles, selector)[i])
                == Some(extraction(article_at(articles, i)->Some_0, selector)),
{
}

/// What happens to one item does not depend on the articles of the others: two runs whose
/// article texts differ only at position `k` give the same item at every other position.
pub proof fn lemma_siblings_unaffected(
    items: Seq<ItemFields>,
    articles: Seq<Option<Seq<char>>>,
    other: Seq<Option<Seq<char>>>,
    selector: Seq<char>,
    k: int,
)
    requires
        articles.len() == other.len(),
        forall|j: int| 0 <= j < articles.len() && j != k ==> articles[j] == other[j],
    ensures
        forall|j: int|
            0 <= j < items.len() && j != k ==> #[trigger] refurbished(items, articles, selector)[j]
                == refurbished(items, other, selector)[j],
{
    assert forall|j: int| 0 <= j < items.len() && j != k implies #[trigger] refurbished(
        items,
        articles,
        selector,
    )[j] == refurbished(items, other, selector)[j] by {
        assert(article_at(articles, j) == article_at(other, j));
    }
}

/// Refurbishment is deterministic: at every position where two runs see the same item and
/// the same article text, they give the same item, description included.
pub proof fn lemma_refurb_deterministic(
    items: Seq<ItemFields>,
    other_items: Seq<ItemFields>,
    articles: Seq<Option<Seq<char>>>,
    other_articles: Seq<Option<Seq<char>>>,
    selector: Seq<char>,
)
    requires
        items.len() == other_items.len(),
    ensures
        forall|i: int|
            0 <= i < items.len() && items[i] == other_items[i] && article_at(articles, i)
                == article_at(other_articles, i) ==> #[trigger] refurbished(
                items,
                articles,
                selector,
            )[i] == refurbished(other_items, other_articles, selector)[i],
{
}

/// The recomposed fragment of an article is empty when the selector matches nothing, the
/// markup of the match when it matches one element, and the markup of the first match, a
/// line break and the markup of the second when it matches two.
pub proof fn lemma_recomposition(html: Seq<char>, selector: Seq<char>)
    ensures
        selected_markup(html, selector).len() == 0 ==> extraction(html, selector)
            == Seq::<char>::empty(),
        selected_markup(html, selector).len() == 1 ==> extraction(html, selector)
            == selected_markup(html, selector)[0],
        selected_markup(html, selector).len() == 2 ==> extraction(html, selector)
            == selected_markup(html, selector)[0] + separator() + selected_markup(html, selector)[1],
{
    let parts = selected_markup(html, selector);
    if parts.len() == 2 {
        assert(parts.drop_last().len() == 1);
        assert(parts.drop_last()[0] == parts[0]);
        assert(joined(parts.drop_last()) == parts[0]);
        assert(parts.last() == parts[1]);
    }
}

} // verus!
