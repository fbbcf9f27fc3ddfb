use vstd::prelude::*;

verus! {

/// Walks the pages of a user's rating list through `fetcher`.
pub struct NarouRatingScraper<F> {
    pub fetcher: F,
}

impl<F> NarouRatingScraper<F> {
    pub fn new(fetcher: F) -> (r: Self)
        ensures
            r.fetcher == fetcher,
    {
        NarouRatingScraper { fetcher }
    }
}

/// `needle` occurs in `hay`.
pub open spec fn contains_text(hay: Seq<char>, needle: Seq<char>) -> bool {
    exists|i: int| 0 <= i && i + needle.len() <= hay.len() && #[trigger] hay.subrange(i, i + needle.len()) == needle
}

/// Relies on str::contains with a string pattern: whether `needle` occurs
/// in `hay`.
#[verifier::external_body]
fn contains(hay: &str, needle: &str) -> (r: bool)
    ensures
        r == contains_text(hay@, needle@),
{
    hay.contains(needle)
}

/// The marker of a disabled "next" link, shown on the last page.
pub const NEXT_DISABLED: &'static str = "<span class=\"c-pager__item is-disabled\" title=\"次へ\">";

/// The end of a "next" link.
pub const NEXT_TITLE: &'static str = "title=\"次へ\">";

/// The start of a page link.
pub const PAGE_LINK: &'static str = "<a href=\"?p=";

/// A rating page links to a further page: its "next" link is not disabled,
/// and it has a "next" title and a page link.
pub open spec fn links_next(html: Seq<char>) -> bool {
    !contains_text(html, NEXT_DISABLED@) && contains_text(html, NEXT_TITLE@) && contains_text(html, PAGE_LINK@)
}

impl<F> NarouRatingScraper<F> {
    pub fn has_next_page(html: &str) -> (r: bool)
        ensures
            r == links_next(html@),
    {
        if contains(html, NEXT_DISABLED) {
            return false;
        }
        contains(html, NEXT_TITLE) && contains(html, PAGE_LINK)
    }

    /// The page to fetch after page `page`, which held `found` entries: none
    /// once a page is empty or links no further.
    pub fn next_page(page: u32, found: usize, html: &str) -> (r: Option<u32>)
        requires
            page < u32::MAX,
        ensures
            r == if found == 0 || !links_next(html@) {
                None
            } else {
                Some((page + 1) as u32)
            },
    {
        if found == 0 || !Self::has_next_page(html) {
            None
        } else {
            Some(page + 1)
        }
    }
}

} // verus!
