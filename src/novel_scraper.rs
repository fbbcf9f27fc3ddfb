use vstd::prelude::*;
use crate::api::common::params::{decimal, decimal_text};
use vstd::utf8::encode_utf8;

verus! {

/// The kind of a novel, which decides its pages.
#[derive(Debug, Clone, Copy, PartialEq, Eq, Structural)]
pub enum NovelType {
    /// One page, no episodes.
    ShortStory,
    /// Episodes `1..=total_episodes`, one page each.
    Serial { total_episodes: u32 },
}

/// One fetched page of a novel, kept as HTML.
#[derive(Debug, Clone)]
pub struct Episode {
    /// Its number; zero for a short story.
    pub episode_number: u32,
    pub html: String,
}

/// All fetched pages of one novel.
#[derive(Debug, Clone)]
pub struct NovelContent {
    pub ncode: String,
    pub novel_type: NovelType,
    pub episodes: Vec<Episode>,
}

/// The byte lengths of the pages' HTML, added up.
pub open spec fn html_bytes(eps: Seq<Episode>) -> nat
    decreases eps.len(),
{
    if eps.len() == 0 {
        0
    } else {
        html_bytes(eps.drop_last()) + encode_utf8(eps.last().html@).len()
    }
}

/// The index of the first episode numbered `n`.
pub open spec fn episode_index(eps: Seq<Episode>, n: u32) -> Option<int>
    decreases eps.len(),
{
    if eps.len() == 0 {
        None
    } else if eps[0].episode_number == n {
        Some(0)
    } else {
        match episode_index(eps.drop_first(), n) {
            Some(i) => Some(i + 1),
            None => None,
        }
    }
}

impl NovelContent {
    pub fn episode_count(&self) -> (r: usize)
        ensures
            r == self.episodes@.len(),
    {
        self.episodes.len()
    }

    /// The page of episode `episode_number`: for a short story only number
    /// zero, the single page; for a serial the first page with that number.
    pub fn get_episode(&self, episode_number: u32) -> (r: Option<&Episode>)
        ensures
            match self.novel_type {
                NovelType::ShortStory => if episode_number == 0 && self.episodes@.len() > 0 {
                    r == Some(&self.episodes@[0])
                } else {
                    r is None
                },
                NovelType::Serial { .. } => match episode_index(self.episodes@, episode_number) {
                    Some(i) => r == Some(&self.episodes@[i]),
                    None => r is None,
                },
            },
    {
        match self.novel_type {
            NovelType::ShortStory => {
                if episode_number == 0 && self.episodes.len() > 0 {
                    Some(&self.episodes[0])
                } else {
                    None
                }
            },
            NovelType::Serial { .. } => {
                let mut i: usize = 0;
                assert(self.episodes@.skip(0) =~= self.episodes@);
                while i < self.episodes.len()
                    invariant
                        i <= self.episodes@.len(),
                        self.novel_type is Serial,
                        episode_index(self.episodes@, episode_number) == match episode_index(
                            self.episodes@.skip(i as int),
                            episode_number,
                        ) {
                            Some(j) => Some(j + i),
                            None => None::<int>,
                        },
                    decreases self.episodes@.len() - i,
                {
                    assert(self.episodes@.skip(i as int).drop_first() =~= self.episodes@.skip(i + 1));
                    assert(self.episodes@.skip(i as int)[0] == self.episodes@[i as int]);
                    if self.episodes[i].episode_number == episode_number {
                        return Some(&self.episodes[i]);
                    }
                    i = i + 1;
                }
                None
            },
        }
    }

    /// The size of all pages' HTML in bytes.
    pub fn total_size_bytes(&self) -> (r: usize)
        requires
            html_bytes(self.episodes@) <= usize::MAX,
        ensures
            r == html_bytes(self.episodes@),
    {
        let mut total: usize = 0;
        let mut i: usize = 0;
        while i < self.episodes.len()
            invariant
                i <= self.episodes@.len(),
                total == html_bytes(self.episodes@.take(i as int)),
                html_bytes(self.episodes@) <= usize::MAX,
            decreases self.episodes@.len() - i,
        {
            assert(self.episodes@.take(i + 1).drop_last() =~= self.episodes@.take(i as int));
            proof {
                lemma_html_bytes_prefix(self.episodes@, i + 1);
            }
            total = total + self.episodes[i].html.as_str().len();
            i = i + 1;
        }
        assert(self.episodes@.take(i as int) =~= self.episodes@);
        total
    }
}

proof fn lemma_html_bytes_prefix(eps: Seq<Episode>, k: int)
    requires
        0 <= k <= eps.len(),
    ensures
        html_bytes(eps.take(k)) <= html_bytes(eps),
    decreases eps.len(),
{
    if k < eps.len() {
        assert(eps.drop_last().take(k) =~= eps.take(k));
        lemma_html_bytes_prefix(eps.drop_last(), k);
    } else {
        assert(eps.take(k) =~= eps);
    }
}

/// Fetches the pages of a novel through `fetcher`, from the general site or
/// the adult one.
pub struct NarouNovelScraper<F> {
    pub fetcher: F,
    pub is_nocturne: bool,
}

/// The address of a novel's page: its index (or single page), or an episode.
pub open spec fn novel_url(nocturne: bool, ncode: Seq<char>, episode: Option<u32>) -> Seq<char> {
    let base = if nocturne {
        "https://novel18.syosetu.com"@
    } else {
        "https://ncode.syosetu.com"@
    };
    match episode {
        Some(n) => base + "/"@ + ncode + "/"@ + decimal(n as nat) + "/"@,
        None => base + "/"@ + ncode + "/"@,
    }
}

impl<F> NarouNovelScraper<F> {
    /// A scraper of the general site.
    pub fn new(fetcher: F) -> (r: Self)
        ensures
            r.fetcher == fetcher,
            !r.is_nocturne(),
    {
        NarouNovelScraper { fetcher, is_nocturne: false }
    }

    /// A scraper of the adult site.
    pub fn new_nocturne(fetcher: F) -> (r: Self)
        ensures
            r.fetcher == fetcher,
            r.is_nocturne(),
    {
        NarouNovelScraper { fetcher, is_nocturne: true }
    }

    pub open spec fn is_nocturne(&self) -> bool {
        self.is_nocturne
    }

    pub fn nocturne(&self) -> (r: bool)
        ensures
            r == self.is_nocturne(),
    {
        self.is_nocturne
    }

    pub fn build_novel_url(&self, ncode: &str, episode_number: Option<u32>) -> (r: String)
        ensures
            r@ == novel_url(self.is_nocturne(), ncode@, episode_number),
    {
        let mut url = String::new();
        if self.is_nocturne {
            url.append("https://novel18.syosetu.com");
        } else {
            url.append("https://ncode.syosetu.com");
        }
        url.append("/");
        url.append(ncode);
        url.append("/");
        match episode_number {
            Some(n) => {
                let num = decimal_text(n as u64);
                url.append(num.as_str());
                url.append("/");
            },
            None => {},
        }
        url
    }

    /// The pages to fetch for a novel, in order, each with its episode number:
    /// the single page (number zero) of a short story, or episodes
    /// `1..=total_episodes` of a serial.
    pub fn page_plan(&self, ncode: &str, novel_type: NovelType) -> (r: Vec<(u32, String)>)
        ensures
            match novel_type {
                NovelType::ShortStory => r@.len() == 1 && r@[0].0 == 0 && r@[0].1@ == novel_url(
                    self.is_nocturne(),
                    ncode@,
                    None,
                ),
                NovelType::Serial { total_episodes } => r@.len() == total_episodes && forall|k: int|
                    0 <= k < r@.len() ==> (#[trigger] r@[k]).0 == k + 1 && r@[k].1@ == novel_url(
                        self.is_nocturne(),
                        ncode@,
                        Some((k + 1) as u32),
                    ),
            },
    {
        let mut plan: Vec<(u32, String)> = Vec::new();
        match novel_type {
            NovelType::ShortStory => {
                plan.push((0, self.build_novel_url(ncode, None)));
            },
            NovelType::Serial { total_episodes } => {
                let mut k: u32 = 0;
                while k < total_episodes
                    invariant
                        k <= total_episodes,
                        plan@.len() == k,
                        forall|j: int|
                            0 <= j < k ==> (#[trigger] plan@[j]).0 == j + 1 && plan@[j].1@ == novel_url(
                                self.is_nocturne(),
                                ncode@,
                                Some((j + 1) as u32),
                            ),
                    decreases total_episodes - k,
                {
                    let url = self.build_novel_url(ncode, Some(k + 1));
                    plan.push((k + 1, url));
                    k = k + 1;
                }
            },
        }
        plan
    }
}

} // verus!
