use vstd::prelude::*;
use crate::api::common::params::decimal_text;

verus! {

/// How the user agent of a page request is chosen.
#[derive(Clone, Debug)]
pub enum UserAgentMode {
    /// One agent for every request; `None` until one is drawn.
    Fixed(Option<String>),
    /// A newly drawn agent for each request.
    RandomEveryRequest,
}

impl Default for UserAgentMode {
    fn default() -> (r: Self)
        ensures
            r is RandomEveryRequest,
    {
        UserAgentMode::RandomEveryRequest
    }
}

impl UserAgentMode {
    /// The agent that is fixed, if any.
    pub fn current_user_agent(&self) -> (r: Option<String>)
        ensures
            r == match *self {
                UserAgentMode::Fixed(ua) => ua,
                UserAgentMode::RandomEveryRequest => None,
            },
    {
        match self {
            UserAgentMode::Fixed(Some(ua)) => Some(ua.clone()),
            _ => None,
        }
    }

    /// The mode after switching to a fixed agent: a fixed mode stays as it
    /// is, otherwise `fresh` becomes the fixed agent.
    pub fn to_fixed(&self, fresh: String) -> (r: Self)
        ensures
            (*self is Fixed) ==> r == *self,
            (*self is RandomEveryRequest) ==> r == UserAgentMode::Fixed(Some(fresh)),
    {
        match self {
            UserAgentMode::Fixed(ua) => UserAgentMode::Fixed(match ua {
                Some(s) => Some(s.clone()),
                None => None,
            }),
            UserAgentMode::RandomEveryRequest => UserAgentMode::Fixed(Some(fresh)),
        }
    }

    /// The agent for the next request and the mode after it. A custom agent
    /// wins and leaves the mode alone; a fixed mode without an agent keeps
    /// `fresh` from then on; the random mode uses `fresh` once.
    pub fn resolve(&self, custom: Option<&str>, fresh: String) -> (r: (String, Self))
        ensures
            match custom {
                Some(c) => r.0@ == c@ && r.1 == *self,
                None => match *self {
                    UserAgentMode::Fixed(Some(ua)) => r.0 == ua && r.1 == *self,
                    UserAgentMode::Fixed(None) => r.0 == fresh && r.1 == UserAgentMode::Fixed(Some(fresh)),
                    UserAgentMode::RandomEveryRequest => r.0 == fresh && r.1 == *self,
                },
            },
    {
        let same = self.copy();
        match custom {
            Some(c) => (c.to_string(), same),
            None => match self {
                UserAgentMode::Fixed(Some(ua)) => (ua.clone(), same),
                UserAgentMode::Fixed(None) => {
                    let keep = fresh.clone();
                    (fresh, UserAgentMode::Fixed(Some(keep)))
                },
                UserAgentMode::RandomEveryRequest => (fresh, same),
            },
        }
    }

    fn copy(&self) -> (r: Self)
        ensures
            r == *self,
    {
        match self {
            UserAgentMode::Fixed(Some(s)) => UserAgentMode::Fixed(Some(s.clone())),
            UserAgentMode::Fixed(None) => UserAgentMode::Fixed(None),
            UserAgentMode::RandomEveryRequest => UserAgentMode::RandomEveryRequest,
        }
    }
}

/// The pause between page requests: a delay drawn from
/// `min_delay_ms..=max_delay_ms`, when enabled.
#[derive(Clone, Debug)]
pub struct RequestDelayConfig {
    pub min_delay_ms: u64,
    pub max_delay_ms: u64,
    pub enabled: bool,
}

impl Default for RequestDelayConfig {
    fn default() -> (r: Self)
        ensures
            r.min_delay_ms == 1000 && r.max_delay_ms == 3000 && r.enabled,
    {
        RequestDelayConfig { min_delay_ms: 1000, max_delay_ms: 3000, enabled: true }
    }
}

/// Relies on rand::Rng::gen_range over an inclusive range, with the thread's
/// generator: a value inside the range.
#[verifier::external_body]
fn draw_between(lo: u64, hi: u64) -> (r: u64)
    requires
        lo <= hi,
    ensures
        lo <= r <= hi,
{
    rand::Rng::gen_range(&mut rand::thread_rng(), lo..=hi)
}

impl RequestDelayConfig {
    pub open spec fn wf(&self) -> bool {
        self.min_delay_ms <= self.max_delay_ms
    }

    /// An enabled delay between `min_delay_ms` and `max_delay_ms`.
    pub fn new(min_delay_ms: u64, max_delay_ms: u64) -> (r: Self)
        requires
            min_delay_ms <= max_delay_ms,
        ensures
            r.min_delay_ms == min_delay_ms && r.max_delay_ms == max_delay_ms && r.enabled,
    {
        RequestDelayConfig { min_delay_ms, max_delay_ms, enabled: true }
    }

    /// No delay at all.
    pub fn disabled() -> (r: Self)
        ensures
            r.min_delay_ms == 0 && r.max_delay_ms == 0 && !r.enabled,
    {
        RequestDelayConfig { min_delay_ms: 0, max_delay_ms: 0, enabled: false }
    }

    /// A delay in milliseconds: zero when disabled, else within the bounds
    /// (exactly the bound where both are equal).
    pub fn get_random_delay(&self) -> (r: u64)
        requires
            self.wf(),
        ensures
            !self.enabled ==> r == 0,
            self.enabled ==> self.min_delay_ms <= r <= self.max_delay_ms,
    {
        if !self.enabled {
            return 0;
        }
        if self.min_delay_ms == self.max_delay_ms {
            return self.min_delay_ms;
        }
        draw_between(self.min_delay_ms, self.max_delay_ms)
    }

    /// How long to wait before a request, given the drawn `delay_ms` and the
    /// time since the previous request (`None` before the first one): the
    /// rest of the delay, or nothing once it has passed.
    pub fn wait_before(&self, delay_ms: u64, elapsed_ms: Option<u64>) -> (r: Option<u64>)
        ensures
            !self.enabled ==> r is None,
            self.enabled ==> r == match elapsed_ms {
                Some(e) => if e < delay_ms {
                    Some((delay_ms - e) as u64)
                } else {
                    None
                },
                None => None,
            },
    {
        if !self.enabled {
            return None;
        }
        match elapsed_ms {
            Some(e) => if e < delay_ms {
                Some(delay_ms - e)
            } else {
                None
            },
            None => None,
        }
    }
}

/// Extra settings of one page request.
pub struct FetchOptions<'a> {
    pub cookies: Option<Vec<(&'a str, &'a str)>>,
    pub custom_user_agent: Option<&'a str>,
}

impl<'a> Default for FetchOptions<'a> {
    fn default() -> (r: Self)
        ensures
            r.cookies is None && r.custom_user_agent is None,
    {
        FetchOptions { cookies: None, custom_user_agent: None }
    }
}

/// `key=value` pairs joined with `; `, as a Cookie header holds them.
pub open spec fn cookie_text(pairs: Seq<(Seq<char>, Seq<char>)>) -> Seq<char>
    decreases pairs.len(),
{
    if pairs.len() == 0 {
        Seq::empty()
    } else {
        let last = pairs.last().0 + "="@ + pairs.last().1;
        if pairs.len() == 1 {
            last
        } else {
            cookie_text(pairs.drop_last()) + "; "@ + last
        }
    }
}

pub open spec fn cookie_views(pairs: Seq<(&str, &str)>) -> Seq<(Seq<char>, Seq<char>)> {
    pairs.map_values(|p: (&str, &str)| (p.0@, p.1@))
}

/// The Cookie header value for `cookies`.
pub fn cookie_header(cookies: &Vec<(&str, &str)>) -> (r: String)
    ensures
        r@ == cookie_text(cookie_views(cookies@)),
{
    let mut out = String::new();
    let mut i: usize = 0;
    while i < cookies.len()
        invariant
            i <= cookies@.len(),
            out@ == cookie_text(cookie_views(cookies@).take(i as int)),
        decreases cookies@.len() - i,
    {
        let (k, v) = cookies[i];
        assert(cookie_views(cookies@).take(i + 1).drop_last() =~= cookie_views(cookies@).take(i as int));
        if i > 0 {
            out.append("; ");
        }
        out.append(k);
        out.append("=");
        out.append(v);
        i = i + 1;
    }
    assert(cookie_views(cookies@).take(cookies@.len() as int) =~= cookie_views(cookies@));
    out
}

/// The first index of `c` in `s`.
pub open spec fn first_index(s: Seq<char>, c: char) -> Option<int>
    decreases s.len(),
{
    if s.len() == 0 {
        None
    } else if s[0] == c {
        Some(0)
    } else {
        match first_index(s.drop_first(), c) {
            Some(i) => Some(i + 1),
            None => None,
        }
    }
}

pub open spec fn shift(o: Option<int>, k: int) -> Option<int> {
    match o {
        Some(j) => Some(j + k),
        None => None,
    }
}

/// A `key=value` cookie split at its first `=`; `None` where it has none.
pub open spec fn cookie_parts(s: Seq<char>) -> Option<(Seq<char>, Seq<char>)> {
    match first_index(s, '=') {
        Some(i) => Some((s.take(i), s.skip(i + 1))),
        None => None,
    }
}

proof fn lemma_first_index_step(s: Seq<char>, i: int, c: char)
    requires
        0 <= i < s.len(),
        first_index(s, c) == shift(first_index(s.skip(i), c), i),
        s[i] != c,
    ensures
        first_index(s, c) == shift(first_index(s.skip(i + 1), c), i + 1),
{
    assert(s.skip(i).drop_first() =~= s.skip(i + 1));
    assert(s.skip(i)[0] == s[i]);
}

/// Splits one cookie given as `key=value` at its first `=`.
pub fn parse_cookie(cookie: &str) -> (r: Option<(String, String)>)
    ensures
        match cookie_parts(cookie@) {
            Some((k, v)) => match r {
                Some(p) => p.0@ == k && p.1@ == v,
                None => false,
            },
            None => r is None,
        },
{
    let n = cookie.unicode_len();
    let mut i: usize = 0;
    assert(cookie@.skip(0) =~= cookie@);
    assert(first_index(cookie@, '=') == shift(first_index(cookie@.skip(0), '='), 0));
    while i < n
        invariant
            n == cookie@.len(),
            i <= n,
            first_index(cookie@, '=') == shift(first_index(cookie@.skip(i as int), '='), i as int),
        decreases n - i,
    {
        if cookie.get_char(i) == '=' {
            assert(cookie@.skip(i as int)[0] == '=');
            let key = cookie.substring_char(0, i).to_string();
            let value = cookie.substring_char(i + 1, n).to_string();
            assert(cookie@.subrange(0, i as int) =~= cookie@.take(i as int));
            assert(cookie@.subrange(i + 1, n as int) =~= cookie@.skip(i + 1));
            return Some((key, value));
        }
        proof {
            lemma_first_index_step(cookie@, i as int, '=');
        }
        i = i + 1;
    }
    assert(cookie@.skip(i as int).len() == 0);
    None
}

/// Splits each `key=value` cookie; fails on the first one without `=`.
pub fn parse_cookies(cookies: &Vec<String>) -> (r: Result<Vec<(String, String)>, String>)
    ensures
        r is Ok <==> forall|i: int| 0 <= i < cookies@.len() ==> (#[trigger] cookie_parts(cookies@[i]@)) is Some,
        r is Ok ==> r->Ok_0@.len() == cookies@.len() && forall|i: int|
            0 <= i < cookies@.len() ==> (#[trigger] cookie_parts(cookies@[i]@)) == Some(
                (r->Ok_0@[i].0@, r->Ok_0@[i].1@),
            ),
{
    let mut out: Vec<(String, String)> = Vec::new();
    let mut i: usize = 0;
    while i < cookies.len()
        invariant
            i <= cookies@.len(),
            out@.len() == i,
            forall|j: int| 0 <= j < i ==> (#[trigger] cookie_parts(cookies@[j]@)) == Some(
                (out@[j].0@, out@[j].1@),
            ),
        decreases cookies@.len() - i,
    {
        match parse_cookie(cookies[i].as_str()) {
            Some(p) => {
                out.push(p);
            },
            None => {
                let mut msg = String::new();
                msg.append("Invalid cookie format: ");
                msg.append(cookies[i].as_str());
                msg.append(". Expected key=value");
                return Err(msg);
            },
        }
        i = i + 1;
    }
    Ok(out)
}

/// The page URL of a user's rating list: the first page has no page
/// parameter, later ones `?p=<page>`.
pub fn rating_page_url(user_id: u32, page: u32) -> (r: String)
    ensures
        r@ == "https://mypage.syosetu.com/mypagenovelhyoka/list/userid/"@ + crate::api::common::params::decimal(user_id as nat)
            + "/"@ + if page == 1 {
            Seq::<char>::empty()
        } else {
            "?p="@ + crate::api::common::params::decimal(page as nat)
        },
{
    let mut url = String::new();
    url.append("https://mypage.syosetu.com/mypagenovelhyoka/list/userid/");
    let id = decimal_text(user_id as u64);
    url.append(id.as_str());
    url.append("/");
    if page != 1 {
        url.append("?p=");
        let p = decimal_text(page as u64);
        url.append(p.as_str());
    }
    url
}

} // verus!
