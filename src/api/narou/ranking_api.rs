use vstd::prelude::*;
use crate::api::common::params::{level_pair, opt_view, pairs_view, push_level, push_pair};

verus! {

/// The periods a ranking covers.
#[derive(Debug, Clone, Copy, PartialEq, Eq, Structural)]
pub enum RankingType {
    Daily,
    Weekly,
    Monthly,
    Quarter,
    Yearly,
}

impl RankingType {
    /// The value the API takes for it.
    pub open spec fn name(self) -> Seq<char> {
        match self {
            RankingType::Daily => "d"@,
            RankingType::Weekly => "w"@,
            RankingType::Monthly => "m"@,
            RankingType::Quarter => "q"@,
            RankingType::Yearly => "y"@,
        }
    }

    pub fn as_str(&self) -> (r: &'static str)
        ensures
            r@ == self.name(),
    {
        match self {
            RankingType::Daily => "d",
            RankingType::Weekly => "w",
            RankingType::Monthly => "m",
            RankingType::Quarter => "q",
            RankingType::Yearly => "y",
        }
    }
}

/// The `rtype` of a ranking: the date (20130501 where none is given) and the
/// type letter, joined by `-`.
pub open spec fn ranking_rtype(date: Option<Seq<char>>, t: RankingType) -> Seq<char> {
    (match date {
        Some(d) => d,
        None => "20130501"@,
    }) + "-"@ + t.name()
}

/// The query of a ranking request: JSON output, the `rtype`, and the gzip
/// level where it is in `1..=5`.
pub fn ranking_query(ranking_type: RankingType, date: &Option<String>, gzip: Option<u8>) -> (r: Vec<(String, String)>)
    ensures
        pairs_view(r@) == seq![("out"@, "json"@), ("rtype"@, ranking_rtype(opt_view(*date), ranking_type))]
            + level_pair(gzip),
{
    let mut rtype = match date {
        Some(d) => d.clone(),
        None => "20130501".to_string(),
    };
    rtype.append("-");
    rtype.append(ranking_type.as_str());
    let mut params: Vec<(String, String)> = Vec::new();
    assert(pairs_view(params@) =~= Seq::empty());
    push_pair(&mut params, "out", "json".to_string());
    push_pair(&mut params, "rtype", rtype);
    assert(Seq::<(Seq<char>, Seq<char>)>::empty() + seq![("out"@, "json"@)] + seq![
        ("rtype"@, ranking_rtype(opt_view(*date), ranking_type)),
    ] =~= seq![("out"@, "json"@), ("rtype"@, ranking_rtype(opt_view(*date), ranking_type))]);
    push_level(&mut params, gzip);
    params
}

} // verus!
