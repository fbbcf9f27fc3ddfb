use vstd::prelude::*;
use crate::api::common::params::{
    level_pair, num_pair, opt_view, pairs_view, push_level, push_pair, push_text, push_u8, text_pair, widen_u8,
};

verus! {

/// What `str::to_uppercase` makes of a text.
pub uninterp spec fn upper_of(s: Seq<char>) -> Seq<char>;

/// Relies on str::to_uppercase: the result depends on the characters alone.
#[verifier::external_body]
fn uppercase(s: &str) -> (r: String)
    ensures
        r@ == upper_of(s@),
{
    s.to_uppercase()
}

/// The query of a hall-of-fame request for the (already upper-cased) code.
pub open spec fn rankin_query_spec(
    ncode: Seq<char>,
    gzip: Option<u8>,
    libtype: Option<u8>,
    callback: Option<Seq<char>>,
) -> Seq<(Seq<char>, Seq<char>)> {
    seq![("out"@, "json"@), ("ncode"@, ncode)] + num_pair("libtype"@, widen_u8(libtype)) + text_pair(
        "callback"@,
        callback,
    ) + level_pair(gzip)
}

/// The query of a hall-of-fame request whose code is already upper case.
pub fn rankin_query_for(upper_ncode: String, gzip: Option<u8>, libtype: Option<u8>, callback: &Option<String>) -> (r:
    Vec<(String, String)>)
    ensures
        pairs_view(r@) == rankin_query_spec(upper_ncode@, gzip, libtype, opt_view(*callback)),
{
    let ghost u = upper_ncode@;
    let mut params: Vec<(String, String)> = Vec::new();
    assert(pairs_view(params@) =~= Seq::empty());
    push_pair(&mut params, "out", "json".to_string());
    push_pair(&mut params, "ncode", upper_ncode);
    assert(Seq::<(Seq<char>, Seq<char>)>::empty() + seq![("out"@, "json"@)] + seq![("ncode"@, u)] =~= seq![
        ("out"@, "json"@),
        ("ncode"@, u),
    ]);
    push_u8(&mut params, "libtype", libtype);
    push_text(&mut params, "callback", callback);
    push_level(&mut params, gzip);
    params
}

/// The query of a hall-of-fame request: the code is sent upper case.
pub fn rankin_query(ncode: &str, gzip: Option<u8>, libtype: Option<u8>, callback: &Option<String>) -> (r: Vec<
    (String, String),
>)
    ensures
        pairs_view(r@) == rankin_query_spec(upper_of(ncode@), gzip, libtype, opt_view(*callback)),
{
    rankin_query_for(uppercase(ncode), gzip, libtype, callback)
}

} // verus!
