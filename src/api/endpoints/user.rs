use vstd::prelude::*;
use crate::api::common::error::ApiError;
use crate::api::common::params::{agree_but, lemma_agree_but_one, 
    decimal, num_pair, opt_view, pairs_view, push_text, push_u32, push_u8, text_pair, widen_u32, widen_u8,
};
use crate::api::common::request::{format_from_fields, gzip_requested, ApiRequest};
use crate::api::common::response::{key_names, counted, decode_counted, ApiResponse, Entity, OutputFormat};
use crate::api::common::selector::{dash_free, lemma_split_dash_free, lemma_split_join, lemma_split_nonempty, join_dash, join_dashes, split_dash, split_dashes, texts};
use crate::api::common::tree::{
    int_node, key_node, lookup, opt_text, text_node, opt_u32, opt_u64, same_text, text_field, u32_field, u64_field, Node,
};

verus! {

/// A query of the user API.
#[derive(Debug, Clone)]
pub struct UserRequest {
    pub gzip: Option<u8>,
    pub out: Option<String>,
    pub of: Option<String>,
    pub lim: Option<u32>,
    pub st: Option<u32>,
    pub order: Option<String>,
    pub libtype: Option<u8>,
    pub word: Option<String>,
    pub notword: Option<String>,
    pub userid: Option<u32>,
    pub name1st: Option<String>,
    pub minnovel: Option<u32>,
    pub maxnovel: Option<u32>,
    pub minreview: Option<u32>,
    pub maxreview: Option<u32>,
    pub callback: Option<String>,
}

impl UserRequest {
    /// A request for JSON output with every optional field unset.
    pub fn new() -> (r: Self)
        ensures
            r.gzip is None,
            r.out is Some && r.out->0@ == "json"@,
            r.of is None,
            r.lim is None,
            r.st is None,
            r.order is None,
            r.libtype is None,
            r.word is None,
            r.notword is None,
            r.userid is None,
            r.name1st is None,
            r.minnovel is None,
            r.maxnovel is None,
            r.minreview is None,
            r.maxreview is None,
            r.callback is None,
    {
        Self {
            gzip: None,
            out: Some("json".to_string()),
            of: None,
            lim: None,
            st: None,
            order: None,
            libtype: None,
            word: None,
            notword: None,
            userid: None,
            name1st: None,
            minnovel: None,
            maxnovel: None,
            minreview: None,
            maxreview: None,
            callback: None,
        }
    }

    /// The query parameters in declaration order, with `of` as the value of
    /// the field selector.
    pub open spec fn query_with(&self, of: Option<Seq<char>>) -> Seq<(Seq<char>, Seq<char>)> {
        Seq::empty()
            + num_pair("gzip"@, widen_u8(self.gzip))
            + text_pair("out"@, opt_view(self.out))
            + text_pair("of"@, of)
            + num_pair("lim"@, widen_u32(self.lim))
            + num_pair("st"@, widen_u32(self.st))
            + text_pair("order"@, opt_view(self.order))
            + num_pair("libtype"@, widen_u8(self.libtype))
            + text_pair("word"@, opt_view(self.word))
            + text_pair("notword"@, opt_view(self.notword))
            + num_pair("userid"@, widen_u32(self.userid))
            + text_pair("name1st"@, opt_view(self.name1st))
            + num_pair("minnovel"@, widen_u32(self.minnovel))
            + num_pair("maxnovel"@, widen_u32(self.maxnovel))
            + num_pair("minreview"@, widen_u32(self.minreview))
            + num_pair("maxreview"@, widen_u32(self.maxreview))
            + text_pair("callback"@, opt_view(self.callback))
    }

    fn params_with_of(&self, of: &Option<String>) -> (r: Vec<(String, String)>)
        ensures
            pairs_view(r@) == self.query_with(opt_view(*of)),
    {
        let mut params: Vec<(String, String)> = Vec::new();
        assert(pairs_view(params@) =~= Seq::empty());
        push_u8(&mut params, "gzip", self.gzip);
        push_text(&mut params, "out", &self.out);
        push_text(&mut params, "of", of);
        push_u32(&mut params, "lim", self.lim);
        push_u32(&mut params, "st", self.st);
        push_text(&mut params, "order", &self.order);
        push_u8(&mut params, "libtype", self.libtype);
        push_text(&mut params, "word", &self.word);
        push_text(&mut params, "notword", &self.notword);
        push_u32(&mut params, "userid", self.userid);
        push_text(&mut params, "name1st", &self.name1st);
        push_u32(&mut params, "minnovel", self.minnovel);
        push_u32(&mut params, "maxnovel", self.maxnovel);
        push_u32(&mut params, "minreview", self.minreview);
        push_u32(&mut params, "maxreview", self.maxreview);
        push_text(&mut params, "callback", &self.callback);
        params
    }
}

impl UserRequest {
    /// No optional field is set.
    pub open spec fn all_unset(&self) -> bool {
        self.gzip is None
            && self.out is None
            && self.of is None
            && self.lim is None
            && self.st is None
            && self.order is None
            && self.libtype is None
            && self.word is None
            && self.notword is None
            && self.userid is None
            && self.name1st is None
            && self.minnovel is None
            && self.maxnovel is None
            && self.minreview is None
            && self.maxreview is None
            && self.callback is None
    }
}

/// With no optional field set, the query holds no parameter.
pub proof fn lemma_user_request_unset_query(r: UserRequest)
    requires
        r.all_unset(),
    ensures
        r.query() == Seq::<(Seq<char>, Seq<char>)>::empty(),
{
    assert(r.query() =~= Seq::<(Seq<char>, Seq<char>)>::empty());
}

/// With only `lim` set, the query is the one pair for it.
pub proof fn lemma_user_request_only_lim(r: UserRequest, v: u32)
    requires
        r.lim == Some(v),
        r.gzip is None,
        r.out is None,
        r.of is None,
        r.st is None,
        r.order is None,
        r.libtype is None,
        r.word is None,
        r.notword is None,
        r.userid is None,
        r.name1st is None,
        r.minnovel is None,
        r.maxnovel is None,
        r.minreview is None,
        r.maxreview is None,
        r.callback is None,
    ensures
        r.query() == seq![("lim"@, decimal(v as nat))],
{
    assert(r.query() =~= seq![("lim"@, decimal(v as nat))]);
}

/// With only `word` set, the query is the one pair for it.
pub proof fn lemma_user_request_only_word(r: UserRequest, v: String)
    requires
        r.word == Some(v),
        r.gzip is None,
        r.out is None,
        r.of is None,
        r.lim is None,
        r.st is None,
        r.order is None,
        r.libtype is None,
        r.notword is None,
        r.userid is None,
        r.name1st is None,
        r.minnovel is None,
        r.maxnovel is None,
        r.minreview is None,
        r.maxreview is None,
        r.callback is None,
    ensures
        r.query() == seq![("word"@, v@)],
{
    assert(r.query() =~= seq![("word"@, v@)]);
}

impl ApiRequest for UserRequest {
    open spec fn query(&self) -> Seq<(Seq<char>, Seq<char>)> {
        self.query_with(opt_view(self.of))
    }

    open spec fn out_field(&self) -> Option<String> {
        self.out
    }

    open spec fn gzip_field(&self) -> Option<u8> {
        self.gzip
    }

    open spec fn callback_field(&self) -> Option<String> {
        self.callback
    }

    fn to_query_params(&self) -> (r: Vec<(String, String)>) {
        self.params_with_of(&self.of)
    }

    fn output_format(&self) -> (r: OutputFormat) {
        format_from_fields(&self.out, &self.callback)
    }

    fn is_gzip(&self) -> (r: bool) {
        gzip_requested(self.gzip)
    }

    fn get_callback(&self) -> (r: Option<String>) {
        match &self.callback {
            Some(c) => Some(c.clone()),
            None => None,
        }
    }
}

/// One user record.
#[derive(Debug, Clone, PartialEq)]
pub struct NarouUserInfo {
    pub userid: Option<u32>,
    pub name: Option<String>,
    pub yomikata: Option<String>,
    pub name1st: Option<String>,
    pub novel_cnt: Option<u32>,
    pub review_cnt: Option<u32>,
    pub novel_length: Option<u64>,
    pub sum_global_point: Option<u64>,
}

impl NarouUserInfo {
    /// The map node of this record: one entry per field, null for an unset one.
    pub fn to_node(&self) -> (r: Node)
        ensures
            <NarouUserInfo as Entity>::decoded(r) == Some(*self),
            r is Dict && lookup(r->Dict_0@, "allcount"@) is None,
    {
        let entries: Vec<(Node, Node)> = vec![
            (key_node("userid"), int_node(match self.userid { Some(x) => Some(x as u64), None => None })),
            (key_node("name"), text_node(&self.name)),
            (key_node("yomikata"), text_node(&self.yomikata)),
            (key_node("name1st"), text_node(&self.name1st)),
            (key_node("novel_cnt"), int_node(match self.novel_cnt { Some(x) => Some(x as u64), None => None })),
            (key_node("review_cnt"), int_node(match self.review_cnt { Some(x) => Some(x as u64), None => None })),
            (key_node("novel_length"), int_node(match self.novel_length { Some(x) => Some(x as u64), None => None })),
            (key_node("sum_global_point"), int_node(match self.sum_global_point { Some(x) => Some(x as u64), None => None })),
        ];
        proof {
            reveal_strlit("userid");
            reveal_strlit("name");
            reveal_strlit("yomikata");
            reveal_strlit("name1st");
            reveal_strlit("novel_cnt");
            reveal_strlit("review_cnt");
            reveal_strlit("novel_length");
            reveal_strlit("sum_global_point");
            assert(lookup(entries@, "userid"@) == Some(entries@[0].1)) by {
                reveal_with_fuel(lookup, 2);
            }
            assert(lookup(entries@, "name"@) == Some(entries@[1].1)) by {
                reveal_with_fuel(lookup, 3);
                assert("name"@.len() != "userid"@.len());
            }
            assert(lookup(entries@, "yomikata"@) == Some(entries@[2].1)) by {
                reveal_with_fuel(lookup, 4);
                assert("yomikata"@.len() != "userid"@.len());
                assert("yomikata"@.len() != "name"@.len());
            }
            assert(lookup(entries@, "name1st"@) == Some(entries@[3].1)) by {
                reveal_with_fuel(lookup, 5);
                assert("name1st"@.len() != "userid"@.len());
                assert("name1st"@.len() != "name"@.len());
                assert("name1st"@.len() != "yomikata"@.len());
            }
            assert(lookup(entries@, "novel_cnt"@) == Some(entries@[4].1)) by {
                reveal_with_fuel(lookup, 6);
                assert("novel_cnt"@.len() != "userid"@.len());
                assert("novel_cnt"@.len() != "name"@.len());
                assert("novel_cnt"@.len() != "yomikata"@.len());
                assert("novel_cnt"@.len() != "name1st"@.len());
            }
            assert(lookup(entries@, "review_cnt"@) == Some(entries@[5].1)) by {
                reveal_with_fuel(lookup, 7);
                assert("review_cnt"@.len() != "userid"@.len());
                assert("review_cnt"@.len() != "name"@.len());
                assert("review_cnt"@.len() != "yomikata"@.len());
                assert("review_cnt"@.len() != "name1st"@.len());
                assert("review_cnt"@.len() != "novel_cnt"@.len());
            }
            assert(lookup(entries@, "novel_length"@) == Some(entries@[6].1)) by {
                reveal_with_fuel(lookup, 8);
                assert("novel_length"@.len() != "userid"@.len());
                assert("novel_length"@.len() != "name"@.len());
                assert("novel_length"@.len() != "yomikata"@.len());
                assert("novel_length"@.len() != "name1st"@.len());
                assert("novel_length"@.len() != "novel_cnt"@.len());
                assert("novel_length"@.len() != "review_cnt"@.len());
            }
            assert(lookup(entries@, "sum_global_point"@) == Some(entries@[7].1)) by {
                reveal_with_fuel(lookup, 9);
                assert("sum_global_point"@.len() != "userid"@.len());
                assert("sum_global_point"@.len() != "name"@.len());
                assert("sum_global_point"@.len() != "yomikata"@.len());
                assert("sum_global_point"@.len() != "name1st"@.len());
                assert("sum_global_point"@.len() != "novel_cnt"@.len());
                assert("sum_global_point"@.len() != "review_cnt"@.len());
                assert("sum_global_point"@.len() != "novel_length"@.len());
            }
            assert(lookup(entries@, "allcount"@) is None) by {
                reveal_strlit("allcount");
                reveal_with_fuel(lookup, 9);
                assert("allcount"@.len() != "userid"@.len());
                assert("allcount"@.len() != "name"@.len());
                assert("allcount"@[0] != "yomikata"@[0]);
                assert("allcount"@.len() != "name1st"@.len());
                assert("allcount"@.len() != "novel_cnt"@.len());
                assert("allcount"@.len() != "review_cnt"@.len());
                assert("allcount"@.len() != "novel_length"@.len());
                assert("allcount"@.len() != "sum_global_point"@.len());
            }
        }
        Node::Dict(entries)
    }
}

impl Entity for NarouUserInfo {
    open spec fn shape() -> Seq<Seq<char>> {
        seq!["userid"@]
    }

    fn shape_keys() -> (r: Vec<&'static str>) {
        let keys: Vec<&'static str> = vec!["userid"];
        assert(key_names(keys@) =~= seq!["userid"@]);
        keys
    }

    /// A map whose entries fit the field types; absent and null optional
    /// fields read as `None`, unknown entries are ignored.
    open spec fn decoded(n: Node) -> Option<Self> {
        match n {
            Node::Dict(e) => {
                let userid = u32_field(e@, "userid"@);
                let name = text_field(e@, "name"@);
                let yomikata = text_field(e@, "yomikata"@);
                let name1st = text_field(e@, "name1st"@);
                let novel_cnt = u32_field(e@, "novel_cnt"@);
                let review_cnt = u32_field(e@, "review_cnt"@);
                let novel_length = u64_field(e@, "novel_length"@);
                let sum_global_point = u64_field(e@, "sum_global_point"@);
                if userid is Some
                    && name is Some
                    && yomikata is Some
                    && name1st is Some
                    && novel_cnt is Some
                    && review_cnt is Some
                    && novel_length is Some
                    && sum_global_point is Some {
                    Some(NarouUserInfo {
                        userid: userid->0,
                        name: name->0,
                        yomikata: yomikata->0,
                        name1st: name1st->0,
                        novel_cnt: novel_cnt->0,
                        review_cnt: review_cnt->0,
                        novel_length: novel_length->0,
                        sum_global_point: sum_global_point->0,
                    })
                } else {
                    None
                }
            },
            _ => None,
        }
    }

    fn from_node(n: &Node) -> (r: Result<Self, ApiError>) {
        match n {
            Node::Dict(e) => {
                let userid = opt_u32(e, "userid")?;
                let name = opt_text(e, "name")?;
                let yomikata = opt_text(e, "yomikata")?;
                let name1st = opt_text(e, "name1st")?;
                let novel_cnt = opt_u32(e, "novel_cnt")?;
                let review_cnt = opt_u32(e, "review_cnt")?;
                let novel_length = opt_u64(e, "novel_length")?;
                let sum_global_point = opt_u64(e, "sum_global_point")?;
                Ok(NarouUserInfo {
                    userid,
                    name,
                    yomikata,
                    name1st,
                    novel_cnt,
                    review_cnt,
                    novel_length,
                    sum_global_point,
                })
            },
            _ => Err(ApiError::Deserialization("a record is not a map".to_string())),
        }
    }
}

/// The user API answer: the total count, where sent, and the users.
#[derive(Debug, Clone)]
pub struct UserResponse {
    pub allcount: Option<u32>,
    pub users: Vec<NarouUserInfo>,
}

impl View for UserResponse {
    type V = (Option<u32>, Seq<NarouUserInfo>);

    open spec fn view(&self) -> Self::V {
        (self.allcount, self.users@)
    }
}

impl ApiResponse for UserResponse {
    open spec fn decoded(tree: Node) -> Option<Self::V> {
        counted::<NarouUserInfo>(tree)
    }

    fn from_tree(tree: &Node) -> (r: Result<Self, ApiError>) {
        let (allcount, users) = decode_counted::<NarouUserInfo>(tree)?;
        Ok(UserResponse { allcount, users })
    }
}

/// The user search endpoint.
pub struct UserApiClient;

/// The field name that a short selector code stands for; an unknown code
/// stands for itself.
pub open spec fn user_field_name(code: Seq<char>) -> Seq<char> {
    if code == "u"@ {
        "userid"@
    } else if code == "n"@ {
        "name"@
    } else if code == "y"@ {
        "yomikata"@
    } else if code == "n1"@ {
        "name1st"@
    } else if code == "nc"@ {
        "novel_cnt"@
    } else if code == "rc"@ {
        "review_cnt"@
    } else if code == "nl"@ {
        "novel_length"@
    } else if code == "sg"@ {
        "sum_global_point"@
    } else {
        code
    }
}

pub open spec fn user_field_names(codes: Seq<Seq<char>>) -> Seq<Seq<char>> {
    codes.map_values(|c: Seq<char>| user_field_name(c))
}

/// A field selector with each code replaced by its field name.
pub open spec fn user_selector(s: Seq<char>) -> Seq<char> {
    join_dash(user_field_names(split_dash(s)))
}

fn user_field_name_of<'a>(code: &'a str) -> (r: &'a str)
    ensures
        r@ == user_field_name(code@),
{
    if same_text(code, "u") {
        "userid"
    } else if same_text(code, "n") {
        "name"
    } else if same_text(code, "y") {
        "yomikata"
    } else if same_text(code, "n1") {
        "name1st"
    } else if same_text(code, "nc") {
        "novel_cnt"
    } else if same_text(code, "rc") {
        "review_cnt"
    } else if same_text(code, "nl") {
        "novel_length"
    } else if same_text(code, "sg") {
        "sum_global_point"
    } else {
        code
    }
}

impl UserApiClient {
    pub fn base_url(&self) -> (r: &'static str)
        ensures
            r@ == "https://api.syosetu.com/userapi/api/"@,
    {
        "https://api.syosetu.com/userapi/api/"
    }

    /// The query parameters of `request`, with its field selector remapped.
    pub fn build_query_params(&self, request: &UserRequest) -> (r: Vec<(String, String)>)
        ensures
            pairs_view(r@) == request.query_with(match request.of {
                Some(of) => Some(user_selector(of@)),
                None => None,
            }),
    {
        let of = match &request.of {
            Some(o) => Some(self.map_of_fields(o.as_str())),
            None => None,
        };
        request.params_with_of(&of)
    }

    /// Replaces each `-`-separated code of a field selector by its field name.
    pub fn map_of_fields(&self, of_fields: &str) -> (r: String)
        ensures
            r@ == user_selector(of_fields@),
    {
        let parts = split_dashes(of_fields);
        let mut mapped: Vec<&str> = Vec::new();
        let mut i: usize = 0;
        assert(texts(mapped@) =~= user_field_names(texts(parts@).take(0)));
        while i < parts.len()
            invariant
                i <= parts@.len(),
                texts(mapped@) == user_field_names(texts(parts@).take(i as int)),
            decreases parts@.len() - i,
        {
            let name = user_field_name_of(parts[i]);
            let ghost before = mapped@;
            mapped.push(name);
            assert(texts(parts@)[i as int] == parts@[i as int]@);
            assert(texts(parts@).take(i + 1) =~= texts(parts@).take(i as int).push(parts@[i as int]@));
            assert(texts(mapped@) =~= texts(before).push(name@));
            assert(user_field_names(texts(parts@).take(i as int).push(parts@[i as int]@))
                =~= user_field_names(texts(parts@).take(i as int)).push(user_field_name(parts@[i as int]@)));
            assert(texts(mapped@) =~= user_field_names(texts(parts@).take(i + 1)));
            i = i + 1;
        }
        assert(texts(parts@).take(parts@.len() as int) =~= texts(parts@));
        join_dashes(&mapped)
    }
}

/// Every field name of the selector table is free of `-`, and so is the
/// name of a `-`-free code.
pub proof fn lemma_user_field_name_dash_free(code: Seq<char>)
    requires
        dash_free(code),
    ensures
        dash_free(user_field_name(code)),
{
    if code == "u"@ {
        reveal_strlit("userid");
        assert forall|i: int| 0 <= i < "userid"@.len() implies "userid"@[i] != '-' by {
            if i == 0 {} else if i == 1 {} else if i == 2 {} else if i == 3 {} else if i == 4 {} else if i == 5 {}
        }
    } else if code == "n"@ {
        reveal_strlit("name");
        assert forall|i: int| 0 <= i < "name"@.len() implies "name"@[i] != '-' by {
            if i == 0 {} else if i == 1 {} else if i == 2 {} else if i == 3 {}
        }
    } else if code == "y"@ {
        reveal_strlit("yomikata");
        assert forall|i: int| 0 <= i < "yomikata"@.len() implies "yomikata"@[i] != '-' by {
            if i == 0 {} else if i == 1 {} else if i == 2 {} else if i == 3 {} else if i == 4 {} else if i == 5 {} else if i == 6 {} else if i == 7 {}
        }
    } else if code == "n1"@ {
        reveal_strlit("name1st");
        assert forall|i: int| 0 <= i < "name1st"@.len() implies "name1st"@[i] != '-' by {
            if i == 0 {} else if i == 1 {} else if i == 2 {} else if i == 3 {} else if i == 4 {} else if i == 5 {} else if i == 6 {}
        }
    } else if code == "nc"@ {
        reveal_strlit("novel_cnt");
        assert forall|i: int| 0 <= i < "novel_cnt"@.len() implies "novel_cnt"@[i] != '-' by {
            if i == 0 {} else if i == 1 {} else if i == 2 {} else if i == 3 {} else if i == 4 {} else if i == 5 {} else if i == 6 {} else if i == 7 {} else if i == 8 {}
        }
    } else if code == "rc"@ {
        reveal_strlit("review_cnt");
        assert forall|i: int| 0 <= i < "review_cnt"@.len() implies "review_cnt"@[i] != '-' by {
            if i == 0 {} else if i == 1 {} else if i == 2 {} else if i == 3 {} else if i == 4 {} else if i == 5 {} else if i == 6 {} else if i == 7 {} else if i == 8 {} else if i == 9 {}
        }
    } else if code == "nl"@ {
        reveal_strlit("novel_length");
        assert forall|i: int| 0 <= i < "novel_length"@.len() implies "novel_length"@[i] != '-' by {
            if i == 0 {} else if i == 1 {} else if i == 2 {} else if i == 3 {} else if i == 4 {} else if i == 5 {} else if i == 6 {} else if i == 7 {} else if i == 8 {} else if i == 9 {} else if i == 10 {} else if i == 11 {}
        }
    } else if code == "sg"@ {
        reveal_strlit("sum_global_point");
        assert forall|i: int| 0 <= i < "sum_global_point"@.len() implies "sum_global_point"@[i] != '-' by {
            if i == 0 {} else if i == 1 {} else if i == 2 {} else if i == 3 {} else if i == 4 {} else if i == 5 {} else if i == 6 {} else if i == 7 {} else if i == 8 {} else if i == 9 {} else if i == 10 {} else if i == 11 {} else if i == 12 {} else if i == 13 {} else if i == 14 {} else if i == 15 {}
        }
    }
}

/// Splitting a remapped selector at `-` gives each code's field name, in
/// order and one for one.
pub proof fn lemma_user_selector_parts(s: Seq<char>)
    ensures
        split_dash(user_selector(s)) == user_field_names(split_dash(s)),
        split_dash(user_selector(s)).len() == split_dash(s).len(),
{
    let parts = split_dash(s);
    lemma_split_nonempty(s);
    lemma_split_dash_free(s);
    let names = user_field_names(parts);
    assert forall|k: int| 0 <= k < names.len() implies dash_free(#[trigger] names[k]) by {
        assert(dash_free(parts[k]));
        lemma_user_field_name_dash_free(parts[k]);
    }
    lemma_split_join(names);
}

/// The query with field selector `a` and the one with `b` have the same
/// length and differ only at the position of the `of` pair: the remap
/// renames that one value and adds or drops nothing.
pub proof fn lemma_user_of_renamed(r: UserRequest, a: Seq<char>, b: Seq<char>)
    ensures
        ({
            let j = (Seq::empty() + num_pair("gzip"@, widen_u8(r.gzip)) + text_pair("out"@, opt_view(r.out))).len() as int;
            let qa = r.query_with(Some(a));
            let qb = r.query_with(Some(b));
            &&& qa.len() == qb.len()
            &&& qa[j] == ("of"@, a)
            &&& qb[j] == ("of"@, b)
            &&& forall|i: int| 0 <= i < qa.len() && i != j ==> qa[i] == qb[i]
        }),
{
    let pre = Seq::empty() + num_pair("gzip"@, widen_u8(r.gzip)) + text_pair("out"@, opt_view(r.out));
    let j = pre.len() as int;
    let mut ua = pre + text_pair("of"@, Some(a));
    let mut ub = pre + text_pair("of"@, Some(b));
    assert(ua[j] == ("of"@, a) && ub[j] == ("of"@, b));
    assert(agree_but(ua, ub, j)) by {
        reveal(agree_but);
        assert forall|i: int| 0 <= i < ua.len() && i != j implies ua[i] == ub[i] by {}
    }
    lemma_agree_but_one(ua, ub, num_pair("lim"@, widen_u32(r.lim)), j);
    ua = ua + num_pair("lim"@, widen_u32(r.lim));
    ub = ub + num_pair("lim"@, widen_u32(r.lim));
    lemma_agree_but_one(ua, ub, num_pair("st"@, widen_u32(r.st)), j);
    ua = ua + num_pair("st"@, widen_u32(r.st));
    ub = ub + num_pair("st"@, widen_u32(r.st));
    lemma_agree_but_one(ua, ub, text_pair("order"@, opt_view(r.order)), j);
    ua = ua + text_pair("order"@, opt_view(r.order));
    ub = ub + text_pair("order"@, opt_view(r.order));
    lemma_agree_but_one(ua, ub, num_pair("libtype"@, widen_u8(r.libtype)), j);
    ua = ua + num_pair("libtype"@, widen_u8(r.libtype));
    ub = ub + num_pair("libtype"@, widen_u8(r.libtype));
    lemma_agree_but_one(ua, ub, text_pair("word"@, opt_view(r.word)), j);
    ua = ua + text_pair("word"@, opt_view(r.word));
    ub = ub + text_pair("word"@, opt_view(r.word));
    lemma_agree_but_one(ua, ub, text_pair("notword"@, opt_view(r.notword)), j);
    ua = ua + text_pair("notword"@, opt_view(r.notword));
    ub = ub + text_pair("notword"@, opt_view(r.notword));
    lemma_agree_but_one(ua, ub, num_pair("userid"@, widen_u32(r.userid)), j);
    ua = ua + num_pair("userid"@, widen_u32(r.userid));
    ub = ub + num_pair("userid"@, widen_u32(r.userid));
    lemma_agree_but_one(ua, ub, text_pair("name1st"@, opt_view(r.name1st)), j);
    ua = ua + text_pair("name1st"@, opt_view(r.name1st));
    ub = ub + text_pair("name1st"@, opt_view(r.name1st));
    lemma_agree_but_one(ua, ub, num_pair("minnovel"@, widen_u32(r.minnovel)), j);
    ua = ua + num_pair("minnovel"@, widen_u32(r.minnovel));
    ub = ub + num_pair("minnovel"@, widen_u32(r.minnovel));
    lemma_agree_but_one(ua, ub, num_pair("maxnovel"@, widen_u32(r.maxnovel)), j);
    ua = ua + num_pair("maxnovel"@, widen_u32(r.maxnovel));
    ub = ub + num_pair("maxnovel"@, widen_u32(r.maxnovel));
    lemma_agree_but_one(ua, ub, num_pair("minreview"@, widen_u32(r.minreview)), j);
    ua = ua + num_pair("minreview"@, widen_u32(r.minreview));
    ub = ub + num_pair("minreview"@, widen_u32(r.minreview));
    lemma_agree_but_one(ua, ub, num_pair("maxreview"@, widen_u32(r.maxreview)), j);
    ua = ua + num_pair("maxreview"@, widen_u32(r.maxreview));
    ub = ub + num_pair("maxreview"@, widen_u32(r.maxreview));
    lemma_agree_but_one(ua, ub, text_pair("callback"@, opt_view(r.callback)), j);
    ua = ua + text_pair("callback"@, opt_view(r.callback));
    ub = ub + text_pair("callback"@, opt_view(r.callback));
    assert(ua == r.query_with(Some(a)));
    assert(ub == r.query_with(Some(b)));
    reveal(agree_but);
}

} // verus!
