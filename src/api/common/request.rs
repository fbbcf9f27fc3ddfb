use vstd::prelude::*;
use crate::api::common::params::pairs_view;
use crate::api::common::response::OutputFormat;

verus! {

/// The `out` and `callback` fields of a request read as a format: YAML where
/// `out` is unset.
pub open spec fn format_of(r: OutputFormat, out: Option<String>, callback: Option<String>) -> bool {
    match out {
        None => r == OutputFormat::Yaml,
        Some(o) => OutputFormat::named(r, o@, match callback {
            Some(c) => Some(c@),
            None => None,
        }),
    }
}

/// `gzip` asks for a compressed body: it is set and above zero.
pub open spec fn gzip_on(gzip: Option<u8>) -> bool {
    match gzip {
        Some(level) => level > 0,
        None => false,
    }
}

/// A request: a set of optional fields that become query parameters.
pub trait ApiRequest {
    /// The query parameters, in the order the fields are declared.
    spec fn query(&self) -> Seq<(Seq<char>, Seq<char>)>;

    spec fn out_field(&self) -> Option<String>;

    spec fn gzip_field(&self) -> Option<u8>;

    spec fn callback_field(&self) -> Option<String>;

    fn to_query_params(&self) -> (r: Vec<(String, String)>)
        ensures
            pairs_view(r@) == self.query(),
    ;

    fn output_format(&self) -> (r: OutputFormat)
        ensures
            format_of(r, self.out_field(), self.callback_field()),
    ;

    fn is_gzip(&self) -> (r: bool)
        ensures
            r == gzip_on(self.gzip_field()),
    ;

    fn get_callback(&self) -> (r: Option<String>)
        ensures
            r == self.callback_field(),
    ;
}

/// Reads the format fields of a request.
pub fn format_from_fields(out: &Option<String>, callback: &Option<String>) -> (r: OutputFormat)
    ensures
        format_of(r, *out, *callback),
{
    match out {
        Some(o) => match callback {
            Some(c) => OutputFormat::from_str(o.as_str(), Some(c.as_str())),
            None => OutputFormat::from_str(o.as_str(), None),
        },
        None => OutputFormat::Yaml,
    }
}

/// Whether a gzip field asks for compression.
pub fn gzip_requested(gzip: Option<u8>) -> (r: bool)
    ensures
        r == gzip_on(gzip),
{
    match gzip {
        Some(level) => level > 0,
        None => false,
    }
}

} // verus!
