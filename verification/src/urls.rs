use vstd::prelude::*;

use url::Url;

use crate::model::views;

verus! {

/// The text of the URL obtained by parsing `base`, appending `segments` to its
/// path and `pairs` to its query, or `None` when `base` does not parse or cannot
/// be a base.
pub uninterp spec fn built_url(
    base: Seq<char>,
    segments: Seq<Seq<char>>,
    pairs: Seq<(Seq<char>, Seq<char>)>,
) -> Option<Seq<char>>;

/// The texts of a sequence of query pairs.
pub open spec fn pair_views(pairs: Seq<(String, String)>) -> Seq<(Seq<char>, Seq<char>)> {
    pairs.map_values(|p: (String, String)| (p.0@, p.1@))
}

/// `url::Url::parse` of `base`, then `PathSegmentsMut::extend` with `segments`
/// (each percent-encoded, "." and ".." left out) and
/// `form_urlencoded::Serializer::extend_pairs` with `pairs`, then the text of the
/// URL. The result is named by [`built_url`]; nothing more is claimed of it.
#[verifier::external_body]
pub(crate) fn build_url(base: &str, segments: &Vec<String>, pairs: &Vec<(String, String)>) -> (r: Option<String>)
    requires
        pairs@.len() > 0,
    ensures
        crate::config::opt_view(r) == built_url(base@, views(segments@), pair_views(pairs@)),
{
    let mut url = match Url::parse(base) {
        Ok(u) => u,
        Err(_) => return None,
    };
    match url.path_segments_mut() {
        Ok(mut path) => {
            path.extend(segments.iter());
        },
        Err(_) => return None,
    }
    url.query_pairs_mut().extend_pairs(pairs.iter());
    Some(url.into())
}

} // verus!
