use vstd::prelude::*;

verus! {

/// What `url::Url::parse` makes of a text: the serialization of the URL it
/// denotes, or `None` where the text is no absolute URL.
pub uninterp spec fn url_parse(s: Seq<char>) -> Option<Seq<char>>;

/// Relies on `url::Url::parse`, which decides whether `s` is an absolute
/// URL, and on `Url::as_str`, which gives the parsed URL's serialization.
#[verifier::external_body]
fn parse_url(s: &str) -> (r: Option<String>)
    ensures
        r is None <==> url_parse(s@) is None,
        r is Some ==> url_parse(s@) == Some(r->0@),
{
    url::Url::parse(s).ok().map(|u| u.as_str().to_owned())
}

/// An absolute URI, kept in the serialized form of the URL standard.
#[derive(Debug, Clone, PartialEq, Eq, Hash)]
pub struct Uri {
    text: String,
}

impl View for Uri {
    type V = Seq<char>;

    closed spec fn view(&self) -> Seq<char> {
        self.text@
    }
}

impl Uri {
    /// Parses `s` as an absolute URL; `None` where it is none.
    pub fn parse(s: &str) -> (r: Option<Uri>)
        ensures
            r is None <==> url_parse(s@) is None,
            r is Some ==> url_parse(s@) == Some(r->0@),
    {
        match parse_url(s) {
            Some(text) => Some(Uri { text }),
            None => None,
        }
    }

    pub fn as_str(&self) -> (r: &str)
        ensures
            r@ == self@,
    {
        self.text.as_str()
    }
}

/// Keeps, in their order, those of `texts` that parse as absolute URLs.
pub fn parse_uris(texts: &Vec<String>) -> (r: Vec<Uri>)
    ensures
        r@.len() <= texts@.len(),
        r@.map_values(|u: Uri| u@) == parsed_uris(texts@.map_values(|t: String| t@)),
{
    let mut out: Vec<Uri> = Vec::new();
    let mut i: usize = 0;
    while i < texts.len()
        invariant
            i <= texts@.len(),
            out@.len() <= i,
            out@.map_values(|u: Uri| u@) == parsed_uris(texts@.map_values(|t: String| t@).subrange(0, i as int)),
        decreases texts@.len() - i,
    {
        let ghost before = texts@.map_values(|t: String| t@).subrange(0, i as int);
        let ghost after = texts@.map_values(|t: String| t@).subrange(0, i + 1);
        assert(after.drop_last() =~= before);
        match Uri::parse(texts[i].as_str()) {
            Some(u) => {
                out.push(u);
                assert(out@.map_values(|u: Uri| u@) =~= parsed_uris(before).push(url_parse(texts@[i as int]@)->0));
            },
            None => {},
        }
        i = i + 1;
    }
    assert(texts@.map_values(|t: String| t@).subrange(0, texts@.len() as int) =~= texts@.map_values(|t: String| t@));
    out
}

/// The serializations of those of `texts` that parse as absolute URLs, in
/// their order.
pub open spec fn parsed_uris(texts: Seq<Seq<char>>) -> Seq<Seq<char>>
    decreases texts.len(),
{
    if texts.len() == 0 {
        Seq::empty()
    } else {
        let rest = parsed_uris(texts.drop_last());
        match url_parse(texts.last()) {
            Some(u) => rest.push(u),
            None => rest,
        }
    }
}

} // verus!
