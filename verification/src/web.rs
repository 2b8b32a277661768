//! URLs as the flow reads them: the text a parser settled on, and the
//! parameters its query carries.

use vstd::prelude::*;
use vstd::std_specs::iter::IteratorSpec;

verus! {

/// The error type of `url::Url::parse`, carried through without being read.
#[verifier::external_type_specification]
#[verifier::external_body]
pub struct ExParseError(url::ParseError);

/// What `url::Url::parse` makes of a text: the serialization of the URL it
/// found, or the reason why it found none.
pub uninterp spec fn url_parse(text: Seq<char>) -> Result<Seq<char>, url::ParseError>;

/// The decoded name and value pairs, in the order of the text, that
/// `url::Url::query_pairs` reads from the query of the URL with the
/// serialization `url`.
pub uninterp spec fn url_query_pairs(url: Seq<char>) -> Seq<(Seq<char>, Seq<char>)>;

/// Calls `url::Url::parse` and hands back the URL's serialization
/// (`Url::into_string`). The contract only gives that outcome its name.
#[verifier::external_body]
fn parse_url(text: &str) -> (r: Result<String, url::ParseError>)
    ensures
        match r {
            Ok(s) => url_parse(text@) == Ok::<Seq<char>, url::ParseError>(s@),
            Err(e) => url_parse(text@) == Err::<Seq<char>, url::ParseError>(e),
        },
{
    match url::Url::parse(text) {
        Ok(url) => Ok(url.into_string()),
        Err(e) => Err(e),
    }
}

/// Calls `url::Url::query_pairs` on the URL that `url` stands for and collects
/// the pairs as owned strings. The contract only gives that list its name.
/// The URL is read again from the text that `url` was parsed from, which the
/// type's invariant says can be parsed.
#[verifier::external_body]
fn query_pairs(url: &ParsedUrl) -> (pairs: Vec<(String, String)>)
    ensures
        pairs.deep_view() == url_query_pairs(url@),
{
    let parsed = url::Url::parse(&url.source).unwrap();
    parsed.query_pairs().into_owned().collect()
}

/// Whether `prefix` is the beginning of `text`, character by character.
fn starts_with(text: &str, prefix: &str) -> (r: bool)
    ensures
        r == prefix@.is_prefix_of(text@),
{
    let mut rest = text.chars();
    let mut wanted = prefix.chars();
    let ghost mut n: int = 0;
    loop
        invariant
            0 <= n <= prefix@.len(),
            n <= text@.len(),
            rest.remaining() == text@.subrange(n, text@.len() as int),
            wanted.remaining() == prefix@.subrange(n, prefix@.len() as int),
            prefix@.subrange(0, n) == text@.subrange(0, n),
        decreases prefix@.len() - n,
    {
        let c = match wanted.next() {
            Some(c) => c,
            None => {
                assert(prefix@.subrange(0, n) =~= prefix@);
                return true;
            },
        };
        assert(c == prefix@[n]);
        let d = match rest.next() {
            Some(d) => d,
            None => {
                return false;
            },
        };
        assert(d == text@[n]);
        if c != d {
            assert(!prefix@.is_prefix_of(text@)) by {
                if prefix@.is_prefix_of(text@) {
                    assert(text@.subrange(0, prefix@.len() as int)[n] == prefix@[n]);
                }
            }
            return false;
        }
        proof {
            assert(prefix@.subrange(0, n + 1) =~= prefix@.subrange(0, n).push(c));
            assert(text@.subrange(0, n + 1) =~= text@.subrange(0, n).push(d));
            assert(text@.subrange(n, text@.len() as int).drop_first() =~= text@.subrange(
                n + 1,
                text@.len() as int,
            ));
            assert(prefix@.subrange(n, prefix@.len() as int).drop_first() =~= prefix@.subrange(
                n + 1,
                prefix@.len() as int,
            ));
            n = n + 1;
        }
    }
}

/// A URL that has been parsed: the text it was read from and the text the
/// parser wrote for it. Only `parse` makes one, so the first always parses to
/// the second.
pub struct ParsedUrl {
    pub(crate) source: String,
    pub(crate) text: String,
}

impl View for ParsedUrl {
    type V = Seq<char>;

    /// The URL's serialization.
    closed spec fn view(&self) -> Seq<char> {
        self.text@
    }
}

impl ParsedUrl {
    #[verifier::type_invariant]
    spec fn parsed(self) -> bool {
        url_parse(self.source@) == Ok::<Seq<char>, url::ParseError>(self.text@)
    }

    /// The text that was given to the parser.
    pub closed spec fn source(self) -> Seq<char> {
        self.source@
    }

    /// Whether this is what parsing `source` gives.
    pub open spec fn parsed_from(self, source: Seq<char>) -> bool {
        self.source() == source && url_parse(source) == Ok::<Seq<char>, url::ParseError>(self@)
    }

    /// Parses `text` as an absolute URL.
    pub fn parse(text: &str) -> (r: Result<ParsedUrl, url::ParseError>)
        ensures
            match r {
                Ok(url) => url.parsed_from(text@),
                Err(e) => url_parse(text@) == Err::<Seq<char>, url::ParseError>(e),
            },
    {
        match parse_url(text) {
            Ok(s) => Ok(ParsedUrl { source: text.to_owned(), text: s }),
            Err(e) => Err(e),
        }
    }

    /// The URL's serialization.
    pub fn as_str(&self) -> (s: &str)
        ensures
            s@ == self@,
    {
        self.text.as_str()
    }

    /// The URL's serialization, as a string of its own.
    pub fn text(&self) -> (s: String)
        ensures
            s@ == self@,
    {
        self.text.clone()
    }

    /// Whether `address` begins with this URL's serialization.
    pub fn is_prefix_of(&self, address: &str) -> (r: bool)
        ensures
            r == self@.is_prefix_of(address@),
    {
        starts_with(address, self.text.as_str())
    }

    /// The parameters of the URL's query, decoded, in the order of the text.
    pub fn query_pairs(&self) -> (pairs: Vec<(String, String)>)
        ensures
            pairs.deep_view() == url_query_pairs(self@),
    {
        query_pairs(self)
    }
}

impl Clone for ParsedUrl {
    fn clone(&self) -> (r: ParsedUrl)
        ensures
            r@ == self@,
            r.source() == self.source(),
    {
        proof {
            use_type_invariant(self);
        }
        ParsedUrl { source: self.source.clone(), text: self.text.clone() }
    }
}

} // verus!
