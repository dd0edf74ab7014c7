//! Pagination cursors and their reconstruction from a response's links.
use vstd::prelude::*;
use crate::links::LinkMap;

verus! {

/// A pagination cursor: the server's defaults, or an explicit page.
#[derive(Debug, Clone, Copy, Hash, PartialEq, Eq)]
pub enum Paging {
    /// No explicit paging: the server applies its own defaults.
    Default,
    /// An explicit page: both offset and limit are given.
    Page { offset: u32, limit: u8 },
}

/// Why a cursor could not be made.
#[derive(Debug, Clone, Copy, Hash, PartialEq, Eq)]
pub enum PagingError {
    /// The limit lies outside `1..=100`.
    OutOfRange,
    /// The link is not a valid URL.
    InvalidUrl,
    /// The link carries no `limit` parameter.
    NotPaginated,
}

/// The smallest limit that a caller may ask for.
pub const MIN_LIMIT: u8 = 1;

/// The largest limit that a caller may ask for.
pub const MAX_LIMIT: u8 = 100;

/// True when every character is an ASCII decimal digit.
pub open spec fn all_digits(s: Seq<char>) -> bool {
    forall|i: int| 0 <= i < s.len() ==> '0' <= #[trigger] s[i] <= '9'
}

/// The number that a run of decimal digits spells.
pub open spec fn digits_value(s: Seq<char>) -> nat
    decreases s.len(),
{
    if s.len() == 0 {
        0
    } else {
        digits_value(s.drop_last()) * 10 + ((s.last() as u32) - 0x30) as nat
    }
}

/// The unsigned number that a text spells: an optional `+` and then at least
/// one decimal digit; anything else spells none.
pub open spec fn parse_unsigned(s: Seq<char>) -> Option<nat> {
    if unsigned_digits(s).len() > 0 && all_digits(unsigned_digits(s)) {
        Some(digits_value(unsigned_digits(s)))
    } else {
        None
    }
}

/// The text after an optional leading `+`.
pub open spec fn unsigned_digits(s: Seq<char>) -> Seq<char> {
    if s.len() > 0 && s[0] == '+' {
        s.drop_first()
    } else {
        s
    }
}

/// The number that a text spells, if it is at most `max`.
pub open spec fn parse_at_most(s: Seq<char>, max: nat) -> Option<nat> {
    match parse_unsigned(s) {
        Some(n) => if n <= max { Some(n) } else { None },
        None => None,
    }
}

fn min_u64(a: u64, b: u64) -> (r: u64)
    ensures
        r == if a <= b { a } else { b },
{
    if a <= b { a } else { b }
}

/// Parses an unsigned decimal number no greater than `max`.
pub fn parse_bounded(s: &str, max: u64) -> (r: Option<u64>)
    requires
        max <= u32::MAX,
    ensures
        match r {
            Some(n) => parse_at_most(s@, max as nat) == Some(n as nat),
            None => parse_at_most(s@, max as nat).is_none(),
        },
{
    let len = s.unicode_len();
    let mut start: usize = 0;
    if len > 0 && s.get_char(0) == '+' {
        start = 1;
    }
    let ghost digits = unsigned_digits(s@);
    assert(digits == s@.subrange(start as int, s@.len() as int));
    if start >= len {
        return None;
    }
    let cap: u64 = max + 1;
    let mut acc: u64 = 0;
    let mut i: usize = start;
    while i < len
        invariant
            start <= i <= len,
            len == s@.len(),
            cap == max + 1,
            max <= u32::MAX,
            digits == s@.subrange(start as int, len as int),
            digits == unsigned_digits(s@),
            all_digits(s@.subrange(start as int, i as int)),
            acc as nat == if digits_value(s@.subrange(start as int, i as int)) <= cap as nat {
                digits_value(s@.subrange(start as int, i as int))
            } else {
                cap as nat
            },
        decreases len - i,
    {
        let c = s.get_char(i);
        if c < '0' || c > '9' {
            assert(digits[i - start] == c);
            assert(!all_digits(digits));
            return None;
        }
        let d = (c as u32 - 0x30) as u64;
        let ghost before = s@.subrange(start as int, i as int);
        let ghost after = s@.subrange(start as int, i + 1);
        assert(after.drop_last() == before);
        assert(acc <= cap);
        assert(acc * 10 + d <= cap * 10 + 9) by (nonlinear_arith)
            requires
                acc <= cap,
                d <= 9,
        ;
        let next = min_u64(acc * 10 + d, cap);
        proof {
            let v = digits_value(before);
            assert(digits_value(after) == v * 10 + d);
            if v > cap {
                assert(v * 10 + d >= cap) by (nonlinear_arith)
                    requires
                        v > cap,
                ;
                assert(acc == cap);
                assert(cap * 10 + d >= cap) by (nonlinear_arith);
            }
        }
        acc = next;
        i += 1;
    }
    assert(s@.subrange(start as int, len as int) == digits);
    if acc <= max {
        Some(acc)
    } else {
        None
    }
}

/// The value of the last pair under a key, if any pair has it.
pub open spec fn last_value(pairs: Seq<(Seq<char>, Seq<char>)>, key: Seq<char>) -> Option<Seq<char>>
    decreases pairs.len(),
{
    if pairs.len() == 0 {
        None
    } else if pairs.last().0 == key {
        Some(pairs.last().1)
    } else {
        last_value(pairs.drop_last(), key)
    }
}

/// The view of decoded query pairs.
pub open spec fn pairs_view(pairs: Seq<(String, String)>) -> Seq<(Seq<char>, Seq<char>)> {
    pairs.map_values(|p: (String, String)| (p.0@, p.1@))
}

/// The cursor that a link's query pairs describe: a page when `limit` is
/// present and a valid `u8`, with `offset` taken as 0 when it is absent or not
/// a valid `u32`; otherwise none.
pub open spec fn paging_of_pairs(pairs: Seq<(Seq<char>, Seq<char>)>) -> Option<Paging> {
    let limit = match last_value(pairs, "limit"@) {
        Some(v) => parse_at_most(v, u8::MAX as nat),
        None => None,
    };
    let offset = match last_value(pairs, "offset"@) {
        Some(v) => parse_at_most(v, u32::MAX as nat),
        None => None,
    };
    match limit {
        Some(l) => Some(
            Paging::Page {
                offset: match offset {
                    Some(o) => o as u32,
                    None => 0,
                },
                limit: l as u8,
            },
        ),
        None => None,
    }
}

/// The query pairs of a URL, decoded as a form: `None` when the text is no
/// valid absolute URL.
pub uninterp spec fn url_query_pairs(link: Seq<char>) -> Option<Seq<(Seq<char>, Seq<char>)>>;

#[verifier::external_type_specification]
#[verifier::external_body]
pub struct ExParseError(url::ParseError);

/// Relies on `url::Url::parse` and `Url::query_pairs` (url 2, whose IDNA
/// step reports punycode overflow as an error rather than panicking): whether
/// the text parses, and the decoded pairs of its query in order, depend on the
/// text alone.
#[verifier::external_body]
fn parse_query_pairs(link: &str) -> (r: Result<Vec<(String, String)>, url::ParseError>)
    ensures
        match r {
            Ok(pairs) => url_query_pairs(link@) == Some(pairs_view(pairs@)),
            Err(_) => url_query_pairs(link@).is_none(),
        },
{
    match url::Url::parse(link) {
        Ok(url) => Ok(url.query_pairs().into_owned().collect()),
        Err(e) => Err(e),
    }
}

/// The cursor that a link describes: `Err(InvalidUrl)` when the link does not
/// parse, else the cursor of its query pairs, if any.
pub open spec fn paging_of_link(link: Seq<char>) -> Result<Option<Paging>, PagingError> {
    match url_query_pairs(link) {
        Some(pairs) => Ok(paging_of_pairs(pairs)),
        None => Err(PagingError::InvalidUrl),
    }
}

fn find_last<'a>(pairs: &'a Vec<(String, String)>, key: &str) -> (r: Option<&'a String>)
    ensures
        match r {
            Some(v) => last_value(pairs_view(pairs@), key@) == Some(v@),
            None => last_value(pairs_view(pairs@), key@).is_none(),
        },
{
    let wanted = key.to_owned();
    let mut i = pairs.len();
    assert(pairs_view(pairs@).take(i as int) == pairs_view(pairs@));
    while i > 0
        invariant
            i <= pairs@.len(),
            wanted@ == key@,
            last_value(pairs_view(pairs@), key@) == last_value(pairs_view(pairs@).take(i as int), key@),
        decreases i,
    {
        assert(pairs_view(pairs@).take(i as int).drop_last() == pairs_view(pairs@).take(i - 1));
        i -= 1;
        if pairs[i].0 == wanted {
            assert(pairs_view(pairs@).take(i + 1).last() == (pairs@[i as int].0@, pairs@[i as int].1@));
            return Some(&pairs[i].1);
        }
    }
    None
}

impl Paging {
    /// The cursor that leaves paging to the server's defaults.
    pub fn default() -> (r: Paging)
        ensures
            r == Paging::Default,
    {
        Paging::Default
    }

    /// An explicit page; fails with `OutOfRange` unless `1 <= limit <= 100`.
    pub fn new(offset: u32, limit: u8) -> (r: Result<Paging, PagingError>)
        ensures
            MIN_LIMIT <= limit <= MAX_LIMIT ==> r == Ok::<Paging, PagingError>(
                Paging::Page { offset, limit },
            ),
            !(MIN_LIMIT <= limit <= MAX_LIMIT) ==> r == Err::<Paging, PagingError>(
                PagingError::OutOfRange,
            ),
    {
        if limit < MIN_LIMIT || limit > MAX_LIMIT {
            Err(PagingError::OutOfRange)
        } else {
            Ok(Paging::Page { offset, limit })
        }
    }

    /// The cursor that decoded query pairs describe; a later pair under a key
    /// wins over an earlier one.
    pub fn from_query_pairs(pairs: &Vec<(String, String)>) -> (r: Option<Paging>)
        ensures
            r == paging_of_pairs(pairs_view(pairs@)),
    {
        let limit = match find_last(pairs, "limit") {
            Some(v) => parse_bounded(v.as_str(), 255),
            None => None,
        };
        match limit {
            Some(l) => {
                let offset = match find_last(pairs, "offset") {
                    Some(v) => parse_bounded(v.as_str(), 0xFFFF_FFFF),
                    None => None,
                };
                let o: u32 = match offset {
                    Some(o) => o as u32,
                    None => 0,
                };
                Some(Paging::Page { offset: o, limit: l as u8 })
            },
            None => None,
        }
    }

    /// The cursor that a link describes.
    pub fn from_url(link: &str) -> (r: Result<Option<Paging>, PagingError>)
        ensures
            r == paging_of_link(link@),
    {
        match parse_query_pairs(link) {
            Ok(pairs) => Ok(Paging::from_query_pairs(&pairs)),
            Err(_) => Err(PagingError::InvalidUrl),
        }
    }

    /// The limit of an explicit page.
    pub fn limit(&self) -> (r: Option<u8>)
        ensures
            r == match self {
                Paging::Default => None,
                Paging::Page { limit, .. } => Some(*limit),
            },
    {
        match self {
            Paging::Default => None,
            Paging::Page { limit, .. } => Some(*limit),
        }
    }

    /// The offset of an explicit page.
    pub fn offset(&self) -> (r: Option<u32>)
        ensures
            r == match self {
                Paging::Default => None,
                Paging::Page { offset, .. } => Some(*offset),
            },
    {
        match self {
            Paging::Default => None,
            Paging::Page { offset, .. } => Some(*offset),
        }
    }

    /// True for the cursor of the server's defaults.
    pub fn is_default(&self) -> (r: bool)
        ensures
            r == (*self == Paging::Default),
    {
        match self {
            Paging::Default => true,
            Paging::Page { .. } => false,
        }
    }
}

/// The cursor of a response whose `self` link is `link`: an error when the
/// link does not parse or carries no `limit`.
pub open spec fn paging_of_current(link: Seq<char>) -> Result<Paging, PagingError> {
    match paging_of_link(link) {
        Ok(Some(p)) => Ok(p),
        Ok(None) => Err(PagingError::NotPaginated),
        Err(e) => Err(e),
    }
}

/// A paginated response: its links lead to the current and the next page.
pub trait Paged {
    /// The link map of the response.
    spec fn link_view(&self) -> Map<Seq<char>, Seq<char>>;

    /// The links of the response.
    fn links(&self) -> (r: &LinkMap)
        ensures
            r@ == self.link_view(),
    ;

    /// The link of the current page, which the response must carry.
    fn current_page_link(&self) -> (r: &String)
        requires
            self.link_view().contains_key("self"@),
        ensures
            r@ == self.link_view()["self"@],
    {
        self.links().get_expected_link("self")
    }

    /// The link of the next page, which the response must carry.
    fn next_page_link(&self) -> (r: &String)
        requires
            self.link_view().contains_key("next"@),
        ensures
            r@ == self.link_view()["next"@],
    {
        self.links().get_expected_link("next")
    }

    /// The cursor of the current page, read from its link.
    fn paging(&self) -> (r: Result<Paging, PagingError>)
        requires
            self.link_view().contains_key("self"@),
        ensures
            r == paging_of_current(self.link_view()["self"@]),
    {
        let link = self.current_page_link();
        match Paging::from_url(link.as_str()) {
            Ok(Some(p)) => Ok(p),
            Ok(None) => Err(PagingError::NotPaginated),
            Err(e) => Err(e),
        }
    }
}

} // verus!
