//! The parts of a parsed URL that resolution reads: host, query pairs and
//! fragment, held as plain strings.

use vstd::prelude::*;

verus! {

/// What a URL parser found in an accepted input.
///
/// `query` holds the pairs of the query string in the order in which they
/// stand in the URL, keys and values already form-decoded. A name that stands
/// more than once counts with its last value.
pub struct UrlParts {
    pub host: Option<String>,
    pub query: Vec<(String, String)>,
    pub fragment: Option<String>,
}

/// The mathematical value of a [`UrlParts`].
pub struct UrlPartsView {
    pub host: Option<Seq<char>>,
    pub query: Seq<(Seq<char>, Seq<char>)>,
    pub fragment: Option<Seq<char>>,
}

/// The view of an optional string.
pub open spec fn text_of(s: Option<String>) -> Option<Seq<char>> {
    match s {
        Some(t) => Some(t@),
        None => None,
    }
}

/// The view of an optional borrowed string.
pub open spec fn text_of_ref(s: Option<&String>) -> Option<Seq<char>> {
    match s {
        Some(t) => Some(t@),
        None => None,
    }
}

/// The view of an optional string slice.
pub open spec fn text_of_str(s: Option<&str>) -> Option<Seq<char>> {
    match s {
        Some(t) => Some(t@),
        None => None,
    }
}

/// The view of a list of pairs of strings.
pub open spec fn pairs_of(query: Seq<(String, String)>) -> Seq<(Seq<char>, Seq<char>)> {
    Seq::new(query.len(), |i: int| (query[i].0@, query[i].1@))
}

impl View for UrlParts {
    type V = UrlPartsView;

    open spec fn view(&self) -> UrlPartsView {
        UrlPartsView {
            host: text_of(self.host),
            query: pairs_of(self.query@),
            fragment: text_of(self.fragment),
        }
    }
}

/// The value of optional parts.
pub open spec fn parts_of(parts: Option<&UrlParts>) -> Option<UrlPartsView> {
    match parts {
        Some(p) => Some(p@),
        None => None,
    }
}

/// The host, or the empty text where the URL has none.
pub open spec fn host_text(parts: UrlPartsView) -> Seq<char> {
    match parts.host {
        Some(h) => h,
        None => Seq::empty(),
    }
}

/// The value of the last pair of `query` whose key is `name`.
pub open spec fn param_value(query: Seq<(Seq<char>, Seq<char>)>, name: Seq<char>) -> Option<
    Seq<char>,
>
    decreases query.len(),
{
    if query.len() == 0 {
        None
    } else if query.last().0 == name {
        Some(query.last().1)
    } else {
        param_value(query.drop_last(), name)
    }
}

impl UrlParts {
    /// The host as a string slice, empty where the URL has none.
    pub fn host_str(&self) -> (host: &str)
        ensures
            host@ == host_text(self@),
    {
        match &self.host {
            Some(h) => h.as_str(),
            None => {
                proof {
                    reveal_strlit("");
                }
                assert(""@ =~= Seq::<char>::empty());
                ""
            },
        }
    }

    /// The value that the query gives to `name`: that of the last pair with
    /// this key.
    pub fn param(&self, name: &str) -> (found: Option<&String>)
        ensures
            text_of_ref(found) == param_value(self@.query, name@),
    {
        let key = name.to_owned();
        let mut i: usize = self.query.len();
        assert(self@.query.take(i as int) =~= self@.query);
        while i > 0
            invariant
                i <= self.query.len(),
                key@ == name@,
                param_value(self@.query, name@) == param_value(
                    self@.query.take(i as int),
                    name@,
                ),
            decreases i,
        {
            i -= 1;
            let ghost upto = self@.query.take(i + 1);
            assert(upto.last() == self@.query[i as int]);
            assert(upto.drop_last() =~= self@.query.take(i as int));
            if self.query[i].0 == key {
                return Some(&self.query[i].1);
            }
        }
        None
    }
}


} // verus!
