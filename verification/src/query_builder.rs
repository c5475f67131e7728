//! An ordered collection of query parameters and its rendering as a query
//! string, both bare (`k=v&k=v`) and appended percent-encoded to a base
//! URL.

use vstd::prelude::*;
use vstd::string::StringExecFns;
use crate::text::{dec_digits, dec_int, i64_to_string, spec_join, join_with, u64_to_string};
use crate::urlenc::{url_encode, url_encode_chars};

verus! {

/// One rendered `key=value` piece.
pub open spec fn spec_kv(p: (Seq<char>, Seq<char>)) -> Seq<char> {
    p.0 + "="@ + p.1
}

/// One percent-encoded `key=value` piece.
pub open spec fn spec_kv_encoded(p: (Seq<char>, Seq<char>)) -> Seq<char> {
    url_encode_chars(p.0) + "="@ + url_encode_chars(p.1)
}

/// The bare query string of the parameters, in order.
pub open spec fn spec_query(params: Seq<(Seq<char>, Seq<char>)>) -> Seq<char> {
    spec_join(params.map_values(|p: (Seq<char>, Seq<char>)| spec_kv(p)), "&"@)
}

/// The percent-encoded query string of the parameters, in order.
pub open spec fn spec_query_encoded(params: Seq<(Seq<char>, Seq<char>)>) -> Seq<char> {
    spec_join(params.map_values(|p: (Seq<char>, Seq<char>)| spec_kv_encoded(p)), "&"@)
}

/// Collects query parameters in insertion order.
pub struct QueryBuilder {
    params: Vec<(String, String)>,
}

impl View for QueryBuilder {
    type V = Seq<(Seq<char>, Seq<char>)>;

    closed spec fn view(&self) -> Seq<(Seq<char>, Seq<char>)> {
        Seq::new(self.params@.len(), |i: int| (self.params@[i].0@, self.params@[i].1@))
    }
}

impl QueryBuilder {
    /// No parameters yet.
    pub fn new() -> (q: QueryBuilder)
        ensures
            q@ == Seq::<(Seq<char>, Seq<char>)>::empty(),
    {
        let q = QueryBuilder { params: Vec::new() };
        proof {
            assert(q@ =~= Seq::<(Seq<char>, Seq<char>)>::empty());
        }
        q
    }

    /// Appends one parameter.
    pub fn add_param(self, key: &str, value: String) -> (r: QueryBuilder)
        ensures
            r@ == self@.push((key@, value@)),
    {
        let mut params = self.params;
        let ghost before = Seq::new(params@.len(), |i: int| (params@[i].0@, params@[i].1@));
        params.push((String::from_str(key), value));
        let r = QueryBuilder { params };
        proof {
            assert(r@ =~= before.push((key@, value@)));
        }
        r
    }

    /// Appends one parameter rendered from an unsigned value.
    pub fn add_u32(self, key: &str, value: u32) -> (r: QueryBuilder)
        ensures
            r@ == self@.push((key@, dec_digits(value as nat))),
    {
        self.add_param(key, u64_to_string(value as u64))
    }

    /// Appends the values joined by commas, or nothing when the list is
    /// empty.
    pub fn add_string_vec(self, key: &str, values: Vec<String>) -> (r: QueryBuilder)
        ensures
            values@.len() == 0 ==> r@ == self@,
            values@.len() > 0 ==> r@ == self@.push((key@, spec_join(values.deep_view(), ","@))),
    {
        if values.len() == 0 {
            self
        } else {
            let joined = join_with(&values, ",");
            self.add_param(key, joined)
        }
    }

    /// Appends the signed value when one is given.
    pub fn add_optional_i32(self, key: &str, value: Option<i32>) -> (r: QueryBuilder)
        ensures
            value is None ==> r@ == self@,
            value matches Some(v) ==> r@ == self@.push((key@, dec_int(v as int))),
    {
        match value {
            Some(v) => self.add_param(key, i64_to_string(v as i64)),
            None => self,
        }
    }

    /// Appends the unsigned value when one is given.
    pub fn add_optional_u32(self, key: &str, value: Option<u32>) -> (r: QueryBuilder)
        ensures
            value is None ==> r@ == self@,
            value matches Some(v) ==> r@ == self@.push((key@, dec_digits(v as nat))),
    {
        match value {
            Some(v) => self.add_u32(key, v),
            None => self,
        }
    }

    /// Appends the string when one is given.
    pub fn add_optional_string(self, key: &str, value: Option<String>) -> (r: QueryBuilder)
        ensures
            value is None ==> r@ == self@,
            value matches Some(v) ==> r@ == self@.push((key@, v@)),
    {
        match value {
            Some(v) => self.add_param(key, v),
            None => self,
        }
    }

    /// Renders the parameters as `key=value` pieces joined by `&`.
    pub fn build(self) -> (r: String)
        ensures
            r@ == spec_query(self@),
    {
        let pieces = self.kv_pieces(false);
        join_with(&pieces, "&")
    }

    /// Renders the parameters percent-encoded after the base URL, behind
    /// a `?`; the base URL alone when there are no parameters.
    pub fn build_with_url(self, base_url: &str) -> (r: String)
        ensures
            self@.len() == 0 ==> r@ == base_url@,
            self@.len() > 0 ==> r@ == base_url@ + "?"@ + spec_query_encoded(self@),
    {
        if self.params.len() == 0 {
            proof {
                assert(self@.len() == 0);
            }
            return String::from_str(base_url);
        }
        proof {
            assert(self@.len() > 0);
        }
        let pieces = self.kv_pieces(true);
        let query = join_with(&pieces, "&");
        let mut r = String::from_str(base_url);
        r.append("?");
        r.append(query.as_str());
        r
    }

    /// The `key=value` pieces, in order, percent-encoded on demand.
    fn kv_pieces(self, encoded: bool) -> (pieces: Vec<String>)
        ensures
            !encoded ==> pieces.deep_view() == self@.map_values(
                |p: (Seq<char>, Seq<char>)| spec_kv(p),
            ),
            encoded ==> pieces.deep_view() == self@.map_values(
                |p: (Seq<char>, Seq<char>)| spec_kv_encoded(p),
            ),
    {
        let ghost target = if encoded {
            self@.map_values(|p: (Seq<char>, Seq<char>)| spec_kv_encoded(p))
        } else {
            self@.map_values(|p: (Seq<char>, Seq<char>)| spec_kv(p))
        };
        let mut pieces: Vec<String> = Vec::new();
        let mut i: usize = 0;
        while i < self.params.len()
            invariant
                i <= self.params@.len(),
                target.len() == self.params@.len(),
                self@.len() == self.params@.len(),
                pieces.deep_view() =~= target.take(i as int),
                target == if encoded {
                    self@.map_values(|p: (Seq<char>, Seq<char>)| spec_kv_encoded(p))
                } else {
                    self@.map_values(|p: (Seq<char>, Seq<char>)| spec_kv(p))
                },
                forall|j: int|
                    0 <= j < self@.len() ==> #[trigger] self@[j] == (
                    self.params@[j].0@,
                    self.params@[j].1@,
                ),
            decreases self.params@.len() - i,
        {
            let piece: String = if encoded {
                let mut p = url_encode(self.params[i].0.as_str());
                p.append("=");
                p.append(url_encode(self.params[i].1.as_str()).as_str());
                p
            } else {
                let mut p = self.params[i].0.clone();
                p.append("=");
                p.append(self.params[i].1.as_str());
                p
            };
            let ghost prev = pieces.deep_view();
            let ghost prev_v = pieces@;
            pieces.push(piece);
            proof {
                assert(self@[i as int] == (self.params@[i as int].0@, self.params@[i as int].1@));
                if encoded {
                    assert(target[i as int] == spec_kv_encoded(self@[i as int]));
                } else {
                    assert(target[i as int] == spec_kv(self@[i as int]));
                }
                assert(piece@ == target[i as int]);
                assert(prev.len() == i);
                assert(pieces@ == prev_v.push(piece));
                assert forall|j: int| 0 <= j < i + 1 implies pieces.deep_view()[j] == target.take(
                    i + 1,
                )[j] by {
                    assert(pieces.deep_view()[j] == pieces@[j].deep_view());
                    if j < i {
                        assert(pieces@[j] == prev_v[j]);
                        assert(prev[j] == prev_v[j].deep_view());
                        assert(prev[j] == target[j]);
                    } else {
                        assert(pieces@[j] == piece);
                    }
                }
                assert(pieces.deep_view() =~= target.take(i + 1));
            }
            i = i + 1;
        }
        proof {
            assert(pieces.deep_view() =~= target);
        }
        pieces
    }
}

} // verus!
