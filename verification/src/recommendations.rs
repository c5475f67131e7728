//! Track recommendations: the seed list a request is built from, the
//! request URL, and the seed-selection logic that merges the listener's
//! top tracks with their recent plays — first occurrences win, top tracks
//! come first, and at most five seeds are kept. The network calls stay
//! with the caller.

use vstd::prelude::*;
use vstd::string::StringExecFns;
use crate::query_builder::{QueryBuilder, spec_query_encoded};
use crate::text::{dec_digits, spec_join};

verus! {

/// One page of recommended tracks.
pub struct RecommendationsResponse {
    pub content: Vec<RecommendedTrack>,
}

/// One recommended track.
pub struct RecommendedTrack {
    pub id: String,
    pub track_title: String,
    pub artists: Vec<Artist>,
    pub duration_ms: u32,
    pub isrc: Option<String>,
    pub ean: Option<String>,
    pub upc: Option<String>,
    pub href: String,
    pub available_countries: String,
    pub popularity: u32,
}

/// An artist as the recommendations carry it.
pub struct Artist {
    pub id: String,
    pub name: String,
    pub href: String,
}

/// The seed track and artist ids a recommendation request is built from.
#[derive(Clone, Debug)]
pub struct RecommendationSeeds {
    pub seeds: Vec<String>,
}

impl RecommendationSeeds {
    /// No seeds yet.
    pub fn new() -> (s: RecommendationSeeds)
        ensures
            s.seeds.deep_view() == Seq::<Seq<char>>::empty(),
    {
        let s = RecommendationSeeds { seeds: Vec::new() };
        proof {
            assert(s.seeds.deep_view() =~= Seq::<Seq<char>>::empty());
        }
        s
    }

    /// Appends one track id.
    pub fn add_track(self, track_id: &str) -> (r: RecommendationSeeds)
        ensures
            r.seeds.deep_view() == self.seeds.deep_view().push(track_id@),
    {
        let mut seeds = self.seeds;
        let ghost prev = seeds.deep_view();
        seeds.push(String::from_str(track_id));
        proof {
            lemma_deep_view_push(seeds@, prev, track_id@);
        }
        RecommendationSeeds { seeds }
    }

    /// Appends one artist id.
    pub fn add_artist(self, artist_id: &str) -> (r: RecommendationSeeds)
        ensures
            r.seeds.deep_view() == self.seeds.deep_view().push(artist_id@),
    {
        self.add_track(artist_id)
    }

    /// A request needs between one and five seeds.
    pub fn is_valid(&self) -> (r: bool)
        ensures
            r == (1 <= self.seeds.deep_view().len() <= 5),
    {
        self.seeds.len() >= 1 && self.seeds.len() <= 5
    }
}

/// A pushed vector's element views are the previous element views plus
/// the new element's view.
proof fn lemma_deep_view_push(post: Seq<String>, prev_deep: Seq<Seq<char>>, added: Seq<char>)
    requires
        post.len() >= 1,
        prev_deep.len() == post.len() - 1,
        forall|j: int| 0 <= j < post.len() - 1 ==> prev_deep[j] == #[trigger] post[j]@,
        post[post.len() - 1]@ == added,
    ensures
        Seq::new(post.len(), |i: int| post[i].deep_view()) == prev_deep.push(added),
{
    assert(Seq::new(post.len(), |i: int| post[i].deep_view()) =~= prev_deep.push(added));
}

/// Asks the recommendations service, given seeds and a requested count.
pub struct RecommendationsClient {}

impl RecommendationsClient {
    /// A client for the recommendations service.
    pub fn new() -> RecommendationsClient {
        RecommendationsClient {}
    }

    /// The request URL for these seeds and count: the count, then the
    /// seeds joined by commas, percent-encoded behind the service
    /// endpoint. Only a valid seed list (one to five seeds) yields a URL;
    /// anything else is refused with the reader-facing message.
    pub fn recommendations_request_url(
        &self,
        seeds: &RecommendationSeeds,
        size: u32,
    ) -> (r: Result<String, String>)
        ensures
            1 <= seeds.seeds.deep_view().len() <= 5 ==> (r matches Ok(u) && u@
                == "https://api.reccobeats.com/v1/track/recommendation"@ + "?"@
                + spec_query_encoded(
                seq![
                    ("size"@, dec_digits(size as nat)),
                    ("seeds"@, spec_join(seeds.seeds.deep_view(), ","@)),
                ],
            )),
            !(1 <= seeds.seeds.deep_view().len() <= 5) ==> (r matches Err(e) && e@
                == "Invalid seeds: must have 1 seed at least"@),
    {
        if !seeds.is_valid() {
            return Err(String::from_str("Invalid seeds: must have 1 seed at least"));
        }
        let qb = QueryBuilder::new().add_u32("size", size).add_string_vec(
            "seeds",
            seeds.seeds.clone(),
        );
        proof {
            assert(seeds.seeds@.len() == seeds.seeds.deep_view().len());
            assert(qb@ =~= seq![
                ("size"@, dec_digits(size as nat)),
                ("seeds"@, spec_join(seeds.seeds.deep_view(), ","@)),
            ]);
        }
        Ok(qb.build_with_url("https://api.reccobeats.com/v1/track/recommendation"))
    }
}

/// Which ids have been taken already.
pub open spec fn spec_seen(taken: Seq<Seq<char>>) -> Set<Seq<char>> {
    taken.to_set()
}

/// The ids of `s`, first occurrences only, skipping what `seen` already
/// holds.
pub open spec fn spec_dedup_from(s: Seq<Seq<char>>, seen: Set<Seq<char>>) -> Seq<Seq<char>>
    decreases s.len(),
{
    if s.len() == 0 {
        Seq::empty()
    } else if seen.contains(s[0]) {
        spec_dedup_from(s.drop_first(), seen)
    } else {
        seq![s[0]] + spec_dedup_from(s.drop_first(), seen.insert(s[0]))
    }
}

/// The distinct ids of `s`, in order of first occurrence.
pub open spec fn spec_unique_ids(s: Seq<Seq<char>>) -> Seq<Seq<char>> {
    spec_dedup_from(s, Set::empty())
}

/// Whether the id is already among the collected ones.
fn vec_contains_id(v: &Vec<String>, id: &String) -> (r: bool)
    ensures
        r == spec_seen(v.deep_view()).contains(id@),
{
    let mut i: usize = 0;
    while i < v.len()
        invariant
            i <= v@.len(),
            forall|j: int| 0 <= j < i ==> v.deep_view()[j] != id@,
        decreases v@.len() - i,
    {
        if v[i].eq(id) {
            proof {
                assert(v.deep_view()[i as int] == id@);
            }
            return true;
        }
        proof {
            assert(v.deep_view()[i as int] == v@[i as int]@);
        }
        i = i + 1;
    }
    proof {
        if v.deep_view().to_set().contains(id@) {
            let w = choose|j: int| 0 <= j < v.deep_view().len() && v.deep_view()[j] == id@;
            assert(v.deep_view()[w] != id@);
        }
    }
    false
}

/// Taking one id keeps the running decomposition: the collected ids plus
/// the deduplication of what remains.
proof fn lemma_select_step(
    r_prev: Seq<Seq<char>>,
    r_post: Seq<Seq<char>>,
    rest: Seq<Seq<char>>,
    id: Seq<char>,
)
    requires
        rest.len() > 0,
        rest[0] == id,
        r_prev.to_set().contains(id) ==> r_post == r_prev,
        !r_prev.to_set().contains(id) ==> r_post == r_prev.push(id),
    ensures
        r_prev + spec_dedup_from(rest, spec_seen(r_prev)) == r_post + spec_dedup_from(
            rest.drop_first(),
            spec_seen(r_post),
        ),
{
    if r_prev.to_set().contains(id) {
        assert(spec_dedup_from(rest, spec_seen(r_prev)) == spec_dedup_from(
            rest.drop_first(),
            spec_seen(r_prev),
        ));
    } else {
        assert(spec_dedup_from(rest, spec_seen(r_prev)) == seq![id] + spec_dedup_from(
            rest.drop_first(),
            spec_seen(r_prev).insert(id),
        ));
        assert(spec_seen(r_post) =~= spec_seen(r_prev).insert(id)) by {
            assert forall|x: Seq<char>|
                r_post.to_set().contains(x) <==> r_prev.to_set().insert(id).contains(x) by {
                if r_post.contains(x) {
                    let w = choose|w: int| 0 <= w < r_post.len() && r_post[w] == x;
                    if w < r_prev.len() {
                        assert(r_prev[w] == x);
                    }
                }
                if r_prev.contains(x) {
                    let w = choose|w: int| 0 <= w < r_prev.len() && r_prev[w] == x;
                    assert(r_post[w] == x);
                }
                if x == id {
                    assert(r_post[r_post.len() - 1] == id);
                }
            }
        }
        assert(r_prev + (seq![id] + spec_dedup_from(rest.drop_first(), spec_seen(r_post))) =~= (
        r_prev.push(id)) + spec_dedup_from(rest.drop_first(), spec_seen(r_post)));
    }
}

/// Merges the top-track ids with the recently played ids, keeping the
/// first occurrence of each id and the top tracks' precedence.
pub fn select_seed_tracks(top_ids: &Vec<String>, recent_ids: &Vec<String>) -> (r: Vec<String>)
    ensures
        r.deep_view() == spec_unique_ids(top_ids.deep_view() + recent_ids.deep_view()),
{
    let ghost all = top_ids.deep_view() + recent_ids.deep_view();
    let mut r: Vec<String> = Vec::new();
    proof {
        assert(r.deep_view() =~= Seq::<Seq<char>>::empty());
        assert(all.skip(0) =~= all);
        assert(spec_seen(r.deep_view()) =~= Set::<Seq<char>>::empty());
        assert(r.deep_view() + spec_dedup_from(all, Set::<Seq<char>>::empty()) =~= spec_dedup_from(
            all,
            Set::<Seq<char>>::empty(),
        ));
    }
    let mut i: usize = 0;
    while i < top_ids.len()
        invariant
            i <= top_ids@.len(),
            all == top_ids.deep_view() + recent_ids.deep_view(),
            all.len() == top_ids@.len() + recent_ids@.len(),
            spec_unique_ids(all) == r.deep_view() + spec_dedup_from(
                all.skip(i as int),
                spec_seen(r.deep_view()),
            ),
        decreases top_ids@.len() - i,
    {
        proof {
            assert(all.skip(i as int)[0] == top_ids.deep_view()[i as int]);
            assert(all.skip(i as int).drop_first() =~= all.skip(i + 1));
        }
        let ghost r_prev = r.deep_view();
        push_if_unseen(&mut r, &top_ids[i]);
        proof {
            lemma_select_step(r_prev, r.deep_view(), all.skip(i as int), top_ids.deep_view()[i as int]);
        }
        i = i + 1;
    }
    let mut k: usize = 0;
    while k < recent_ids.len()
        invariant
            k <= recent_ids@.len(),
            all == top_ids.deep_view() + recent_ids.deep_view(),
            all.len() == top_ids@.len() + recent_ids@.len(),
            spec_unique_ids(all) == r.deep_view() + spec_dedup_from(
                all.skip(top_ids@.len() + k as int),
                spec_seen(r.deep_view()),
            ),
        decreases recent_ids@.len() - k,
    {
        proof {
            assert(all.skip(top_ids@.len() + k as int)[0] == recent_ids.deep_view()[k as int]);
            assert(all.skip(top_ids@.len() + k as int).drop_first() =~= all.skip(
                top_ids@.len() + k + 1,
            ));
        }
        let ghost r_prev = r.deep_view();
        push_if_unseen(&mut r, &recent_ids[k]);
        proof {
            lemma_select_step(
                r_prev,
                r.deep_view(),
                all.skip(top_ids@.len() + k as int),
                recent_ids.deep_view()[k as int],
            );
        }
        k = k + 1;
    }
    proof {
        assert(all.skip(top_ids@.len() + recent_ids@.len() as int) =~= Seq::<Seq<char>>::empty());
    }
    r
}

/// Appends the id unless an equal one is already collected.
fn push_if_unseen(r: &mut Vec<String>, id: &String)
    ensures
        old(r).deep_view().to_set().contains(id@) ==> final(r).deep_view() == old(r).deep_view(),
        !old(r).deep_view().to_set().contains(id@) ==> final(r).deep_view() == old(
            r,
        ).deep_view().push(id@),
{
    if !vec_contains_id(r, id) {
        let ghost prev = r.deep_view();
        r.push(id.clone());
        proof {
            lemma_deep_view_push(r@, prev, id@);
        }
    }
}

/// At most the first five ids become seeds.
pub open spec fn spec_take_up_to_five(s: Seq<Seq<char>>) -> Seq<Seq<char>> {
    if s.len() <= 5 {
        s
    } else {
        s.take(5)
    }
}

/// Builds the primary seed list: the distinct merged ids, top tracks
/// first, cut to the five the request may carry.
pub fn build_primary_seeds(top_ids: &Vec<String>, recent_ids: &Vec<String>) -> (s:
    RecommendationSeeds)
    ensures
        s.seeds.deep_view() == spec_take_up_to_five(
            spec_unique_ids(top_ids.deep_view() + recent_ids.deep_view()),
        ),
{
    let merged = select_seed_tracks(top_ids, recent_ids);
    let mut seeds: Vec<String> = Vec::new();
    let mut i: usize = 0;
    let ghost target = spec_take_up_to_five(
        spec_unique_ids(top_ids.deep_view() + recent_ids.deep_view()),
    );
    while i < merged.len() && i < 5
        invariant
            i <= merged@.len(),
            i <= 5,
            merged.deep_view() == spec_unique_ids(top_ids.deep_view() + recent_ids.deep_view()),
            target == spec_take_up_to_five(merged.deep_view()),
            seeds.deep_view() =~= target.take(i as int),
        decreases merged@.len() - i,
    {
        let ghost prev = seeds.deep_view();
        seeds.push(merged[i].clone());
        proof {
            lemma_deep_view_push(seeds@, prev, merged.deep_view()[i as int]);
            assert(target[i as int] == merged.deep_view()[i as int]);
            assert(seeds.deep_view() =~= target.take(i + 1));
        }
        i = i + 1;
    }
    proof {
        assert(seeds.deep_view() =~= target);
    }
    RecommendationSeeds { seeds }
}

/// Plans the primary recommendation request from the listener's top
/// tracks and recent plays.
pub struct PrimaryRecommendationsClient {
    pub recommendations_client: RecommendationsClient,
}

impl PrimaryRecommendationsClient {
    /// A client over the recommendations service.
    pub fn new() -> PrimaryRecommendationsClient {
        PrimaryRecommendationsClient { recommendations_client: RecommendationsClient::new() }
    }

    /// The request URL of a primary recommendation: seeds merged from the
    /// given ids, at most five, asking for `limit` tracks (ten when none
    /// is given). Without a single seed there is nothing to ask and the
    /// seed validation's message comes back.
    pub fn plan_primary_request(
        &self,
        top_ids: &Vec<String>,
        recent_ids: &Vec<String>,
        limit: Option<u32>,
    ) -> (r: Result<String, String>)
        ensures
            ({
                let seeds = spec_take_up_to_five(
                    spec_unique_ids(top_ids.deep_view() + recent_ids.deep_view()),
                );
                let size = match limit {
                    Some(l) => l,
                    None => 10u32,
                };
                &&& seeds.len() >= 1 ==> (r matches Ok(u) && u@
                    == "https://api.reccobeats.com/v1/track/recommendation"@ + "?"@
                    + spec_query_encoded(
                    seq![
                        ("size"@, dec_digits(size as nat)),
                        ("seeds"@, spec_join(seeds, ","@)),
                    ],
                ))
                &&& seeds.len() == 0 ==> (r matches Err(e) && e@
                    == "Invalid seeds: must have 1 seed at least"@)
            }),
    {
        let seeds = build_primary_seeds(top_ids, recent_ids);
        let size: u32 = match limit {
            Some(l) => l,
            None => 10,
        };
        self.recommendations_client.recommendations_request_url(&seeds, size)
    }
}

} // verus!
