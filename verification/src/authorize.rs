//! Construction of the provider authorization URL together with a fresh
//! nonce. The nonce carries 128 bits from a cryptographically strong
//! source, rendered as 32 hex characters, followed by the decimal
//! rendering of a per-builder counter — so two nonces issued by one
//! builder can never coincide, however the random bytes fall.

use vstd::prelude::*;
use vstd::string::StringExecFns;
use crate::text::{
    bytes_to_hex, dec_digits, lemma_dec_digits_injective, spec_join, join_with, u64_to_string,
};
use crate::urlenc::{url_encode, url_encode_chars};

verus! {

/// What the consumer supplies for a login: the public client id, the
/// loopback redirect target, and the fixed scope list.
pub struct ClientConfig {
    pub client_id: String,
    pub redirect_uri: String,
    pub scopes: Vec<String>,
}

/// The fully query-encoded authorization URL for this configuration and
/// nonce: `response_type=code`, the percent-encoded client id, the scopes
/// joined by one space and percent-encoded, the percent-encoded redirect
/// URI, and the nonce as the `state` parameter.
pub open spec fn spec_authorize_url(
    client_id: Seq<char>,
    scopes: Seq<Seq<char>>,
    redirect_uri: Seq<char>,
    nonce: Seq<char>,
) -> Seq<char> {
    "https://accounts.spotify.com/authorize?response_type=code&client_id="@ + url_encode_chars(
        client_id,
    ) + "&scope="@ + url_encode_chars(spec_join(scopes, " "@)) + "&redirect_uri="@
        + url_encode_chars(redirect_uri) + "&state="@ + url_encode_chars(nonce)
}

/// Relies on `rand::rngs::ThreadRng` through `rand::RngCore::fill_bytes`
/// (rand 0.8): fills the buffer from the thread-local cryptographically
/// secure generator. Nothing is promised of the values; only the count
/// of bytes is stated.
#[verifier::external_body]
fn random_bytes_16() -> (r: Vec<u8>)
    ensures
        r@.len() == 16,
{
    let mut buf = vec![0u8; 16];
    rand::RngCore::fill_bytes(&mut rand::thread_rng(), &mut buf);
    buf
}

/// The shape every issued nonce has: 32 hex characters of randomness,
/// then the decimal rendering of its issue number.
pub open spec fn nonce_shape(nonce: Seq<char>, serial: int) -> bool {
    nonce.len() >= 32 && nonce.skip(32) == dec_digits(serial as nat)
}

/// Issues authorization URLs, never repeating a nonce within its own
/// lifetime: the issue counter is woven into every nonce.
pub struct AuthorizationUrlBuilder {
    pub counter: u64,
    pub issued: Ghost<Seq<Seq<char>>>,
}

impl AuthorizationUrlBuilder {
    /// Every nonce issued so far sits in `issued`, stamped with its
    /// issue number.
    pub open spec fn wf(&self) -> bool {
        &&& self.issued@.len() == self.counter
        &&& forall|i: int|
            0 <= i < self.issued@.len() ==> nonce_shape(#[trigger] self.issued@[i], i)
    }

    /// A builder that has issued nothing.
    pub fn new() -> (b: AuthorizationUrlBuilder)
        ensures
            b.wf(),
            b.issued@.len() == 0,
    {
        AuthorizationUrlBuilder { counter: 0, issued: Ghost(Seq::empty()) }
    }

    /// Builds the authorization URL and a fresh nonce: the URL embeds the
    /// configuration and the nonce exactly as `spec_authorize_url` lays
    /// them out, and the nonce differs from every nonce this builder
    /// issued before.
    pub fn build(&mut self, config: &ClientConfig) -> (out: (String, String))
        requires
            old(self).wf(),
            old(self).counter < u64::MAX,
        ensures
            final(self).wf(),
            out.0@ == spec_authorize_url(
                config.client_id@,
                config.scopes.deep_view(),
                config.redirect_uri@,
                out.1@,
            ),
            nonce_shape(out.1@, old(self).issued@.len() as int),
            final(self).issued@ == old(self).issued@.push(out.1@),
            forall|i: int| 0 <= i < old(self).issued@.len() ==> old(self).issued@[i] != out.1@,
    {
        let random = random_bytes_16();
        let mut nonce = bytes_to_hex(&random);
        let serial = u64_to_string(self.counter);
        nonce.append(serial.as_str());
        proof {
            assert(nonce@.skip(32) =~= dec_digits(old(self).counter as nat));
        }
        let mut url = String::new();
        url.append("https://accounts.spotify.com/authorize?response_type=code&client_id=");
        url.append(url_encode(config.client_id.as_str()).as_str());
        url.append("&scope=");
        let joined_scopes = join_with(&config.scopes, " ");
        url.append(url_encode(joined_scopes.as_str()).as_str());
        url.append("&redirect_uri=");
        url.append(url_encode(config.redirect_uri.as_str()).as_str());
        url.append("&state=");
        url.append(url_encode(nonce.as_str()).as_str());
        assert(url@ =~= spec_authorize_url(
            config.client_id@,
            config.scopes.deep_view(),
            config.redirect_uri@,
            nonce@,
        ));
        let ghost nv = nonce@;
        proof {
            let prior = self.issued@;
            assert forall|i: int| 0 <= i < prior.len() implies prior[i] != nv by {
                if prior[i] == nv {
                    assert(nonce_shape(prior[i], i));
                    assert(prior[i].skip(32) == nv.skip(32));
                    lemma_dec_digits_injective(i as nat, old(self).counter as nat);
                }
            }
        }
        self.counter = self.counter + 1;
        let ghost recorded = self.issued@.push(nv);
        self.issued = Ghost(recorded);
        proof {
            assert forall|i: int| 0 <= i < recorded.len() implies nonce_shape(
                #[trigger] recorded[i],
                i,
            ) by {
                if i < old(self).issued@.len() {
                    assert(recorded[i] == old(self).issued@[i]);
                    assert(nonce_shape(old(self).issued@[i], i));
                } else {
                    assert(recorded[i] == nv);
                }
            }
        }
        (url, nonce)
    }
}

/// All nonces one builder ever returned are pairwise distinct: each
/// carries its own issue number, which no random collision can mask.
pub proof fn lemma_nonces_pairwise_distinct(b: &AuthorizationUrlBuilder, i: int, j: int)
    requires
        b.wf(),
        0 <= i < j < b.issued@.len(),
    ensures
        b.issued@[i] != b.issued@[j],
{
    if b.issued@[i] == b.issued@[j] {
        assert(b.issued@[i].skip(32) == b.issued@[j].skip(32));
        lemma_dec_digits_injective(i as nat, j as nat);
    }
}

} // verus!
