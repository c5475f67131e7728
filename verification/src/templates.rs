//! The human-readable pages served on the callback route: a template's
//! `{{ key }}` placeholders are replaced by the message variables. The
//! replacement engine works left to right without rescanning what it
//! produced, exactly as `spec_replace` lays it out; reading template
//! files off disk is the caller's business.

use vstd::prelude::*;
use vstd::string::StrSliceExecFns;
use vstd::string::StringExecFns;
use crate::text::{dec_int, i64_to_string, matches_at, push_char};

verus! {

/// `s` with every non-overlapping occurrence of `pat` replaced by `to`,
/// scanning left to right; `s` itself when `pat` is empty.
pub open spec fn spec_replace(s: Seq<char>, pat: Seq<char>, to: Seq<char>) -> Seq<char>
    decreases s.len(),
{
    if pat.len() == 0 {
        s
    } else if s.len() < pat.len() {
        s
    } else if s.take(pat.len() as int) == pat {
        to + spec_replace(s.skip(pat.len() as int), pat, to)
    } else {
        s.take(1) + spec_replace(s.skip(1), pat, to)
    }
}

/// Replaces every non-overlapping occurrence of `pat` in `s` by `to`,
/// left to right, never rescanning replaced text.
pub fn replace_all(s: &str, pat: &str, to: &str) -> (r: String)
    requires
        pat@.len() > 0,
    ensures
        r@ == spec_replace(s@, pat@, to@),
{
    let n = s.unicode_len();
    let m = pat.unicode_len();
    let mut out = String::new();
    let mut i: usize = 0;
    proof {
        assert(s@.skip(0) =~= s@);
    }
    while i < n
        invariant
            i <= n,
            n == s@.len(),
            m == pat@.len(),
            m > 0,
            spec_replace(s@, pat@, to@) == out@ + spec_replace(s@.skip(i as int), pat@, to@),
        decreases n - i,
    {
        if matches_at(s, i, pat) {
            out.append(to);
            proof {
                assert(s@.skip(i as int).take(m as int) =~= s@.subrange(i as int, i + m));
                assert(s@.skip(i as int).skip(m as int) =~= s@.skip(i + m));
            }
            i = i + m;
        } else {
            let c = s.get_char(i);
            push_char(&mut out, c);
            proof {
                if s@.skip(i as int).len() < m {
                    assert(s@.skip(i as int) =~= seq![s@[i as int]] + s@.skip(i + 1));
                } else {
                    assert(s@.skip(i as int).take(m as int) =~= s@.subrange(i as int, i + m));
                    assert(s@.skip(i as int).take(1) =~= seq![s@[i as int]]);
                    assert(s@.skip(i as int).skip(1) =~= s@.skip(i + 1));
                }
            }
            i = i + 1;
        }
    }
    proof {
        assert(s@.skip(i as int) =~= Seq::<char>::empty());
    }
    out
}

/// The placeholder that stands for `key` in a template.
pub open spec fn spec_placeholder(key: Seq<char>) -> Seq<char> {
    "{{ "@ + key + " }}"@
}

/// `content` with each variable's placeholder replaced by its value, the
/// variables applied in order.
pub open spec fn spec_apply_variables(
    content: Seq<char>,
    vars: Seq<(Seq<char>, Seq<char>)>,
) -> Seq<char>
    decreases vars.len(),
{
    if vars.len() == 0 {
        content
    } else {
        spec_apply_variables(
            spec_replace(content, spec_placeholder(vars[0].0), vars[0].1),
            vars.drop_first(),
        )
    }
}

/// The variables of a vector of pairs, as a mathematical sequence.
pub open spec fn vars_view(vars: Seq<(String, String)>) -> Seq<(Seq<char>, Seq<char>)> {
    Seq::new(vars.len(), |i: int| (vars[i].0@, vars[i].1@))
}

/// Replaces each variable's `{{ key }}` placeholder in `content` by its
/// value, in the order the variables are given.
pub fn replace_variables(content: String, variables: &Vec<(String, String)>) -> (r: String)
    ensures
        r@ == spec_apply_variables(content@, vars_view(variables@)),
{
    let ghost content0 = content@;
    let mut current = content;
    let mut i: usize = 0;
    proof {
        assert(vars_view(variables@).skip(0) =~= vars_view(variables@));
    }
    while i < variables.len()
        invariant
            i <= variables@.len(),
            spec_apply_variables(current@, vars_view(variables@).skip(i as int))
                == spec_apply_variables(content0, vars_view(variables@)),
        decreases variables@.len() - i,
    {
        let mut placeholder = String::from_str("{{ ");
        placeholder.append(variables[i].0.as_str());
        placeholder.append(" }}");
        proof {
            reveal_strlit("{{ ");
            assert(placeholder@.len() > 0);
            assert(vars_view(variables@).skip(i as int)[0] == (
                variables@[i as int].0@,
                variables@[i as int].1@,
            ));
            assert(vars_view(variables@).skip(i as int).drop_first() =~= vars_view(
                variables@,
            ).skip(i + 1));
        }
        current = replace_all(current.as_str(), placeholder.as_str(), variables[i].1.as_str());
        i = i + 1;
    }
    proof {
        assert(vars_view(variables@).skip(i as int) =~= Seq::<(Seq<char>, Seq<char>)>::empty());
    }
    current
}

/// The title, message and colour hue of one served page.
pub struct MessageTemplate {
    pub title: String,
    pub message: String,
    pub hue: i16,
}

impl MessageTemplate {
    /// The page for a completed login.
    pub fn success() -> (t: MessageTemplate)
        ensures
            t.title@ == "Authorization Successful!"@,
            t.message@
                == "You have successfully authorized the Spoty application to access your Spotify account."@,
            t.hue == 210,
    {
        MessageTemplate {
            title: String::from_str("Authorization Successful!"),
            message: String::from_str(
                "You have successfully authorized the Spoty application to access your Spotify account.",
            ),
            hue: 210,
        }
    }

    /// The page for a provider-reported authorization error.
    pub fn authorization_error(error_msg: &str) -> (t: MessageTemplate)
        ensures
            t.title@ == "Authorization Failed"@,
            t.message@ == "Error: "@ + error_msg@,
            t.hue == 100,
    {
        let mut message = String::from_str("Error: ");
        message.append(error_msg);
        MessageTemplate { title: String::from_str("Authorization Failed"), message, hue: 100 }
    }

    /// The page for a callback that carried no code.
    pub fn no_code_error() -> (t: MessageTemplate)
        ensures
            t.title@ == "Authorization Failed"@,
            t.message@ == "No authorization code received from Spotify."@,
            t.hue == 100,
    {
        MessageTemplate {
            title: String::from_str("Authorization Failed"),
            message: String::from_str("No authorization code received from Spotify."),
            hue: 100,
        }
    }

    /// The page for a failed code-for-token exchange.
    pub fn token_exchange_error(error_msg: &str) -> (t: MessageTemplate)
        ensures
            t.title@ == "Token Exchange Failed"@,
            t.message@ == "Failed to exchange authorization code for access token: "@
                + error_msg@,
            t.hue == 100,
    {
        let mut message = String::from_str(
            "Failed to exchange authorization code for access token: ",
        );
        message.append(error_msg);
        MessageTemplate { title: String::from_str("Token Exchange Failed"), message, hue: 100 }
    }

    /// The template's variables, in the order they are applied: the hue
    /// in decimal, the title, the message.
    pub fn to_variables(&self) -> (vars: Vec<(String, String)>)
        ensures
            vars_view(vars@) =~= seq![
                ("hue"@, dec_int(self.hue as int)),
                ("title"@, self.title@),
                ("message"@, self.message@),
            ],
    {
        let mut vars: Vec<(String, String)> = Vec::new();
        vars.push((String::from_str("hue"), i64_to_string(self.hue as i64)));
        vars.push((String::from_str("title"), self.title.clone()));
        vars.push((String::from_str("message"), self.message.clone()));
        vars
    }

    /// Renders the template content with this message's variables filled
    /// in.
    pub fn render(&self, template: &str) -> (r: String)
        ensures
            r@ == spec_apply_variables(
                template@,
                seq![
                    ("hue"@, dec_int(self.hue as int)),
                    ("title"@, self.title@),
                    ("message"@, self.message@),
                ],
            ),
    {
        let vars = self.to_variables();
        replace_variables(String::from_str(template), &vars)
    }
}

/// The prerendered pages the front end serves, relative to the working
/// directory the build leaves them in.
pub fn required_template_files() -> (r: Vec<String>)
    ensures
        r.deep_view() =~= seq![
            "../svelte/.svelte-kit/output/prerendered/pages/success.html"@,
            "../svelte/.svelte-kit/output/prerendered/pages/error.html"@,
            "../svelte/.svelte-kit/output/prerendered/pages/no-code.html"@,
            "../svelte/.svelte-kit/output/prerendered/pages/token-error.html"@,
        ],
{
    let mut r: Vec<String> = Vec::new();
    r.push(String::from_str("../svelte/.svelte-kit/output/prerendered/pages/success.html"));
    r.push(String::from_str("../svelte/.svelte-kit/output/prerendered/pages/error.html"));
    r.push(String::from_str("../svelte/.svelte-kit/output/prerendered/pages/no-code.html"));
    r.push(String::from_str("../svelte/.svelte-kit/output/prerendered/pages/token-error.html"));
    r
}

/// Whether every required compiled template is present, given one
/// presence flag per required file.
pub fn check_compiled_files_exist(present: &Vec<bool>) -> (r: bool)
    ensures
        r == (forall|i: int| 0 <= i < present@.len() ==> present@[i]),
{
    let mut i: usize = 0;
    while i < present.len()
        invariant
            i <= present@.len(),
            forall|j: int| 0 <= j < i ==> present@[j],
        decreases present@.len() - i,
    {
        if !present[i] {
            return false;
        }
        i = i + 1;
    }
    true
}

} // verus!
