//! The two addresses at the provider that a client talks to.

use vstd::prelude::*;
use vstd::string::*;

verus! {

/// `s` with every run of `/` shortened to a single `/`: a `/` that follows
/// another `/` is dropped, everything else is kept in order.
pub open spec fn squeeze(s: Seq<char>) -> Seq<char>
    decreases s.len(),
{
    if s.len() == 0 {
        s
    } else if s.len() >= 2 && s.last() == '/' && s[s.len() - 2] == '/' {
        squeeze(s.drop_last())
    } else {
        squeeze(s.drop_last()).push(s.last())
    }
}

/// No two neighbours in `s` are both `/`.
pub open spec fn no_doubled_separator(s: Seq<char>) -> bool {
    forall|i: int| 0 <= i && i + 1 < s.len() ==> !(#[trigger] s[i] == '/' && s[i + 1] == '/')
}

/// Squeezing keeps the last character.
pub proof fn lemma_squeeze_last(s: Seq<char>)
    requires
        s.len() > 0,
    ensures
        squeeze(s).len() > 0,
        squeeze(s).last() == s.last(),
    decreases s.len(),
{
    if s.len() >= 2 && s.last() == '/' && s[s.len() - 2] == '/' {
        lemma_squeeze_last(s.drop_last());
    }
}

/// A squeezed text holds no doubled separator.
pub proof fn lemma_squeeze_leaves_no_double(s: Seq<char>)
    ensures
        no_doubled_separator(squeeze(s)),
    decreases s.len(),
{
    if s.len() > 0 {
        let shorter = s.drop_last();
        lemma_squeeze_leaves_no_double(shorter);
        if shorter.len() > 0 {
            lemma_squeeze_last(shorter);
        }
    }
}

/// A text without doubled separators is left as it is.
pub proof fn lemma_squeeze_fixes_clean_text(s: Seq<char>)
    requires
        no_doubled_separator(s),
    ensures
        squeeze(s) == s,
    decreases s.len(),
{
    if s.len() > 0 {
        let shorter = s.drop_last();
        assert forall|i: int| 0 <= i && i + 1 < shorter.len() implies !(#[trigger] shorter[i] == '/'
            && shorter[i + 1] == '/') by {
            assert(shorter[i] == s[i] && shorter[i + 1] == s[i + 1]);
        }
        lemma_squeeze_fixes_clean_text(shorter);
        if s.len() >= 2 {
            assert(!(s[s.len() - 2] == '/' && s[s.len() - 2 + 1] == '/'));
        }
        assert(shorter.push(s.last()) =~= s);
    }
}

/// Squeezing a second time changes nothing.
pub proof fn lemma_squeeze_is_idempotent(s: Seq<char>)
    ensures
        squeeze(squeeze(s)) == squeeze(s),
{
    lemma_squeeze_leaves_no_double(s);
    lemma_squeeze_fixes_clean_text(squeeze(s));
}

/// `String::push` of std: the text grows by the one character at its end.
#[verifier::external_body]
fn push_char(text: &mut String, c: char)
    ensures
        final(text)@ == old(text)@.push(c),
{
    text.push(c);
}

/// A copy of `text` in which no separator follows another.
pub fn squeezed(text: &str) -> (out: String)
    ensures
        out@ == squeeze(text@),
{
    broadcast use group_string_axioms;

    let mut out = String::new();
    let mut after_separator = false;
    for c in it: text.chars()
        invariant
            it.seq() == text@,
            out@ == squeeze(text@.take(it.index() as int)),
            after_separator == (it.index() > 0 && text@[it.index() - 1] == '/'),
    {
        proof {
            let read = text@.take(it.index() + 1);
            assert(read.drop_last() =~= text@.take(it.index() as int));
            assert(read.last() == c);
        }
        if !(c == '/' && after_separator) {
            push_char(&mut out, c);
        }
        after_separator = c == '/';
    }
    assert(text@.take(text@.len() as int) =~= text@);
    out
}

/// The three characters before the place `at` are `://`.
pub open spec fn scheme_mark_at(s: Seq<char>, at: int) -> bool {
    3 <= at <= s.len() && s[at - 3] == ':' && s[at - 2] == '/' && s[at - 1] == '/'
}

/// Where the scheme of an address ends: the place just after the first
/// `://`, or 0 where the text holds none.
pub open spec fn scheme_end(s: Seq<char>) -> int
    decreases s.len(),
{
    if s.len() < 3 {
        0
    } else {
        let before = scheme_end(s.drop_last());
        if before > 0 {
            before
        } else if scheme_mark_at(s, s.len() as int) {
            s.len() as int
        } else {
            0
        }
    }
}

/// [`scheme_end`] lies within the text, follows a `://` where it is not 0,
/// and no `://` ends before it.
pub proof fn lemma_scheme_end(s: Seq<char>)
    ensures
        0 <= scheme_end(s) <= s.len(),
        scheme_end(s) > 0 ==> scheme_mark_at(s, scheme_end(s)),
        forall|at: int| #[trigger] scheme_mark_at(s, at) ==> 0 < scheme_end(s) <= at,
    decreases s.len(),
{
    if s.len() >= 3 {
        let shorter = s.drop_last();
        lemma_scheme_end(shorter);
        assert forall|at: int| #[trigger] scheme_mark_at(s, at) implies 0 < scheme_end(s) <= at by {
            if at < s.len() {
                assert(scheme_mark_at(shorter, at));
            }
        }
    }
}

/// The token endpoint of the provider at `domain`: the path is appended, and
/// doubled separators are taken out of what follows the scheme. The scheme,
/// up to and with its `://`, is kept as it is; a domain without one is
/// squeezed whole.
pub open spec fn token_url_of(domain: Seq<char>) -> Seq<char> {
    let kept = scheme_end(domain);
    domain.take(kept) + squeeze(domain.skip(kept) + "/oauth/token"@)
}

/// The key discovery address of the provider at `authority`: the well-known
/// path is appended, nothing else is changed.
pub open spec fn jwks_uri_of(authority: Seq<char>) -> Seq<char> {
    authority + "/.well-known/jwks.json"@
}

/// The length of the scheme at the start of `text`, with its `://`; 0 where
/// the text holds none.
pub fn scheme_length(text: &str) -> (kept: usize)
    ensures
        kept == scheme_end(text@),
        kept <= text@.len(),
{
    broadcast use group_string_axioms;

    let total = text.unicode_len();
    let mut kept: usize = 0;
    let mut read: usize = 0;
    let mut after_colon = false;
    let mut after_colon_slash = false;
    for c in it: text.chars()
        invariant
            it.seq() == text@,
            total == text@.len(),
            read == it.index(),
            kept == scheme_end(text@.take(read as int)),
            after_colon == (read >= 1 && text@[read - 1] == ':'),
            after_colon_slash == (read >= 2 && text@[read - 2] == ':' && text@[read - 1] == '/'),
    {
        proof {
            let longer = text@.take(read + 1);
            assert(longer.drop_last() =~= text@.take(read as int));
            assert(longer.last() == c);
            if read >= 2 {
                assert(longer[read - 2] == text@[read - 2] && longer[read - 1] == text@[read - 1]);
            }
        }
        if kept == 0 && after_colon_slash && c == '/' {
            kept = read + 1;
        }
        after_colon_slash = after_colon && c == '/';
        after_colon = c == ':';
        read = read + 1;
    }
    proof {
        assert(text@.take(read as int) =~= text@);
        lemma_scheme_end(text@);
    }
    kept
}

/// The address to which the client-credentials request is posted.
pub fn token_url(domain: &str) -> (url: String)
    ensures
        url@ == token_url_of(domain@),
        url@.take(scheme_end(domain@)) == domain@.take(scheme_end(domain@)),
        no_doubled_separator(url@.skip(scheme_end(domain@))),
{
    let kept = scheme_length(domain);
    let total = domain.unicode_len();
    let scheme = domain.substring_char(0, kept);
    let rest = String::from_str(domain.substring_char(kept, total)).concat("/oauth/token");
    let tail = squeezed(rest.as_str());
    let url = String::from_str(scheme).concat(tail.as_str());
    proof {
        let k = kept as int;
        assert(domain@.subrange(0, k) =~= domain@.take(k));
        assert(domain@.subrange(k, total as int) =~= domain@.skip(k));
        lemma_squeeze_leaves_no_double(rest@);
        assert(url@.take(k) =~= domain@.take(k));
        assert(url@.skip(k) =~= tail@);
    }
    url
}

/// The address from which the key set is fetched.
pub fn jwks_uri(authority: &str) -> (uri: String)
    ensures
        uri@ == jwks_uri_of(authority@),
{
    String::from_str(authority).concat("/.well-known/jwks.json")
}

} // verus!
